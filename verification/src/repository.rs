//! The task list: tasks in ascending order of their identifiers, and the
//! identifier the next new task gets.

use crate::task::{line_reads_as, md_line, scheduled_text, view_of, ScheduledDate, Task, TaskView};
use vstd::prelude::*;
use vstd::string::StringExecFns;

verus! {

/// Mathematical content of a [`TaskRepository`].
pub struct RepositoryView {
    /// The tasks, in ascending order of their identifiers.
    pub tasks: Seq<TaskView>,
    /// The identifier that the next added task gets.
    pub next_id: u32,
}

/// Number of tasks at the front of `tasks` whose identifier is below `id`.
/// In a list in ascending order these are all the tasks below `id`, and the
/// count is the place where a task with identifier `id` stands or belongs.
pub open spec fn lower_count(tasks: Seq<TaskView>, id: u32) -> int
    decreases tasks.len(),
{
    if tasks.len() == 0 {
        0
    } else if tasks.last().id < id {
        tasks.len() as int
    } else {
        lower_count(tasks.drop_last(), id)
    }
}

/// Whether the identifiers in `tasks` ascend strictly.
pub open spec fn ascending(tasks: Seq<TaskView>) -> bool {
    forall|i: int, j: int| 0 <= i < j < tasks.len() ==> tasks[i].id < tasks[j].id
}

/// The text of a task file that holds `tasks`: for each task its line,
/// followed by an empty line.
pub open spec fn file_text(tasks: Seq<TaskView>) -> Seq<char>
    decreases tasks.len(),
{
    if tasks.len() == 0 {
        Seq::empty()
    } else {
        file_text(tasks.drop_last()) + md_line(tasks.last(), scheduled_text(tasks.last())) + "\n"@
    }
}

impl RepositoryView {
    /// The empty list; its first task will get identifier 1.
    pub open spec fn empty() -> RepositoryView {
        RepositoryView { tasks: Seq::empty(), next_id: 1 }
    }

    /// The identifiers ascend strictly, so none occurs twice, and all are
    /// below the next identifier.
    pub open spec fn wf(self) -> bool {
        &&& ascending(self.tasks)
        &&& forall|i: int| 0 <= i < self.tasks.len() ==> self.tasks[i].id < self.next_id
    }

    /// Place of the task with identifier `id`, if there is one.
    pub open spec fn index_of(self, id: u32) -> Option<int> {
        let place = lower_count(self.tasks, id);
        if place < self.tasks.len() && self.tasks[place].id == id {
            Some(place)
        } else {
            None
        }
    }

    /// The task with identifier `id`, if there is one.
    pub open spec fn task_with(self, id: u32) -> Option<TaskView> {
        match self.index_of(id) {
            Some(place) => Some(self.tasks[place]),
            None => None,
        }
    }

    /// The list after a new, open task was added under the next identifier.
    pub open spec fn add(self, title: Seq<char>, scheduled: Option<ScheduledDate>) -> RepositoryView {
        RepositoryView {
            tasks: self.tasks.push(TaskView { id: self.next_id, title, is_complete: false, scheduled }),
            next_id: (self.next_id + 1) as u32,
        }
    }

    /// The list without the task with identifier `id`.
    pub open spec fn remove(self, id: u32) -> RepositoryView {
        match self.index_of(id) {
            Some(place) => RepositoryView { tasks: self.tasks.remove(place), ..self },
            None => self,
        }
    }

    /// The list after `task`, read from a file, was put in: it takes the
    /// place of the task with its identifier if there is one, and its place
    /// in the order otherwise; the next identifier moves past it.
    pub open spec fn put(self, task: TaskView) -> RepositoryView {
        let place = lower_count(self.tasks, task.id);
        RepositoryView {
            tasks: if self.index_of(task.id) is Some {
                self.tasks.update(place, task)
            } else {
                self.tasks.insert(place, task)
            },
            next_id: if task.id >= self.next_id {
                (task.id + 1) as u32
            } else {
                self.next_id
            },
        }
    }
}

/// The list that a file holds whose lines read as `readings`, taken in
/// order, a later task replacing an earlier one with its identifier; `None`
/// where a task has the largest identifier there is, past which no next one
/// exists.
pub open spec fn loaded(readings: Seq<Option<TaskView>>) -> Option<RepositoryView>
    decreases readings.len(),
{
    if readings.len() == 0 {
        Some(RepositoryView::empty())
    } else {
        match (loaded(readings.drop_last()), readings.last()) {
            (None, _) => None,
            (Some(list), None) => Some(list),
            (Some(list), Some(task)) => if task.id == u32::MAX {
                None
            } else {
                Some(list.put(task))
            },
        }
    }
}

/// In an ascending list the tasks below `id` are exactly those before
/// `place`, where `place` is the first task that is not below `id`.
pub proof fn lemma_lower_count(tasks: Seq<TaskView>, id: u32, place: int)
    requires
        ascending(tasks),
        0 <= place <= tasks.len(),
        forall|i: int| 0 <= i < place ==> tasks[i].id < id,
        place < tasks.len() ==> tasks[place].id >= id,
    ensures
        lower_count(tasks, id) == place,
    decreases tasks.len(),
{
    if tasks.len() > 0 {
        if tasks.last().id < id {
            if place < tasks.len() {
                assert(tasks[place].id <= tasks.last().id);
            }
        } else {
            assert(ascending(tasks.drop_last()));
            lemma_lower_count(tasks.drop_last(), id, place);
        }
    }
}

/// In a well-formed list, asking for an identifier gives the one task that
/// has it, and no task where none has it.
pub proof fn lemma_task_with(list: RepositoryView, id: u32)
    requires
        list.wf(),
    ensures
        list.task_with(id) is Some ==> list.task_with(id)->0.id == id && list.tasks.contains(list.task_with(id)->0),
        list.task_with(id) is None ==> forall|i: int| 0 <= i < list.tasks.len() ==> list.tasks[i].id != id,
        forall|i: int| 0 <= i < list.tasks.len() && list.tasks[i].id == id ==> list.task_with(id) == Some(
            list.tasks[i],
        ),
{
    lemma_lower_bound(list.tasks, id);
}

/// The place that `lower_count` gives splits an ascending list: before it
/// every identifier is below `id`, from it on none is.
pub proof fn lemma_lower_bound(tasks: Seq<TaskView>, id: u32)
    requires
        ascending(tasks),
    ensures
        0 <= lower_count(tasks, id) <= tasks.len(),
        forall|i: int| 0 <= i < lower_count(tasks, id) ==> tasks[i].id < id,
        forall|i: int| lower_count(tasks, id) <= i < tasks.len() ==> tasks[i].id >= id,
    decreases tasks.len(),
{
    if tasks.len() > 0 {
        if tasks.last().id < id {
            assert forall|i: int| 0 <= i < tasks.len() implies tasks[i].id < id by {
                if i < tasks.len() - 1 {
                    assert(tasks[i].id < tasks[tasks.len() - 1].id);
                }
            }
        } else {
            let front = tasks.drop_last();
            assert(ascending(front));
            lemma_lower_bound(front, id);
            let place = lower_count(front, id);
            assert(lower_count(tasks, id) == place);
            assert forall|i: int| 0 <= i < place implies tasks[i].id < id by {
                assert(front[i].id < id);
            }
            assert forall|i: int| place <= i < tasks.len() implies tasks[i].id >= id by {
                if i < front.len() {
                    assert(front[i].id >= id);
                }
            }
        }
    }
}

/// Adding, removing and putting in keep a well-formed list well-formed; an
/// addition needs a next identifier to move on to, and so does a task that
/// is put in.
pub proof fn lemma_operations_preserve_wf(list: RepositoryView, task: TaskView, id: u32)
    requires
        list.wf(),
    ensures
        list.next_id < u32::MAX ==> list.add(task.title, task.scheduled).wf(),
        list.remove(id).wf(),
        task.id < u32::MAX ==> list.put(task).wf(),
{
    lemma_lower_bound(list.tasks, id);
    lemma_lower_bound(list.tasks, task.id);
    if list.next_id < u32::MAX {
        let added = list.add(task.title, task.scheduled);
        assert(ascending(added.tasks));
    }
    assert(list.remove(id).wf());
    if task.id < u32::MAX {
        let place = lower_count(list.tasks, task.id);
        let put = list.put(task);
        assert(ascending(put.tasks)) by {
            assert forall|i: int, j: int| 0 <= i < j < put.tasks.len() implies put.tasks[i].id < put.tasks[j].id by {
                if list.index_of(task.id) is Some {
                    if i != place && j != place {
                        assert(list.tasks[i].id < list.tasks[j].id);
                    } else if i == place {
                        assert(list.tasks[place].id < list.tasks[j].id);
                    } else {
                        assert(list.tasks[i].id < list.tasks[place].id);
                    }
                } else {
                    if j < place {
                        assert(list.tasks[i].id < list.tasks[j].id);
                    } else if j == place {
                    } else if i < place {
                        assert(list.tasks[i].id < task.id);
                        assert(list.tasks[j - 1].id >= task.id);
                    } else if i == place {
                        assert(list.tasks[j - 1].id >= task.id);
                    } else {
                        assert(list.tasks[i - 1].id < list.tasks[j - 1].id);
                    }
                }
            }
        }
    }
}


/// The task list. Its view is a [`RepositoryView`].
#[derive(Debug, PartialEq, Eq)]
pub struct TaskRepository {
    tasks: Vec<Task>,
    next_id: u32,
}

impl View for TaskRepository {
    type V = RepositoryView;

    closed spec fn view(&self) -> RepositoryView {
        RepositoryView { tasks: self.tasks@.map_values(|task: Task| task@), next_id: self.next_id }
    }
}

/// The view of a list that may be absent.
pub open spec fn view_of_list(list: Option<TaskRepository>) -> Option<RepositoryView> {
    match list {
        Some(list) => Some(list@),
        None => None,
    }
}

impl TaskRepository {
    /// The empty list.
    pub fn new() -> (list: TaskRepository)
        ensures
            list@ == RepositoryView::empty(),
            list@.wf(),
    {
        let list = TaskRepository { tasks: Vec::new(), next_id: 1 };
        assert(list@.tasks =~= Seq::empty());
        list
    }

    /// The identifier that the next added task gets.
    pub fn next_id(&self) -> (next_id: u32)
        ensures
            next_id == self@.next_id,
    {
        self.next_id
    }

    /// Number of tasks in the list.
    pub fn len(&self) -> (len: usize)
        ensures
            len == self@.tasks.len(),
    {
        self.tasks.len()
    }

    /// Whether the identifiers ascend strictly and stay below the next one.
    pub fn is_well_formed(&self) -> (well_formed: bool)
        ensures
            well_formed == self@.wf(),
    {
        let mut i: usize = 0;
        while i < self.tasks.len()
            invariant
                i <= self.tasks.len(),
                forall|a: int, b: int| 0 <= a < b < i ==> self@.tasks[a].id < self@.tasks[b].id,
                forall|a: int| 0 <= a < i ==> self@.tasks[a].id < self@.next_id,
            decreases self.tasks.len() - i,
        {
            if self.tasks[i].id >= self.next_id {
                assert(!(self@.tasks[i as int].id < self@.next_id));
                return false;
            }
            if i > 0 && self.tasks[i - 1].id >= self.tasks[i].id {
                assert(!(self@.tasks[i - 1].id < self@.tasks[i as int].id));
                return false;
            }
            assert forall|a: int, b: int| 0 <= a < b < i + 1 implies self@.tasks[a].id < self@.tasks[b].id by {
                if b == i && a < i - 1 {
                    assert(self@.tasks[a].id < self@.tasks[i - 1].id);
                }
            }
            i = i + 1;
        }
        true
    }

    /// Place of the first task whose identifier is not below `id`.
    fn find(&self, id: u32) -> (place: usize)
        requires
            self@.wf(),
        ensures
            place == lower_count(self@.tasks, id),
            place <= self.tasks.len(),
    {
        let mut place: usize = 0;
        while place < self.tasks.len() && self.tasks[place].id < id
            invariant
                place <= self.tasks.len(),
                forall|i: int| 0 <= i < place ==> (#[trigger] self@.tasks[i]).id < id,
            decreases self.tasks.len() - place,
        {
            place = place + 1;
        }
        proof {
            lemma_lower_count(self@.tasks, id, place as int);
        }
        place
    }

    /// Adds a new, open task under the next identifier.
    pub fn add(&mut self, title: String, scheduled: Option<ScheduledDate>)
        requires
            old(self)@.wf(),
            old(self)@.next_id < u32::MAX,
        ensures
            final(self)@ == old(self)@.add(title@, scheduled),
            final(self)@.wf(),
    {
        let id = self.next_id;
        let task = Task { id, title, is_complete: false, scheduled };
        proof {
            lemma_operations_preserve_wf(old(self)@, task@, 0);
        }
        self.tasks.push(task);
        self.next_id = self.next_id + 1;
        assert(self@.tasks =~= old(self)@.add(title@, scheduled).tasks);
    }

    /// The task with identifier `id`, if there is one.
    pub fn get(&self, id: u32) -> (task: Option<&Task>)
        requires
            self@.wf(),
        ensures
            task is Some <==> self@.task_with(id) is Some,
            task is Some ==> task->0@ == self@.task_with(id)->0,
    {
        let place = self.find(id);
        if place < self.tasks.len() && self.tasks[place].id == id {
            Some(&self.tasks[place])
        } else {
            None
        }
    }

    /// The task with identifier `id`, open to change, if there is one. The
    /// list stays well-formed as long as the task keeps its identifier.
    pub fn get_mut(&mut self, id: u32) -> (task: Option<&mut Task>)
        requires
            old(self)@.wf(),
        ensures
            task is Some <==> old(self)@.index_of(id) is Some,
            task is None ==> final(self)@ == old(self)@,
            task is Some ==> {
                &&& (*task->0)@ == old(self)@.task_with(id)->0
                &&& final(self)@.next_id == old(self)@.next_id
                &&& final(self)@.tasks == old(self)@.tasks.update(
                    old(self)@.index_of(id)->0,
                    (*final(task->0))@,
                )
            },
    {
        let place = self.find(id);
        if place < self.tasks.len() && self.tasks[place].id == id {
            Some(&mut self.tasks[place])
        } else {
            None
        }
    }

    /// Takes the task with identifier `id` out of the list and returns it.
    pub fn remove(&mut self, id: u32) -> (task: Option<Task>)
        requires
            old(self)@.wf(),
        ensures
            view_of(task) == old(self)@.task_with(id),
            final(self)@ == old(self)@.remove(id),
            final(self)@.wf(),
    {
        let place = self.find(id);
        proof {
            lemma_operations_preserve_wf(old(self)@, old(self)@.tasks[0], id);
        }
        if place < self.tasks.len() && self.tasks[place].id == id {
            let task = self.tasks.remove(place);
            assert(self@.tasks =~= old(self)@.remove(id).tasks);
            Some(task)
        } else {
            None
        }
    }

    /// The tasks in ascending order of their identifiers.
    pub fn list_all(&self) -> (all: Vec<&Task>)
        ensures
            all@.len() == self@.tasks.len(),
            forall|i: int| 0 <= i < all@.len() ==> (#[trigger] all@[i])@ == self@.tasks[i],
    {
        let mut all: Vec<&Task> = Vec::new();
        let mut i: usize = 0;
        while i < self.tasks.len()
            invariant
                i <= self.tasks.len(),
                all@.len() == i,
                forall|k: int| 0 <= k < i ==> (#[trigger] all@[k])@ == self@.tasks[k],
            decreases self.tasks.len() - i,
        {
            all.push(&self.tasks[i]);
            i = i + 1;
        }
        all
    }

    /// Puts a task read from a file into the list: it takes the place of
    /// the task with its identifier if there is one, and its place in the
    /// order otherwise. The next identifier moves past it.
    pub fn put(&mut self, task: Task)
        requires
            old(self)@.wf(),
            task.id < u32::MAX,
        ensures
            final(self)@ == old(self)@.put(task@),
            final(self)@.wf(),
    {
        let place = self.find(task.id);
        proof {
            lemma_operations_preserve_wf(old(self)@, task@, 0);
        }
        if task.id >= self.next_id {
            self.next_id = task.id + 1;
        }
        if place < self.tasks.len() && self.tasks[place].id == task.id {
            self.tasks.set(place, task);
        } else {
            self.tasks.insert(place, task);
        }
        assert(self@.tasks =~= old(self)@.put(task@).tasks);
    }

    /// Reads the list from the lines of a task file. Lines that do not read
    /// as a task are passed over; of two tasks with one identifier the later
    /// stays. `None` is returned where a task has the largest identifier
    /// there is.
    pub fn load_from_lines(lines: &Vec<String>) -> (list: Option<TaskRepository>)
        ensures
            exists|readings: Seq<Option<TaskView>>|
                {
                    &&& readings.len() == lines@.len()
                    &&& forall|i: int| 0 <= i < readings.len() ==> line_reads_as(lines@[i]@, #[trigger] readings[i])
                    &&& view_of_list(list) == loaded(readings)
                },
            list is Some ==> list->0@.wf(),
    {
        let mut list = TaskRepository::new();
        let mut in_range = true;
        let ghost mut readings: Seq<Option<TaskView>> = Seq::empty();
        let mut i: usize = 0;
        while i < lines.len()
            invariant
                i <= lines.len(),
                readings.len() == i,
                forall|k: int| 0 <= k < i ==> line_reads_as(lines@[k]@, #[trigger] readings[k]),
                list@.wf(),
                in_range ==> loaded(readings) == Some(list@),
                !in_range ==> loaded(readings) is None,
            decreases lines.len() - i,
        {
            let reading = Task::from_md_line(lines[i].as_str());
            proof {
                let ghost before = readings;
                readings = readings.push(view_of(reading));
                assert(readings.drop_last() =~= before);
            }
            match reading {
                Some(task) => {
                    if in_range {
                        if task.id == u32::MAX {
                            in_range = false;
                        } else {
                            list.put(task);
                        }
                    }
                },
                None => {},
            }
            i = i + 1;
        }
        if in_range {
            Some(list)
        } else {
            None
        }
    }

    /// The text of the task file for this list: for each task, in ascending
    /// order of the identifiers, its line followed by an empty line.
    pub fn to_file_text(&self) -> (text: String)
        ensures
            text@ == file_text(self@.tasks),
    {
        let mut text = String::new();
        let mut i: usize = 0;
        assert(self@.tasks.take(0) =~= Seq::empty());
        while i < self.tasks.len()
            invariant
                i <= self.tasks.len(),
                text@ == file_text(self@.tasks.take(i as int)),
            decreases self.tasks.len() - i,
        {
            let line = self.tasks[i].to_md_line();
            proof {
                assert(self@.tasks.take(i + 1).drop_last() =~= self@.tasks.take(i as int));
                assert(self@.tasks.take(i + 1).last() == self@.tasks[i as int]);
            }
            text.append(line.as_str());
            text.append("\n");
            i = i + 1;
        }
        assert(self@.tasks.take(i as int) =~= self@.tasks);
        text
    }
}

} // verus!
