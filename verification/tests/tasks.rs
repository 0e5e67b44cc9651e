use taiga::repository::TaskRepository;
use taiga::task::{ScheduledDate, Task};
use taiga::text::parse_u32;

fn date(year: i32, month: u32, day: u32) -> ScheduledDate {
    ScheduledDate { year, month, day }
}

fn task(id: u32, title: &str, is_complete: bool, scheduled: Option<ScheduledDate>) -> Task {
    Task { id, title: title.to_string(), is_complete, scheduled }
}

fn lines(text: &[&str]) -> Vec<String> {
    text.iter().map(|line| line.to_string()).collect()
}

#[test]
fn new_task_is_open_and_unscheduled() {
    assert_eq!(Task::new("Buy milk".to_string()), task(0, "Buy milk", false, None));
}

#[test]
fn scheduled_sets_and_clears_the_date() {
    let planned = Task::new("Buy milk".to_string()).scheduled(Some(date(2024, 5, 17)));
    assert_eq!(planned, task(0, "Buy milk", false, Some(date(2024, 5, 17))));
    assert_eq!(planned.scheduled(None), task(0, "Buy milk", false, None));
}

#[test]
fn md_line_of_an_open_unscheduled_task() {
    assert_eq!(task(0, "Buy milk", false, None).to_md_line(), "[ID:0] - [ ] Buy milk\n");
    assert_eq!(task(4294967295, "", false, None).to_md_line(), "[ID:4294967295] - [ ] \n");
}

#[test]
fn md_line_of_a_complete_scheduled_task() {
    assert_eq!(
        task(12, "Write report", true, Some(date(2024, 5, 17))).to_md_line(),
        "[ID:12] - [x] Write report (Scheduled: 2024-05-17)\n"
    );
    assert_eq!(
        task(3, "Old", false, Some(date(987, 1, 2))).to_md_line(),
        "[ID:3] - [ ] Old (Scheduled: 0987-01-02)\n"
    );
}

#[test]
fn md_line_leaves_out_a_date_that_does_not_exist() {
    assert_eq!(task(3, "Odd", false, Some(date(2023, 2, 29))).to_md_line(), "[ID:3] - [ ] Odd\n");
    assert_eq!(task(3, "Odd", false, Some(date(2024, 13, 1))).to_md_line(), "[ID:3] - [ ] Odd\n");
}

#[test]
fn md_line_with_a_given_date_text() {
    let t = task(7, "T", true, None);
    assert_eq!(t.md_line_with(Some("someday")), "[ID:7] - [x] T (Scheduled: someday)\n");
    assert_eq!(t.md_line_with(None), "[ID:7] - [x] T\n");
}

#[test]
fn from_md_line_reads_what_to_md_line_wrote() {
    for written in [
        task(1, "Buy milk", false, None),
        task(12, "Write report", true, Some(date(2024, 5, 17))),
        task(4294967294, "Caf\u{e9} (with friends)", true, Some(date(1999, 12, 31))),
        task(0, "", false, None),
    ] {
        let line = written.to_md_line();
        assert_eq!(Task::from_md_line(line.trim_end_matches('\n')), Some(written));
    }
}

#[test]
fn from_md_line_marks() {
    assert_eq!(Task::from_md_line("[ID:5] - [x] done"), Some(task(5, "done", true, None)));
    assert_eq!(Task::from_md_line("[ID:5] - [ ] open"), Some(task(5, "open", false, None)));
    assert_eq!(Task::from_md_line("[ID:5] - [X] other mark"), Some(task(5, "other mark", false, None)));
    assert_eq!(Task::from_md_line("[ID:5] - [] no mark"), None);
    assert_eq!(Task::from_md_line("[ID:5] - [xx] two marks"), None);
}

#[test]
fn from_md_line_refuses_what_is_no_task_line() {
    assert_eq!(Task::from_md_line(""), None);
    assert_eq!(Task::from_md_line("   "), None);
    assert_eq!(Task::from_md_line("# Tasks"), None);
    assert_eq!(Task::from_md_line(" [ID:5] - [ ] leading space"), None);
    assert_eq!(Task::from_md_line("[ID:] - [ ] no id"), None);
    assert_eq!(Task::from_md_line("[ID:-1] - [ ] negative"), None);
    assert_eq!(Task::from_md_line("[ID:5] - [ ]"), None);
    assert_eq!(Task::from_md_line("[ID:5] - [ ] two\nlines"), None);
}

#[test]
fn from_md_line_identifier_range() {
    assert_eq!(Task::from_md_line("[ID:4294967295] - [ ] max"), Some(task(4294967295, "max", false, None)));
    assert_eq!(Task::from_md_line("[ID:4294967296] - [ ] too large"), None);
    assert_eq!(Task::from_md_line("[ID:007] - [ ] zeros"), Some(task(7, "zeros", false, None)));
    assert_eq!(Task::from_md_line("[ID:\u{0663}] - [ ] arabic-indic digit"), None);
}

#[test]
fn from_md_line_dates() {
    assert_eq!(
        Task::from_md_line("[ID:1] - [ ] a (Scheduled: 2024-02-29)"),
        Some(task(1, "a", false, Some(date(2024, 2, 29))))
    );
    assert_eq!(Task::from_md_line("[ID:1] - [ ] a (Scheduled: 2023-02-29)"), Some(task(1, "a", false, None)));
    assert_eq!(Task::from_md_line("[ID:1] - [ ] a (Scheduled: soon)"), Some(task(1, "a", false, None)));
    assert_eq!(
        Task::from_md_line("[ID:1] - [ ] a (Scheduled: 2024-01-02) (Scheduled: 2024-03-04)"),
        Some(task(1, "a", false, None))
    );
    assert_eq!(
        Task::from_md_line("[ID:1] - [ ] a (Scheduled: 2024-01-02) b"),
        Some(task(1, "a (Scheduled: 2024-01-02) b", false, None))
    );
}

#[test]
fn from_parts_and_captures() {
    assert_eq!(Task::from_parts("41", "x", "t", None), Some(task(41, "t", true, None)));
    assert_eq!(Task::from_parts("41", " ", "t", Some(date(2024, 1, 2))), Some(task(41, "t", false, Some(date(2024, 1, 2)))));
    assert_eq!(Task::from_parts("4x", "x", "t", None), None);
    let groups = vec![
        Some("[ID:9] - [x] t".to_string()),
        Some("9".to_string()),
        Some("x".to_string()),
        Some("t".to_string()),
        None,
    ];
    assert_eq!(Task::from_captures(&groups, None), Some(task(9, "t", true, None)));
    assert_eq!(Task::from_captures(&groups[..4].to_vec(), None), None);
    let missing = vec![Some("w".to_string()), None, Some("x".to_string()), Some("t".to_string()), None];
    assert_eq!(Task::from_captures(&missing, None), None);
}

#[test]
fn parse_u32_numerals() {
    assert_eq!(parse_u32("0"), Some(0));
    assert_eq!(parse_u32("42"), Some(42));
    assert_eq!(parse_u32("0000000000042"), Some(42));
    assert_eq!(parse_u32("4294967295"), Some(u32::MAX));
    assert_eq!(parse_u32("4294967296"), None);
    assert_eq!(parse_u32("99999999999999999999999999"), None);
    assert_eq!(parse_u32(""), None);
    assert_eq!(parse_u32("+1"), None);
    assert_eq!(parse_u32("1 "), None);
    assert_eq!(parse_u32("1a"), None);
    assert_eq!(parse_u32("\u{0661}"), None);
}

#[test]
fn new_repository_is_empty() {
    let list = TaskRepository::new();
    assert_eq!(list.len(), 0);
    assert_eq!(list.next_id(), 1);
    assert!(list.list_all().is_empty());
    assert_eq!(list.get(1), None);
    assert_eq!(list.to_file_text(), "");
}

#[test]
fn add_numbers_tasks_from_one() {
    let mut list = TaskRepository::new();
    list.add("a".to_string(), None);
    list.add("b".to_string(), Some(date(2024, 5, 17)));
    assert_eq!(list.next_id(), 3);
    assert_eq!(list.len(), 2);
    assert_eq!(list.get(1), Some(&task(1, "a", false, None)));
    assert_eq!(list.get(2), Some(&task(2, "b", false, Some(date(2024, 5, 17)))));
    assert_eq!(list.get(3), None);
    assert_eq!(list.get(0), None);
}

#[test]
fn remove_takes_the_task_out() {
    let mut list = TaskRepository::new();
    list.add("a".to_string(), None);
    list.add("b".to_string(), None);
    list.add("c".to_string(), None);
    assert_eq!(list.remove(2), Some(task(2, "b", false, None)));
    assert_eq!(list.remove(2), None);
    assert_eq!(list.remove(9), None);
    assert_eq!(list.list_all(), vec![&task(1, "a", false, None), &task(3, "c", false, None)]);
    assert_eq!(list.next_id(), 4);
    list.add("d".to_string(), None);
    assert_eq!(list.get(4), Some(&task(4, "d", false, None)));
}

#[test]
fn get_mut_changes_the_task_in_place() {
    let mut list = TaskRepository::new();
    list.add("a".to_string(), None);
    list.add("b".to_string(), None);
    assert!(list.get_mut(7).is_none());
    let found = list.get_mut(2).unwrap();
    found.is_complete = true;
    assert_eq!(list.list_all(), vec![&task(1, "a", false, None), &task(2, "b", true, None)]);
}

#[test]
fn put_keeps_the_order_and_moves_the_next_identifier() {
    let mut list = TaskRepository::new();
    list.put(task(5, "five", false, None));
    list.put(task(2, "two", true, None));
    list.put(task(9, "nine", false, None));
    list.put(task(5, "five again", true, None));
    list.put(task(0, "zero", false, None));
    assert_eq!(
        list.list_all(),
        vec![
            &task(0, "zero", false, None),
            &task(2, "two", true, None),
            &task(5, "five again", true, None),
            &task(9, "nine", false, None),
        ]
    );
    assert_eq!(list.next_id(), 10);
}

#[test]
fn load_from_lines_reads_tasks_and_passes_over_the_rest() {
    let list = TaskRepository::load_from_lines(&lines(&[
        "# My tasks",
        "[ID:3] - [x] Write report (Scheduled: 2024-05-17)",
        "",
        "   ",
        "[ID:1] - [ ] Buy milk",
        "not a task",
        "[ID:3] - [ ] Write report again",
    ]))
    .unwrap();
    assert_eq!(list.list_all(), vec![&task(1, "Buy milk", false, None), &task(3, "Write report again", false, None)]);
    assert_eq!(list.next_id(), 4);
}

#[test]
fn load_from_no_lines_is_the_empty_list() {
    assert_eq!(TaskRepository::load_from_lines(&Vec::new()), Some(TaskRepository::new()));
}

#[test]
fn load_refuses_the_largest_identifier() {
    assert_eq!(TaskRepository::load_from_lines(&lines(&["[ID:1] - [ ] a", "[ID:4294967295] - [ ] b", "[ID:2] - [ ] c"])), None);
    let list = TaskRepository::load_from_lines(&lines(&["[ID:4294967294] - [ ] b"])).unwrap();
    assert_eq!(list.next_id(), 4294967295);
}

#[test]
fn file_text_holds_each_line_and_an_empty_one() {
    let mut list = TaskRepository::new();
    list.add("a".to_string(), None);
    list.add("b".to_string(), Some(date(2024, 5, 17)));
    list.get_mut(2).unwrap().is_complete = true;
    assert_eq!(list.to_file_text(), "[ID:1] - [ ] a\n\n[ID:2] - [x] b (Scheduled: 2024-05-17)\n\n");
}

#[test]
fn file_text_loads_back() {
    let mut list = TaskRepository::new();
    list.add("a".to_string(), None);
    list.add("b".to_string(), Some(date(2024, 5, 17)));
    list.remove(1);
    let text = list.to_file_text();
    let read = TaskRepository::load_from_lines(&text.lines().map(|line| line.to_string()).collect()).unwrap();
    assert_eq!(read.list_all(), list.list_all());
    assert_eq!(read.next_id(), 3);
}
