//! Tasks and their one-line text form, as kept in the task file.

use crate::text::{decimal, parse_decimal_u32, parse_u32, push_decimal};
use std::fmt::Write;
use vstd::prelude::*;
use vstd::string::{StrSliceExecFns, StringExecFns};

verus! {

/// A calendar date in the user's local time.
#[derive(Clone, Copy, Debug, PartialEq, Eq, Structural)]
pub struct ScheduledDate {
    pub year: i32,
    pub month: u32,
    pub day: u32,
}

/// One entry of the task list.
#[derive(Debug, PartialEq, Eq)]
pub struct Task {
    pub id: u32,
    pub title: String,
    pub is_complete: bool,
    pub scheduled: Option<ScheduledDate>,
}

/// Mathematical content of a [`Task`].
pub struct TaskView {
    pub id: u32,
    pub title: Seq<char>,
    pub is_complete: bool,
    pub scheduled: Option<ScheduledDate>,
}

impl View for Task {
    type V = TaskView;

    open spec fn view(&self) -> TaskView {
        TaskView { id: self.id, title: self.title@, is_complete: self.is_complete, scheduled: self.scheduled }
    }
}

/// The view of a task that may be absent.
pub open spec fn view_of(task: Option<Task>) -> Option<TaskView> {
    match task {
        Some(task) => Some(task@),
        None => None,
    }
}

/// The format in which a date is written in a task line: year, month and
/// day, separated by hyphens.
pub open spec fn date_format() -> Seq<char> {
    "%Y-%m-%d"@
}

/// The pattern of a task line: the identifier in `[ID:..]`, a check mark in
/// brackets, the title, and at the end, optionally, the date in
/// `(Scheduled: ..)`.
pub open spec fn line_pattern() -> Seq<char> {
    "^\\[ID:(\\d+)\\] - \\[(.)\\] (.*?)(?: \\(Scheduled: (.*)\\))?$"@
}

/// What `chrono` writes for the given date under the given format; `None`
/// where there is no such date or the format cannot be written.
pub uninterp spec fn date_text(year: i32, month: u32, day: u32, format: Seq<char>) -> Option<Seq<char>>;

/// The date that `chrono` reads from `text` under the given format, as
/// year, month and day; `None` where it reads none.
pub uninterp spec fn parsed_date(text: Seq<char>, format: Seq<char>) -> Option<(i32, u32, u32)>;

/// The capture groups of the leftmost match of `pattern` in `text` as the
/// `regex` crate finds it, group 0 being the whole match, each group with
/// the text it matched or `None` where it took no part; `None` where the
/// pattern does not compile or nothing matches.
pub uninterp spec fn captures_of(pattern: Seq<char>, text: Seq<char>) -> Option<Seq<Option<Seq<char>>>>;

/// Builds the date with `chrono::NaiveDate::from_ymd_opt` and writes it
/// with `chrono::NaiveDate::format`. The result is the one that `date_text`
/// names: it depends on the arguments alone.
#[verifier::external_body]
fn format_date(year: i32, month: u32, day: u32, format: &str) -> (text: Option<String>)
    ensures
        text.deep_view() == date_text(year, month, day, format@),
{
    let date = chrono::NaiveDate::from_ymd_opt(year, month, day)?;
    let mut text = String::new();
    match write!(text, "{}", date.format(format)) {
        Ok(()) => Some(text),
        Err(_) => None,
    }
}

/// Reads a date with `chrono::NaiveDate::parse_from_str` and hands out its
/// year, month and day. The result is the one that `parsed_date` names: it
/// depends on the arguments alone.
#[verifier::external_body]
fn parse_date(text: &str, format: &str) -> (date: Option<(i32, u32, u32)>)
    ensures
        date == parsed_date(text@, format@),
{
    chrono::NaiveDate::parse_from_str(text, format).ok().map(
        |d| (chrono::Datelike::year(&d), chrono::Datelike::month(&d), chrono::Datelike::day(&d)),
    )
}

/// Asks `chrono::Local`, through `TimeZone::from_local_datetime`, whether
/// the given wall-clock time exists exactly once in the machine's time
/// zone. The answer depends on that zone, so nothing is claimed of it.
#[verifier::external_body]
fn local_time_is_single(date: ScheduledDate, hour: u32, minute: u32, second: u32) -> (single: bool) {
    chrono::NaiveDate::from_ymd_opt(date.year, date.month, date.day).and_then(
        |d| d.and_hms_opt(hour, minute, second),
    ).and_then(|dt| chrono::TimeZone::from_local_datetime(&chrono::Local, &dt).single()).is_some()
}

/// Compiles `pattern` with `regex::Regex::new` and searches `text` with
/// `Regex::captures`, handing each group out as text. The result is the one
/// that `captures_of` names: it depends on the arguments alone.
#[verifier::external_body]
fn regex_captures(pattern: &str, text: &str) -> (groups: Option<Vec<Option<String>>>)
    ensures
        groups.deep_view() == captures_of(pattern@, text@),
{
    let re = match regex::Regex::new(pattern) {
        Ok(re) => re,
        Err(_) => return None,
    };
    re.captures(text).map(|caps| caps.iter().map(|m| m.map(|m| m.as_str().to_string())).collect())
}

/// The line that stands for `task` in the task file, given the text of its
/// date if it has one to show. The line ends with a line feed.
pub open spec fn md_line(task: TaskView, date: Option<Seq<char>>) -> Seq<char> {
    let head = "[ID:"@ + decimal(task.id as nat) + "] - ["@ + (if task.is_complete {
        "x"@
    } else {
        " "@
    }) + "] "@ + task.title;
    match date {
        Some(text) => head + " (Scheduled: "@ + text + ")\n"@,
        None => head + "\n"@,
    }
}

/// The text of the date for which `task` is scheduled, if it has one.
pub open spec fn scheduled_text(task: TaskView) -> Option<Seq<char>> {
    match task.scheduled {
        Some(date) => date_text(date.year, date.month, date.day, date_format()),
        None => None,
    }
}

/// The task that the parts of a line stand for: the identifier must be an
/// unsigned 32-bit decimal numeral, and the task is complete exactly when
/// the mark is `x`.
pub open spec fn task_from_parts(
    id_text: Seq<char>,
    mark: Seq<char>,
    title: Seq<char>,
    scheduled: Option<ScheduledDate>,
) -> Option<TaskView> {
    match parse_decimal_u32(id_text) {
        Some(id) => Some(TaskView { id, title, is_complete: mark == seq!['x'], scheduled }),
        None => None,
    }
}

/// The task that the capture groups of a line stand for. Groups 1, 2 and 3
/// hold identifier, mark and title and must all be there.
pub open spec fn task_from_captures(groups: Seq<Option<Seq<char>>>, scheduled: Option<ScheduledDate>) -> Option<
    TaskView,
> {
    if groups.len() < 5 {
        None
    } else {
        match (groups[1], groups[2], groups[3]) {
            (Some(id_text), Some(mark), Some(title)) => task_from_parts(id_text, mark, title, scheduled),
            _ => None,
        }
    }
}

/// The date that the capture groups of a line hold in group 4, if that
/// group is there and reads as a date.
pub open spec fn captured_date(groups: Seq<Option<Seq<char>>>) -> Option<ScheduledDate> {
    if groups.len() < 5 {
        None
    } else {
        match groups[4] {
            Some(text) => match parsed_date(text, date_format()) {
                Some((year, month, day)) => Some(ScheduledDate { year, month, day }),
                None => None,
            },
            None => None,
        }
    }
}

/// Whether `task` is a reading of `line`. A line that does not match the
/// pattern reads as no task. One that matches reads as the task of its
/// groups, scheduled for the date it holds or, where the machine's time
/// zone has no single midnight on that date, not scheduled.
pub open spec fn line_reads_as(line: Seq<char>, task: Option<TaskView>) -> bool {
    match captures_of(line_pattern(), line) {
        None => task is None,
        Some(groups) => task == task_from_captures(groups, captured_date(groups)) || task == task_from_captures(
            groups,
            None,
        ),
    }
}

impl Task {
    /// A fresh task: identifier 0, open, not scheduled.
    pub fn new(title: String) -> (task: Task)
        ensures
            task@ == (TaskView { id: 0, title: title@, is_complete: false, scheduled: None }),
    {
        Task { id: 0, title, is_complete: false, scheduled: None }
    }

    /// The same task, scheduled for `date` or for no date.
    pub fn scheduled(self, date: Option<ScheduledDate>) -> (task: Task)
        ensures
            task@ == (TaskView { scheduled: date, ..self@ }),
    {
        Task { id: self.id, title: self.title, is_complete: self.is_complete, scheduled: date }
    }

    /// Writes the task's line with the given text for its date.
    pub fn md_line_with(&self, date: Option<&str>) -> (line: String)
        ensures
            line@ == md_line(
                self@,
                match date {
                    Some(text) => Some(text@),
                    None => None,
                },
            ),
    {
        let mut line = String::from_str("[ID:");
        push_decimal(&mut line, self.id as u64);
        line.append("] - [");
        if self.is_complete {
            line.append("x");
        } else {
            line.append(" ");
        }
        line.append("] ");
        line.append(self.title.as_str());
        match date {
            Some(text) => {
                line.append(" (Scheduled: ");
                line.append(text);
                line.append(")\n");
            },
            None => {
                line.append("\n");
            },
        }
        line
    }

    /// Writes the task's line: identifier, check mark, title and, for a
    /// scheduled task, the date.
    pub fn to_md_line(&self) -> (line: String)
        ensures
            line@ == md_line(self@, scheduled_text(self@)),
    {
        let date = match self.scheduled {
            Some(date) => format_date(date.year, date.month, date.day, "%Y-%m-%d"),
            None => None,
        };
        match &date {
            Some(text) => self.md_line_with(Some(text.as_str())),
            None => self.md_line_with(None),
        }
    }

    /// Builds the task that the parts of a line stand for.
    pub fn from_parts(id_text: &str, mark: &str, title: &str, scheduled: Option<ScheduledDate>) -> (task: Option<
        Task,
    >)
        ensures
            view_of(task) == task_from_parts(id_text@, mark@, title@, scheduled),
    {
        match parse_u32(id_text) {
            Some(id) => {
                let is_complete = mark.unicode_len() == 1 && mark.get_char(0) == 'x';
                assert(is_complete == (mark@ =~= seq!['x']));
                Some(Task { id, title: String::from_str(title), is_complete, scheduled })
            },
            None => None,
        }
    }

    /// Builds the task that the capture groups of a line stand for.
    pub fn from_captures(groups: &Vec<Option<String>>, scheduled: Option<ScheduledDate>) -> (task: Option<Task>)
        ensures
            view_of(task) == task_from_captures(groups.deep_view(), scheduled),
    {
        if groups.len() < 5 {
            return None;
        }
        match (&groups[1], &groups[2], &groups[3]) {
            (Some(id_text), Some(mark), Some(title)) => Task::from_parts(
                id_text.as_str(),
                mark.as_str(),
                title.as_str(),
                scheduled,
            ),
            _ => None,
        }
    }

    /// Reads a task from its line. A line that does not match the pattern,
    /// or whose identifier does not fit in 32 bits, gives no task. The date
    /// is kept where it reads as one and the machine's time zone has a single
    /// midnight on it.
    pub fn from_md_line(line: &str) -> (task: Option<Task>)
        ensures
            line_reads_as(line@, view_of(task)),
    {
        let groups = match regex_captures("^\\[ID:(\\d+)\\] - \\[(.)\\] (.*?)(?: \\(Scheduled: (.*)\\))?$", line) {
            Some(groups) => groups,
            None => {
                return None;
            },
        };
        let scheduled = if groups.len() < 5 {
            None
        } else {
            match &groups[4] {
                Some(text) => match parse_date(text.as_str(), "%Y-%m-%d") {
                    Some((year, month, day)) => {
                        let date = ScheduledDate { year, month, day };
                        if local_time_is_single(date, 0, 0, 0) {
                            Some(date)
                        } else {
                            None
                        }
                    },
                    None => None,
                },
                None => None,
            }
        };
        Task::from_captures(&groups, scheduled)
    }
}

} // verus!
