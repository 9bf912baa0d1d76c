//! The records of the task manager, as plain values.

use crate::date::Date;
use vstd::prelude::*;

verus! {

/// Where a to-do or a project stands.
#[derive(Clone, Copy, Debug, PartialEq, Eq, Structural)]
pub enum Status {
    Open,
    Completed,
    Canceled,
}

/// The name of a status, as the task manager writes it.
pub open spec fn status_text(status: Status) -> Seq<char> {
    match status {
        Status::Open => "open"@,
        Status::Completed => "completed"@,
        Status::Canceled => "canceled"@,
    }
}

impl Status {
    /// The name of this status, as the task manager writes it.
    pub fn as_str(&self) -> (r: &'static str)
        ensures
            r@ == status_text(*self),
    {
        match self {
            Status::Open => "open",
            Status::Completed => "completed",
            Status::Canceled => "canceled",
        }
    }
}

/// One line of a to-do's checklist.
#[derive(Clone, Debug, PartialEq, Eq)]
pub struct ChecklistItem {
    pub name: String,
    pub completed: bool,
}

/// A to-do.
#[derive(Clone, Debug, PartialEq, Eq)]
pub struct Todo {
    pub id: String,
    pub name: String,
    pub notes: String,
    pub status: Status,
    pub due_date: Option<Date>,
    pub tags: Vec<String>,
    pub project: Option<String>,
    pub area: Option<String>,
    pub checklist_items: Vec<ChecklistItem>,
    /// When the to-do was created, as an ISO 8601 timestamp.
    pub creation_date: Option<String>,
    /// When the to-do was last changed, as an ISO 8601 timestamp.
    pub modification_date: Option<String>,
}

/// What a filter can see of a to-do.
pub struct RecordView {
    pub name: Seq<char>,
    pub notes: Seq<char>,
    pub status: Status,
    pub due_date: Option<Date>,
    pub tags: Seq<Seq<char>>,
    pub project: Option<Seq<char>>,
    pub area: Option<Seq<char>>,
}

/// The text of an optional string.
pub open spec fn optional_text(s: Option<String>) -> Option<Seq<char>> {
    match s {
        Some(text) => Some(text@),
        None => None,
    }
}

/// The texts of a list of strings.
pub open spec fn texts(items: Seq<String>) -> Seq<Seq<char>> {
    Seq::new(items.len(), |i: int| items[i]@)
}

impl Todo {
    /// What a filter can see of this to-do.
    pub open spec fn record(self) -> RecordView {
        RecordView {
            name: self.name@,
            notes: self.notes@,
            status: self.status,
            due_date: self.due_date,
            tags: texts(self.tags@),
            project: optional_text(self.project),
            area: optional_text(self.area),
        }
    }

    /// An open to-do with the given identifier and name, and nothing else.
    pub fn new(id: &str, name: &str) -> (r: Todo)
        ensures
            r.id@ == id@,
            r.name@ == name@,
            r.notes@ == Seq::<char>::empty(),
            r.status == Status::Open,
            r.due_date is None,
            r.tags@.len() == 0,
            r.project is None,
            r.area is None,
            r.checklist_items@.len() == 0,
            r.creation_date is None,
            r.modification_date is None,
    {
        Todo {
            id: id.to_owned(),
            name: name.to_owned(),
            notes: String::new(),
            status: Status::Open,
            due_date: None,
            tags: Vec::new(),
            project: None,
            area: None,
            checklist_items: Vec::new(),
            creation_date: None,
            modification_date: None,
        }
    }
}

/// A project.
#[derive(Clone, Debug, PartialEq, Eq)]
pub struct Project {
    pub id: String,
    pub name: String,
    pub notes: String,
    pub status: Status,
    pub area: Option<String>,
    pub tags: Vec<String>,
    pub due_date: Option<Date>,
    /// When the project was created, as an ISO 8601 timestamp.
    pub creation_date: Option<String>,
}

/// An area of responsibility.
#[derive(Clone, Debug, PartialEq, Eq)]
pub struct Area {
    pub id: String,
    pub name: String,
    pub tags: Vec<String>,
}

/// A tag.
#[derive(Clone, Debug, PartialEq, Eq)]
pub struct Tag {
    pub id: String,
    pub name: String,
}

/// What the application answers when it has created an item.
#[derive(Clone, Debug, PartialEq, Eq)]
pub struct CreateResponse {
    pub id: String,
    pub name: String,
}

/// One item of a batch that could not be changed, and why.
#[derive(Clone, Debug, PartialEq, Eq)]
pub struct BatchError {
    pub id: String,
    pub error: String,
}

/// How a change to many items went.
#[derive(Clone, Debug, PartialEq, Eq)]
pub struct BatchResult {
    pub succeeded: usize,
    pub failed: usize,
    pub errors: Vec<BatchError>,
}

impl Default for BatchResult {
    /// The result of a batch without items: nothing succeeded, nothing failed.
    fn default() -> (r: BatchResult)
        ensures
            r.succeeded == 0,
            r.failed == 0,
            r.errors@.len() == 0,
    {
        BatchResult { succeeded: 0, failed: 0, errors: Vec::new() }
    }
}

/// The to-dos of every built-in list.
#[derive(Clone, Debug, PartialEq, Eq)]
pub struct AllListsResult {
    pub inbox: Vec<Todo>,
    pub today: Vec<Todo>,
    pub upcoming: Vec<Todo>,
    pub anytime: Vec<Todo>,
    pub someday: Vec<Todo>,
    pub logbook: Vec<Todo>,
}

/// The to-dos of the built-in lists that hold open items.
#[derive(Clone, Debug, PartialEq, Eq)]
pub struct OpenListsResult {
    pub inbox: Vec<Todo>,
    pub today: Vec<Todo>,
    pub upcoming: Vec<Todo>,
    pub anytime: Vec<Todo>,
    pub someday: Vec<Todo>,
}

/// The built-in lists of the application.
#[derive(Clone, Copy, Debug, PartialEq, Eq, Structural)]
pub enum ListView {
    Inbox,
    Today,
    Upcoming,
    Anytime,
    Someday,
    Logbook,
    Trash,
}

/// The name under which the application knows a built-in list.
pub open spec fn list_name(view: ListView) -> Seq<char> {
    match view {
        ListView::Inbox => "Inbox"@,
        ListView::Today => "Today"@,
        ListView::Upcoming => "Upcoming"@,
        ListView::Anytime => "Anytime"@,
        ListView::Someday => "Someday"@,
        ListView::Logbook => "Logbook"@,
        ListView::Trash => "Trash"@,
    }
}

impl ListView {
    /// The name under which the application knows this list.
    pub fn as_str(&self) -> (r: &'static str)
        ensures
            r@ == list_name(*self),
    {
        match self {
            ListView::Inbox => "Inbox",
            ListView::Today => "Today",
            ListView::Upcoming => "Upcoming",
            ListView::Anytime => "Anytime",
            ListView::Someday => "Someday",
            ListView::Logbook => "Logbook",
            ListView::Trash => "Trash",
        }
    }
}

} // verus!
