//! The client of the task manager.
//!
//! The client does not talk to the application itself. For every request it
//! says which script the scripting bridge has to run, or gives the answer
//! where none has to run; and it says what the output of a run means.

use crate::error::{ClingsError, classify_stderr};
use crate::text::{lowercase, text_eq, trimmed, upper, uppercase_of};
use crate::things::javascript::{join, joined, json_quoted, json_text, quote_plainly};
use crate::things::jxa::{
    ADD_HEADING_AFTER_ID,
    ADD_HEADING_HEAD,
    ADD_HEADING_TAIL,
    ADD_HEADING_TODO_AFTER_HEADING,
    ADD_HEADING_TODO_AFTER_ID,
    ADD_HEADING_TODO_HEAD,
    ADD_HEADING_TODO_TAIL,
    ADD_PROJECT_HEAD,
    ADD_PROJECT_MAKE,
    ADD_PROJECT_TAIL,
    ADD_PROJECT_TODO_AFTER_ID,
    ADD_PROJECT_TODO_HEAD,
    ADD_PROJECT_TODO_TAIL,
    ADD_TAGS_AFTER_ID,
    ADD_TAGS_HEAD,
    ADD_TAGS_OR_ELSE,
    ADD_TAGS_TAIL,
    ADD_TODO_HEAD,
    ADD_TODO_MAKE,
    ADD_TODO_TAIL,
    AFTER_NAME,
    ALL_AREAS,
    ALL_LISTS,
    ALL_PROJECTS,
    ALL_TAGS,
    ALL_TODOS,
    BREAK,
    CANCEL_BATCH_HEAD,
    CANCEL_BATCH_TAIL,
    CANCEL_TODO_HEAD,
    CANCEL_TODO_TAIL,
    CHECKLIST_HEAD,
    CHECKLIST_TAIL,
    CLEAR_DUE_BATCH_HEAD,
    CLEAR_DUE_BATCH_TAIL,
    CLEAR_DUE_HEAD,
    CLEAR_DUE_TAIL,
    COMPLETE_BATCH_HEAD,
    COMPLETE_BATCH_TAIL,
    COMPLETE_TODO_HEAD,
    COMPLETE_TODO_TAIL,
    DUE_BATCH_AFTER_IDS,
    DUE_BATCH_HEAD,
    DUE_BATCH_TAIL,
    LIST_TODOS_HEAD,
    LIST_TODOS_TAIL,
    MOVE_BATCH_AFTER_IDS,
    MOVE_BATCH_HEAD,
    MOVE_BATCH_TAIL,
    MOVE_TODO_AFTER_ID,
    MOVE_TODO_HEAD,
    MOVE_TODO_OR_PROJECT,
    MOVE_TODO_TAIL,
    MOVE_TO_LIST_HEAD,
    MOVE_TO_LIST_MID,
    MOVE_TO_LIST_TAIL,
    OPEN_ITEM_HEAD,
    OPEN_ITEM_MID,
    OPEN_ITEM_TAIL,
    OPEN_LISTS,
    OPEN_LIST_HEAD,
    OPEN_LIST_TAIL,
    PROJECT_AREA_HEAD,
    PROJECT_AREA_TAIL,
    PROJECT_BY_NAME_HEAD,
    PROJECT_BY_NAME_TAIL,
    PROJECT_HEADINGS_HEAD,
    PROJECT_HEADINGS_TAIL,
    PROJECT_TODOS_HEAD,
    PROJECT_TODOS_TAIL,
    SCHEDULE_HEAD,
    SCHEDULE_TAIL,
    SEARCH_HEAD,
    SEARCH_TAIL,
    SET_DUE_AFTER_ID,
    SET_DUE_HEAD,
    SET_DUE_TAIL,
    SHOW_TODO_HEAD,
    SHOW_TODO_TAIL,
    TAG_BATCH_AFTER_IDS,
    TAG_BATCH_HEAD,
    TAG_BATCH_TAIL,
    TODO_AREA_HEAD,
    TODO_AREA_TAIL,
    TO_SOMEDAY_HEAD,
    TO_SOMEDAY_TAIL,
    UPDATE_TODO_AFTER_ID,
    UPDATE_TODO_HEAD,
    UPDATE_TODO_TAIL,
};
use crate::things::template::{fill1, fill2, fill3, line_for, optional_line, slice_text};
use crate::things::types::{
    Area,
    BatchResult,
    ListView,
    Project,
    Tag,
    Todo,
    list_name,
    optional_text,
    texts,
};
use vstd::prelude::*;
use vstd::string::*;

verus! {

/// A to-do to be created in a project: title, notes, due date and tags.
pub type TodoTuple = (String, Option<String>, Option<String>, Vec<String>);

/// A heading to be created in a project: its name and its to-dos.
pub type HeadingTuple = (String, Vec<TodoTuple>);

/// The client of the task manager.
#[derive(Clone, Copy, Debug)]
pub struct ThingsClient;

/// What the client knows of a value that it was asked for: the value, or
/// the script that has to run to get it.
#[derive(Debug, PartialEq, Eq)]
pub enum Lookup<T> {
    Found(T),
    Ask(String),
}

/// What one run of the scripting bridge gave.
#[derive(Clone, Debug, PartialEq, Eq)]
pub struct BridgeOutput {
    /// Whether the bridge ended with success.
    pub success: bool,
    pub stdout: String,
    pub stderr: String,
}

/// The JavaScript array literal of the texts `items`.
pub open spec fn js_array(items: Seq<Seq<char>>) -> Seq<char> {
    seq!['['] + joined(Seq::new(items.len(), |i: int| json_quoted(items[i])), ", "@) + seq![']']
}

/// The text without its first character.
pub open spec fn rest_of(s: Seq<char>) -> Seq<char> {
    if s.len() == 0 {
        s
    } else {
        s.subrange(1, s.len() as int)
    }
}

/// The text with its first character in upper case.
pub open spec fn capitalized(s: Seq<char>) -> Seq<char> {
    if s.len() == 0 {
        s
    } else {
        uppercase_of(s[0]) + rest_of(s)
    }
}

/// `first` followed by `s` without its first character.
pub fn with_first(first: &str, s: &str) -> (r: String)
    ensures
        r@ == first@ + rest_of(s@),
{
    let n = s.unicode_len();
    let mut out = first.to_owned();
    if n > 0 {
        out.append(s.substring_char(1, n));
    }
    assert(out@ =~= first@ + rest_of(s@));
    out
}

/// `s` with its first character in upper case.
pub fn capitalize(s: &str) -> (r: String)
    ensures
        r@ == capitalized(s@),
{
    if s.unicode_len() == 0 {
        let r = String::new();
        assert(r@ =~= s@);
        return r;
    }
    let first = upper(s.get_char(0));
    with_first(first.as_str(), s)
}

/// Whether `lowered` is the name of a list that the application can show.
pub open spec fn is_list_word(lowered: Seq<char>) -> bool {
    lowered == "inbox"@ || lowered == "today"@ || lowered == "upcoming"@ || lowered == "anytime"@
        || lowered == "someday"@ || lowered == "logbook"@ || lowered == "trash"@
}

/// The script that shows `target`: as a built-in list, under the name
/// `shown`, where `lowered` names one; and else as an item by its identifier.
pub open spec fn open_script(lowered: Seq<char>, shown: Seq<char>, target: Seq<char>) -> Seq<
    char,
> {
    if is_list_word(lowered) {
        OPEN_LIST_HEAD@ + shown + OPEN_LIST_TAIL@
    } else {
        OPEN_ITEM_HEAD@ + target + OPEN_ITEM_MID@ + target + OPEN_ITEM_TAIL@
    }
}

/// The script that shows `target`, given its lower-case form `lowered` and
/// its capitalized form `shown`.
pub fn open_script_for(lowered: &str, shown: &str, target: &str) -> (r: String)
    ensures
        r@ == open_script(lowered@, shown@, target@),
{
    if text_eq(lowered, "inbox") || text_eq(lowered, "today") || text_eq(lowered, "upcoming")
        || text_eq(lowered, "anytime") || text_eq(lowered, "someday") || text_eq(
        lowered,
        "logbook",
    ) || text_eq(lowered, "trash") {
        fill1(OPEN_LIST_HEAD, shown, OPEN_LIST_TAIL)
    } else {
        fill2(OPEN_ITEM_HEAD, target, OPEN_ITEM_MID, target, OPEN_ITEM_TAIL)
    }
}

/// What the output of a run that was to answer with JSON means: the error
/// that the bridge reported, or the JSON text, which is `[]` where the
/// bridge wrote nothing.
pub open spec fn read_output(success: bool, stdout: Seq<char>, stderr: Seq<char>) -> Result<
    Seq<char>,
    crate::error::ClingsErrorView,
> {
    if !success {
        Err(classify_stderr(stderr))
    } else {
        Ok(answer_text(trimmed(stdout)))
    }
}

/// The JSON text that the bridge answered with, given what it wrote without
/// the whitespace around it: an empty list where it wrote nothing.
pub open spec fn answer_text(kept: Seq<char>) -> Seq<char> {
    if kept.len() == 0 {
        "[]"@
    } else {
        kept
    }
}

/// The JSON text that the bridge answered with, given what it wrote without
/// the whitespace around it.
pub fn answer(kept: &str) -> (r: String)
    ensures
        r@ == answer_text(kept@),
{
    if kept.is_empty() {
        "[]".to_owned()
    } else {
        kept.to_owned()
    }
}

/// The JSON string literal of a text that may be absent.
pub open spec fn quoted(value: Option<Seq<char>>) -> Option<Seq<char>> {
    match value {
        Some(v) => Some(json_quoted(v)),
        None => None,
    }
}

/// The texts of a list of tags that may be absent.
pub open spec fn tag_texts(tags: Option<&[String]>) -> Option<Seq<Seq<char>>> {
    match tags {
        Some(t) => Some(texts(t@)),
        None => None,
    }
}

/// The tags as the application takes them: in one text, with a comma and a
/// space between each two.
pub open spec fn tag_list(tags: Option<Seq<Seq<char>>>) -> Option<Seq<char>> {
    match tags {
        Some(t) => Some(joined(t, ", "@)),
        None => None,
    }
}

/// The checklist items as JavaScript string literals, with a comma and a
/// space between each two.
pub open spec fn checklist_list(items: Option<Seq<Seq<char>>>) -> Option<Seq<char>> {
    match items {
        Some(t) => Some(joined(Seq::new(t.len(), |i: int| json_quoted(t[i])), ", "@)),
        None => None,
    }
}

/// The lines that move a to-do to the list, or else the project, `name`.
pub open spec fn move_lines(name: Option<Seq<char>>) -> Seq<char> {
    match name {
        Some(n) => MOVE_TO_LIST_HEAD@ + json_quoted(n) + MOVE_TO_LIST_MID@ + json_quoted(n)
            + MOVE_TO_LIST_TAIL@,
        None => Seq::empty(),
    }
}

/// The script that lists the to-dos of a built-in list.
pub open spec fn list_script(view: ListView) -> Seq<char> {
    LIST_TODOS_HEAD@ + list_name(view) + LIST_TODOS_TAIL@
}

/// The script that shows the to-do `id`.
pub open spec fn todo_script(id: Seq<char>) -> Seq<char> {
    SHOW_TODO_HEAD@ + id + SHOW_TODO_TAIL@
}

/// The script that creates a to-do.
pub open spec fn add_todo_script(
    title: Seq<char>,
    notes: Option<Seq<char>>,
    when_date: Option<Seq<char>>,
    deadline: Option<Seq<char>>,
    tags: Option<Seq<Seq<char>>>,
    list: Option<Seq<char>>,
    area: Option<Seq<char>>,
    checklist: Option<Seq<Seq<char>>>,
) -> Seq<char> {
    ADD_TODO_HEAD@ + json_quoted(title) + AFTER_NAME@ + optional_line(
        quoted(notes),
        "props.notes = "@,
        ";"@,
    ) + BREAK@ + optional_line(deadline, "props.dueDate = new Date('"@, "');"@) + BREAK@
        + optional_line(quoted(tag_list(tags)), "props.tagNames = "@, ";"@) + ADD_TODO_MAKE@
        + optional_line(quoted(area), TODO_AREA_HEAD@, TODO_AREA_TAIL@) + BREAK@ + optional_line(
        when_date,
        SCHEDULE_HEAD@,
        SCHEDULE_TAIL@,
    ) + BREAK@ + move_lines(list) + BREAK@ + optional_line(
        checklist_list(checklist),
        CHECKLIST_HEAD@,
        CHECKLIST_TAIL@,
    ) + ADD_TODO_TAIL@
}

/// The script that completes the to-do `id`.
pub open spec fn complete_script(id: Seq<char>) -> Seq<char> {
    COMPLETE_TODO_HEAD@ + id + COMPLETE_TODO_TAIL@
}

/// The script that cancels the to-do `id`.
pub open spec fn cancel_script(id: Seq<char>) -> Seq<char> {
    CANCEL_TODO_HEAD@ + id + CANCEL_TODO_TAIL@
}

/// The script that creates a project.
pub open spec fn add_project_script(
    title: Seq<char>,
    notes: Option<Seq<char>>,
    area: Option<Seq<char>>,
    tags: Option<Seq<Seq<char>>>,
    due_date: Option<Seq<char>>,
) -> Seq<char> {
    ADD_PROJECT_HEAD@ + json_quoted(title) + AFTER_NAME@ + optional_line(
        quoted(notes),
        "props.notes = "@,
        ";"@,
    ) + BREAK@ + optional_line(due_date, "props.dueDate = new Date('"@, "');"@) + BREAK@
        + optional_line(quoted(tag_list(tags)), "props.tagNames = "@, ";"@) + ADD_PROJECT_MAKE@
        + optional_line(quoted(area), PROJECT_AREA_HEAD@, PROJECT_AREA_TAIL@) + ADD_PROJECT_TAIL@
}

/// The script that lists the to-dos whose name or notes hold `query`.
pub open spec fn search_script(query: Seq<char>) -> Seq<char> {
    SEARCH_HEAD@ + json_quoted(query) + SEARCH_TAIL@
}

/// The script that adds `tags` to the tags of the to-do `id`.
pub open spec fn add_tags_script(id: Seq<char>, tags: Seq<char>) -> Seq<char> {
    ADD_TAGS_HEAD@ + id + ADD_TAGS_AFTER_ID@ + json_quoted(tags) + ADD_TAGS_OR_ELSE@ + json_quoted(
        tags,
    ) + ADD_TAGS_TAIL@
}

/// The script that moves the to-do `id` to the list or project `name`.
pub open spec fn move_todo_script(id: Seq<char>, name: Seq<char>) -> Seq<char> {
    MOVE_TODO_HEAD@ + id + MOVE_TODO_AFTER_ID@ + json_quoted(name) + MOVE_TODO_OR_PROJECT@
        + json_quoted(name) + MOVE_TODO_TAIL@
}

/// The script that sets the due date of the to-do `id`.
pub open spec fn set_due_script(id: Seq<char>, due_date: Seq<char>) -> Seq<char> {
    SET_DUE_HEAD@ + id + SET_DUE_AFTER_ID@ + due_date + SET_DUE_TAIL@
}

/// The script that clears the due date of the to-do `id`.
pub open spec fn clear_due_script(id: Seq<char>) -> Seq<char> {
    CLEAR_DUE_HEAD@ + id + CLEAR_DUE_TAIL@
}

/// The script that moves the to-do `id` to Someday.
pub open spec fn someday_script(id: Seq<char>) -> Seq<char> {
    TO_SOMEDAY_HEAD@ + id + TO_SOMEDAY_TAIL@
}

/// The script that changes the to-do `id`: one line for each value that is
/// given, in this order, and an empty line for each that is not.
pub open spec fn update_todo_script(
    id: Seq<char>,
    title: Option<Seq<char>>,
    notes: Option<Seq<char>>,
    when_date: Option<Seq<char>>,
    deadline: Option<Seq<char>>,
    tags: Option<Seq<char>>,
    project: Option<Seq<char>>,
    area: Option<Seq<char>>,
) -> Seq<char> {
    UPDATE_TODO_HEAD@ + id + UPDATE_TODO_AFTER_ID@ + optional_line(
        quoted(title),
        "todo.name = "@,
        ";"@,
    ) + BREAK@ + optional_line(quoted(notes), "todo.notes = "@, ";"@) + BREAK@ + optional_line(
        deadline,
        "todo.dueDate = new Date('"@,
        "');"@,
    ) + BREAK@ + optional_line(quoted(tags), "todo.tagNames = "@, ";"@) + BREAK@ + optional_line(
        when_date,
        "Things.schedule(todo, { for: new Date('"@,
        "') });"@,
    ) + BREAK@ + move_lines(project) + BREAK@ + optional_line(
        quoted(area),
        TODO_AREA_HEAD@,
        TODO_AREA_TAIL@,
    ) + UPDATE_TODO_TAIL@
}

/// The script that shows the project `name`.
pub open spec fn project_by_name_script(name: Seq<char>) -> Seq<char> {
    PROJECT_BY_NAME_HEAD@ + json_quoted(name) + PROJECT_BY_NAME_TAIL@
}

/// The script that lists the to-dos of the project `name`.
pub open spec fn project_todos_script(name: Seq<char>) -> Seq<char> {
    PROJECT_TODOS_HEAD@ + json_quoted(name) + PROJECT_TODOS_TAIL@
}

/// The script that lists the headings of the project `name`.
pub open spec fn project_headings_script(name: Seq<char>) -> Seq<char> {
    PROJECT_HEADINGS_HEAD@ + json_quoted(name) + PROJECT_HEADINGS_TAIL@
}

/// The script that adds the heading `heading` to the project `project_id`.
pub open spec fn add_heading_script(project_id: Seq<char>, heading: Seq<char>) -> Seq<char> {
    ADD_HEADING_HEAD@ + project_id + ADD_HEADING_AFTER_ID@ + json_quoted(heading)
        + ADD_HEADING_TAIL@
}

/// The lines that set the notes, the due date and the tags of a new item.
pub open spec fn property_lines(
    notes: Option<Seq<char>>,
    due_date: Option<Seq<char>>,
    tags: Option<Seq<Seq<char>>>,
) -> Seq<char> {
    optional_line(quoted(notes), "props.notes = "@, ";"@) + BREAK@ + optional_line(
        due_date,
        "props.dueDate = new Date('"@,
        "');"@,
    ) + BREAK@ + optional_line(quoted(tag_list(tags)), "props.tagNames = "@, ";"@)
}

/// The script that adds a to-do to the project `project_id`.
pub open spec fn project_todo_script(
    project_id: Seq<char>,
    title: Seq<char>,
    notes: Option<Seq<char>>,
    due_date: Option<Seq<char>>,
    tags: Option<Seq<Seq<char>>>,
) -> Seq<char> {
    ADD_PROJECT_TODO_HEAD@ + project_id + ADD_PROJECT_TODO_AFTER_ID@ + json_quoted(title)
        + AFTER_NAME@ + property_lines(notes, due_date, tags) + ADD_PROJECT_TODO_TAIL@
}

/// The script that adds a to-do under the heading `heading` of the project
/// `project_id`.
pub open spec fn heading_todo_script(
    project_id: Seq<char>,
    heading: Seq<char>,
    title: Seq<char>,
    notes: Option<Seq<char>>,
    due_date: Option<Seq<char>>,
    tags: Option<Seq<Seq<char>>>,
) -> Seq<char> {
    ADD_HEADING_TODO_HEAD@ + project_id + ADD_HEADING_TODO_AFTER_ID@ + json_quoted(heading)
        + ADD_HEADING_TODO_AFTER_HEADING@ + json_quoted(title) + AFTER_NAME@ + property_lines(
        notes,
        due_date,
        tags,
    ) + ADD_HEADING_TODO_TAIL@
}

/// The script that completes the to-dos `ids`.
pub open spec fn complete_batch_script(ids: Seq<Seq<char>>) -> Seq<char> {
    COMPLETE_BATCH_HEAD@ + js_array(ids) + COMPLETE_BATCH_TAIL@
}

/// The script that cancels the to-dos `ids`.
pub open spec fn cancel_batch_script(ids: Seq<Seq<char>>) -> Seq<char> {
    CANCEL_BATCH_HEAD@ + js_array(ids) + CANCEL_BATCH_TAIL@
}

/// The script that adds `tags` to the tags of the to-dos `ids`.
pub open spec fn tag_batch_script(ids: Seq<Seq<char>>, tags: Seq<Seq<char>>) -> Seq<char> {
    TAG_BATCH_HEAD@ + js_array(ids) + TAG_BATCH_AFTER_IDS@ + json_quoted(joined(tags, ", "@))
        + TAG_BATCH_TAIL@
}

/// The script that moves the to-dos `ids` to the project `project`.
pub open spec fn move_batch_script(ids: Seq<Seq<char>>, project: Seq<char>) -> Seq<char> {
    MOVE_BATCH_HEAD@ + js_array(ids) + MOVE_BATCH_AFTER_IDS@ + json_quoted(project)
        + MOVE_BATCH_TAIL@
}

/// The script that sets the due date of the to-dos `ids`.
pub open spec fn due_batch_script(ids: Seq<Seq<char>>, due_date: Seq<char>) -> Seq<char> {
    DUE_BATCH_HEAD@ + js_array(ids) + DUE_BATCH_AFTER_IDS@ + due_date + DUE_BATCH_TAIL@
}

/// The script that clears the due date of the to-dos `ids`.
pub open spec fn clear_due_batch_script(ids: Seq<Seq<char>>) -> Seq<char> {
    CLEAR_DUE_BATCH_HEAD@ + js_array(ids) + CLEAR_DUE_BATCH_TAIL@
}

/// The script that adds the to-do `t` to the project `project_id`, under no
/// heading.
pub open spec fn root_todo_script(project_id: Seq<char>, t: TodoTuple) -> Seq<char> {
    project_todo_script(project_id, t.0@, optional_text(t.1), optional_text(t.2), Some(texts(t.3@)))
}

/// The script that adds the to-do `t` under the heading `heading` of the
/// project `project_id`.
pub open spec fn headed_todo_script(project_id: Seq<char>, heading: Seq<char>, t: TodoTuple) -> Seq<
    char,
> {
    heading_todo_script(
        project_id,
        heading,
        t.0@,
        optional_text(t.1),
        optional_text(t.2),
        Some(texts(t.3@)),
    )
}

/// The scripts that add the first `n` to-dos of `todos` to the project.
pub open spec fn root_scripts(project_id: Seq<char>, todos: Seq<TodoTuple>, n: int) -> Seq<
    Seq<char>,
> {
    Seq::new(n as nat, |i: int| root_todo_script(project_id, todos[i]))
}

/// The scripts that create one heading: the script that adds the heading,
/// and then one for each of the first `n` of its to-dos.
pub open spec fn heading_scripts(project_id: Seq<char>, h: HeadingTuple, n: int) -> Seq<Seq<char>> {
    seq![add_heading_script(project_id, h.0@)] + Seq::new(
        n as nat,
        |i: int| headed_todo_script(project_id, h.0@, h.1@[i]),
    )
}

/// The scripts that create the headings, one heading after the other.
pub open spec fn headings_scripts(project_id: Seq<char>, headings: Seq<HeadingTuple>) -> Seq<
    Seq<char>,
>
    decreases headings.len(),
{
    if headings.len() == 0 {
        Seq::empty()
    } else {
        headings_scripts(project_id, headings.drop_last()) + heading_scripts(
            project_id,
            headings.last(),
            headings.last().1@.len() as int,
        )
    }
}

/// The scripts that fill a new project, in the order in which they have to
/// run: first the to-dos under no heading, then each heading, followed by its
/// to-dos.
pub open spec fn structure_scripts(
    project_id: Seq<char>,
    headings: Seq<HeadingTuple>,
    root_todos: Seq<TodoTuple>,
) -> Seq<Seq<char>> {
    root_scripts(project_id, root_todos, root_todos.len() as int) + headings_scripts(
        project_id,
        headings,
    )
}

/// What the client makes of a value that the data store may have given:
/// that value, or else the request to run `script`.
pub open spec fn stored_or<T>(stored: Result<T, ClingsError>, r: Lookup<T>, script: Seq<char>) -> bool {
    match stored {
        Ok(value) => r == Lookup::Found(value),
        Err(_) => r matches Lookup::Ask(s) && s@ == script,
    }
}

/// What the client makes of a change to `ids`: nothing to do where there is
/// no item, and else the request to run `script`.
pub open spec fn batch_or(ids: Seq<String>, r: Lookup<BatchResult>, script: Seq<char>) -> bool {
    if ids.len() == 0 {
        r matches Lookup::Found(result) && result.succeeded == 0 && result.failed == 0
            && result.errors@.len() == 0
    } else {
        r matches Lookup::Ask(s) && s@ == script
    }
}

fn text_of(value: &Option<String>) -> (r: Option<&str>)
    ensures
        slice_text(r) == optional_text(*value),
{
    match value {
        Some(s) => Some(s.as_str()),
        None => None,
    }
}

fn quoted_line(value: Option<&str>, head: &str, tail: &str) -> (r: String)
    ensures
        r@ == optional_line(quoted(slice_text(value)), head@, tail@),
{
    match value {
        Some(v) => {
            let q = ThingsClient::js_string(v);
            fill1(head, q.as_str(), tail)
        },
        None => String::new(),
    }
}

fn tags_line(tags: Option<&[String]>, head: &str, tail: &str) -> (r: String)
    ensures
        r@ == optional_line(quoted(tag_list(tag_texts(tags))), head@, tail@),
{
    match tags {
        Some(t) => {
            let list = join(t, ", ");
            quoted_line(Some(list.as_str()), head, tail)
        },
        None => String::new(),
    }
}

fn move_to(name: Option<&str>) -> (r: String)
    ensures
        r@ == move_lines(slice_text(name)),
{
    match name {
        Some(n) => {
            let q = ThingsClient::js_string(n);
            fill2(MOVE_TO_LIST_HEAD, q.as_str(), MOVE_TO_LIST_MID, q.as_str(), MOVE_TO_LIST_TAIL)
        },
        None => String::new(),
    }
}

fn checklist_lines(items: Option<&[String]>) -> (r: String)
    ensures
        r@ == optional_line(checklist_list(tag_texts(items)), CHECKLIST_HEAD@, CHECKLIST_TAIL@),
{
    match items {
        Some(list) => {
            let mut escaped: Vec<String> = Vec::new();
            let mut i: usize = 0;
            while i < list.len()
                invariant
                    i <= list.len(),
                    escaped.len() == i,
                    forall|k: int|
                        0 <= k < i ==> (#[trigger] escaped@[k])@ == json_quoted(list@[k]@),
                decreases list.len() - i,
            {
                escaped.push(ThingsClient::js_string(list[i].as_str()));
                i += 1;
            }
            let inner = join(escaped.as_slice(), ", ");
            proof {
                assert(texts(escaped@) =~= Seq::new(
                    texts(list@).len(),
                    |i: int| json_quoted(texts(list@)[i]),
                ));
            }
            fill1(CHECKLIST_HEAD, inner.as_str(), CHECKLIST_TAIL)
        },
        None => String::new(),
    }
}

fn properties(notes: Option<&str>, due_date: Option<&str>, tags: Option<&[String]>) -> (r: String)
    ensures
        r@ == property_lines(slice_text(notes), slice_text(due_date), tag_texts(tags)),
{
    let mut out = quoted_line(notes, "props.notes = ", ";");
    out.append(BREAK);
    out.append(line_for(due_date, "props.dueDate = new Date('", "');").as_str());
    out.append(BREAK);
    out.append(tags_line(tags, "props.tagNames = ", ";").as_str());
    assert(out@ =~= property_lines(slice_text(notes), slice_text(due_date), tag_texts(tags)));
    out
}

fn found_or<T>(stored: Result<T, ClingsError>, script: String) -> (r: Lookup<T>)
    ensures
        stored_or(stored, r, script@),
{
    match stored {
        Ok(value) => Lookup::Found(value),
        Err(_) => Lookup::Ask(script),
    }
}

fn unless_empty(ids: &[String], script: String) -> (r: Lookup<BatchResult>)
    ensures
        batch_or(ids@, r, script@),
{
    if ids.len() == 0 {
        Lookup::Found(BatchResult::default())
    } else {
        Lookup::Ask(script)
    }
}

impl ThingsClient {
    pub fn new() -> (r: Self) {
        ThingsClient
    }

    /// Reads the output of a run that was to answer with JSON: the JSON
    /// text, or the error that the bridge reported.
    pub fn execute(&self, output: &BridgeOutput) -> (r: Result<String, ClingsError>)
        ensures
            match read_output(output.success, output.stdout@, output.stderr@) {
                Ok(json) => r matches Ok(x) && x@ == json,
                Err(e) => r matches Err(x) && x@ == e,
            },
    {
        if !output.success {
            return Err(ClingsError::from_stderr(output.stderr.as_str()));
        }
        Ok(answer(output.stdout.as_str().trim()))
    }

    /// Reads the output of a run that was to answer with nothing: the error
    /// that the bridge reported, if it reported one.
    pub fn execute_void(&self, output: &BridgeOutput) -> (r: Result<(), ClingsError>)
        ensures
            output.success ==> r is Ok,
            !output.success ==> (r matches Err(x) && x@ == classify_stderr(output.stderr@)),
    {
        if !output.success {
            return Err(ClingsError::from_stderr(output.stderr.as_str()));
        }
        Ok(())
    }

    /// The text `s` as a JavaScript string literal.
    pub fn js_string(s: &str) -> (r: String)
        ensures
            r@ == json_quoted(s@),
    {
        match json_text(s) {
            Some(text) => text,
            None => quote_plainly(s),
        }
    }

    /// The texts `items` as a JavaScript array literal.
    pub fn js_string_array(items: &[String]) -> (r: String)
        ensures
            r@ == js_array(texts(items@)),
    {
        let mut escaped: Vec<String> = Vec::new();
        let mut i: usize = 0;
        while i < items.len()
            invariant
                i <= items.len(),
                escaped.len() == i,
                forall|k: int| 0 <= k < i ==> (#[trigger] escaped@[k])@ == json_quoted(items@[k]@),
            decreases items.len() - i,
        {
            escaped.push(Self::js_string(items[i].as_str()));
            i += 1;
        }
        let inner = join(escaped.as_slice(), ", ");
        proof {
            reveal_strlit("[");
            reveal_strlit("]");
            assert(texts(escaped@) =~= Seq::new(
                texts(items@).len(),
                |i: int| json_quoted(texts(items@)[i]),
            ));
        }
        let r = fill1("[", inner.as_str(), "]");
        assert(r@ =~= js_array(texts(items@)));
        r
    }

    /// The to-dos of a built-in list: those that the data store gave, or
    /// else the request to ask the application.
    pub fn get_list(&self, view: ListView, stored: Result<Vec<Todo>, ClingsError>) -> (r: Lookup<
        Vec<Todo>,
    >)
        ensures
            stored_or(stored, r, list_script(view)),
    {
        found_or(stored, self.get_list_jxa(view))
    }

    /// The script that lists the to-dos of a built-in list.
    pub fn get_list_jxa(&self, view: ListView) -> (r: String)
        ensures
            r@ == list_script(view),
    {
        fill1(LIST_TODOS_HEAD, view.as_str(), LIST_TODOS_TAIL)
    }

    /// The to-do `id`: the one that the data store gave, or else the request
    /// to ask the application.
    pub fn get_todo(&self, id: &str, stored: Result<Todo, ClingsError>) -> (r: Lookup<Todo>)
        ensures
            stored_or(stored, r, todo_script(id@)),
    {
        found_or(stored, self.get_todo_jxa(id))
    }

    /// The script that shows the to-do `id`.
    pub fn get_todo_jxa(&self, id: &str) -> (r: String)
        ensures
            r@ == todo_script(id@),
    {
        fill1(SHOW_TODO_HEAD, id, SHOW_TODO_TAIL)
    }

    /// The script that creates a to-do.
    ///
    /// `when_date` schedules the to-do, `deadline` is its due date. The to-do
    /// is moved to the list, or else the project, `list`, and put into
    /// `area`; both can be given.
    pub fn add_todo(
        &self,
        title: &str,
        notes: Option<&str>,
        when_date: Option<&str>,
        deadline: Option<&str>,
        tags: Option<&[String]>,
        list: Option<&str>,
        area: Option<&str>,
        checklist: Option<&[String]>,
    ) -> (r: String)
        ensures
            r@ == add_todo_script(
                title@,
                slice_text(notes),
                slice_text(when_date),
                slice_text(deadline),
                tag_texts(tags),
                slice_text(list),
                slice_text(area),
                tag_texts(checklist),
            ),
    {
        let mut out = fill1(ADD_TODO_HEAD, Self::js_string(title).as_str(), AFTER_NAME);
        out.append(quoted_line(notes, "props.notes = ", ";").as_str());
        out.append(BREAK);
        out.append(line_for(deadline, "props.dueDate = new Date('", "');").as_str());
        out.append(BREAK);
        out.append(tags_line(tags, "props.tagNames = ", ";").as_str());
        out.append(ADD_TODO_MAKE);
        out.append(quoted_line(area, TODO_AREA_HEAD, TODO_AREA_TAIL).as_str());
        out.append(BREAK);
        out.append(line_for(when_date, SCHEDULE_HEAD, SCHEDULE_TAIL).as_str());
        out.append(BREAK);
        out.append(move_to(list).as_str());
        out.append(BREAK);
        out.append(checklist_lines(checklist).as_str());
        out.append(ADD_TODO_TAIL);
        assert(out@ =~= add_todo_script(
            title@,
            slice_text(notes),
            slice_text(when_date),
            slice_text(deadline),
            tag_texts(tags),
            slice_text(list),
            slice_text(area),
            tag_texts(checklist),
        ));
        out
    }

    /// The script that completes the to-do `id`.
    pub fn complete_todo(&self, id: &str) -> (r: String)
        ensures
            r@ == complete_script(id@),
    {
        fill1(COMPLETE_TODO_HEAD, id, COMPLETE_TODO_TAIL)
    }

    /// The script that cancels the to-do `id`.
    pub fn cancel_todo(&self, id: &str) -> (r: String)
        ensures
            r@ == cancel_script(id@),
    {
        fill1(CANCEL_TODO_HEAD, id, CANCEL_TODO_TAIL)
    }

    /// The script that deletes the to-do `id`. The application cannot move
    /// an item to its trash from a script, so the to-do is canceled.
    pub fn delete_todo(&self, id: &str) -> (r: String)
        ensures
            r@ == cancel_script(id@),
    {
        self.cancel_todo(id)
    }

    /// All projects: those that the data store gave, or else the request to
    /// ask the application.
    pub fn get_projects(&self, stored: Result<Vec<Project>, ClingsError>) -> (r: Lookup<
        Vec<Project>,
    >)
        ensures
            stored_or(stored, r, ALL_PROJECTS@),
    {
        found_or(stored, self.get_projects_jxa())
    }

    /// The script that lists all projects.
    pub fn get_projects_jxa(&self) -> (r: String)
        ensures
            r@ == ALL_PROJECTS@,
    {
        ALL_PROJECTS.to_owned()
    }

    /// The script that creates a project.
    pub fn add_project(
        &self,
        title: &str,
        notes: Option<&str>,
        area: Option<&str>,
        tags: Option<&[String]>,
        due_date: Option<&str>,
    ) -> (r: String)
        ensures
            r@ == add_project_script(
                title@,
                slice_text(notes),
                slice_text(area),
                tag_texts(tags),
                slice_text(due_date),
            ),
    {
        let mut out = fill1(ADD_PROJECT_HEAD, Self::js_string(title).as_str(), AFTER_NAME);
        out.append(quoted_line(notes, "props.notes = ", ";").as_str());
        out.append(BREAK);
        out.append(line_for(due_date, "props.dueDate = new Date('", "');").as_str());
        out.append(BREAK);
        out.append(tags_line(tags, "props.tagNames = ", ";").as_str());
        out.append(ADD_PROJECT_MAKE);
        out.append(quoted_line(area, PROJECT_AREA_HEAD, PROJECT_AREA_TAIL).as_str());
        out.append(ADD_PROJECT_TAIL);
        assert(out@ =~= add_project_script(
            title@,
            slice_text(notes),
            slice_text(area),
            tag_texts(tags),
            slice_text(due_date),
        ));
        out
    }

    /// All areas: those that the data store gave, or else the request to ask
    /// the application.
    pub fn get_areas(&self, stored: Result<Vec<Area>, ClingsError>) -> (r: Lookup<Vec<Area>>)
        ensures
            stored_or(stored, r, ALL_AREAS@),
    {
        found_or(stored, self.get_areas_jxa())
    }

    /// The script that lists all areas.
    pub fn get_areas_jxa(&self) -> (r: String)
        ensures
            r@ == ALL_AREAS@,
    {
        ALL_AREAS.to_owned()
    }

    /// All tags: those that the data store gave, or else the request to ask
    /// the application.
    pub fn get_tags(&self, stored: Result<Vec<Tag>, ClingsError>) -> (r: Lookup<Vec<Tag>>)
        ensures
            stored_or(stored, r, ALL_TAGS@),
    {
        found_or(stored, self.get_tags_jxa())
    }

    /// The script that lists all tags.
    pub fn get_tags_jxa(&self) -> (r: String)
        ensures
            r@ == ALL_TAGS@,
    {
        ALL_TAGS.to_owned()
    }

    /// The to-dos whose name or notes hold `query`: those that the data
    /// store gave, or else the request to ask the application.
    pub fn search(&self, query: &str, stored: Result<Vec<Todo>, ClingsError>) -> (r: Lookup<
        Vec<Todo>,
    >)
        ensures
            stored_or(stored, r, search_script(query@)),
    {
        found_or(stored, self.search_jxa(query))
    }

    /// The script that lists the to-dos whose name or notes hold `query`.
    pub fn search_jxa(&self, query: &str) -> (r: String)
        ensures
            r@ == search_script(query@),
    {
        fill1(SEARCH_HEAD, Self::js_string(query).as_str(), SEARCH_TAIL)
    }

    /// The script that shows `target` in the application: a built-in list
    /// where `target` names one, in any case, and else the item with that
    /// identifier.
    pub fn open(&self, target: &str) -> (r: String)
        ensures
            r@ == open_script(lowercase(target@), capitalized(target@), target@),
    {
        let lowered = target.to_lowercase();
        let shown = capitalize(target);
        open_script_for(lowered.as_str(), shown.as_str(), target)
    }

    /// The script that adds `tags` to the tags of the to-do `id`.
    pub fn update_todo_tags(&self, id: &str, tags: &str) -> (r: String)
        ensures
            r@ == add_tags_script(id@, tags@),
    {
        let q = Self::js_string(tags);
        fill3(
            ADD_TAGS_HEAD,
            id,
            ADD_TAGS_AFTER_ID,
            q.as_str(),
            ADD_TAGS_OR_ELSE,
            q.as_str(),
            ADD_TAGS_TAIL,
        )
    }

    /// The script that moves the to-do `id` to the list, or else the
    /// project, `list_name`.
    pub fn move_todo_to_list(&self, id: &str, list_name: &str) -> (r: String)
        ensures
            r@ == move_todo_script(id@, list_name@),
    {
        let q = Self::js_string(list_name);
        fill3(
            MOVE_TODO_HEAD,
            id,
            MOVE_TODO_AFTER_ID,
            q.as_str(),
            MOVE_TODO_OR_PROJECT,
            q.as_str(),
            MOVE_TODO_TAIL,
        )
    }

    /// The script that sets the due date of the to-do `id`.
    pub fn update_todo_due(&self, id: &str, due_date: &str) -> (r: String)
        ensures
            r@ == set_due_script(id@, due_date@),
    {
        fill2(SET_DUE_HEAD, id, SET_DUE_AFTER_ID, due_date, SET_DUE_TAIL)
    }

    /// The script that clears the due date of the to-do `id`.
    pub fn clear_todo_due(&self, id: &str) -> (r: String)
        ensures
            r@ == clear_due_script(id@),
    {
        fill1(CLEAR_DUE_HEAD, id, CLEAR_DUE_TAIL)
    }

    /// The script that moves the to-do `id` to Someday.
    pub fn move_to_someday(&self, id: &str) -> (r: String)
        ensures
            r@ == someday_script(id@),
    {
        fill1(TO_SOMEDAY_HEAD, id, TO_SOMEDAY_TAIL)
    }

    /// The script that changes the to-do `id`. Only the values that are
    /// given are changed.
    pub fn update_todo(
        &self,
        id: &str,
        title: Option<&str>,
        notes: Option<&str>,
        when_date: Option<&str>,
        deadline: Option<&str>,
        tags: Option<&str>,
        project: Option<&str>,
        area: Option<&str>,
    ) -> (r: String)
        ensures
            r@ == update_todo_script(
                id@,
                slice_text(title),
                slice_text(notes),
                slice_text(when_date),
                slice_text(deadline),
                slice_text(tags),
                slice_text(project),
                slice_text(area),
            ),
    {
        let mut out = fill1(UPDATE_TODO_HEAD, id, UPDATE_TODO_AFTER_ID);
        out.append(quoted_line(title, "todo.name = ", ";").as_str());
        out.append(BREAK);
        out.append(quoted_line(notes, "todo.notes = ", ";").as_str());
        out.append(BREAK);
        out.append(line_for(deadline, "todo.dueDate = new Date('", "');").as_str());
        out.append(BREAK);
        out.append(quoted_line(tags, "todo.tagNames = ", ";").as_str());
        out.append(BREAK);
        out.append(
            line_for(when_date, "Things.schedule(todo, { for: new Date('", "') });").as_str(),
        );
        out.append(BREAK);
        out.append(move_to(project).as_str());
        out.append(BREAK);
        out.append(quoted_line(area, TODO_AREA_HEAD, TODO_AREA_TAIL).as_str());
        out.append(UPDATE_TODO_TAIL);
        assert(out@ =~= update_todo_script(
            id@,
            slice_text(title),
            slice_text(notes),
            slice_text(when_date),
            slice_text(deadline),
            slice_text(tags),
            slice_text(project),
            slice_text(area),
        ));
        out
    }

    /// The script that shows the project `name`.
    pub fn get_project_by_name(&self, name: &str) -> (r: String)
        ensures
            r@ == project_by_name_script(name@),
    {
        fill1(PROJECT_BY_NAME_HEAD, Self::js_string(name).as_str(), PROJECT_BY_NAME_TAIL)
    }

    /// The to-dos of the project `project_name`: those that the data store
    /// gave, or else the request to ask the application.
    pub fn get_project_todos(&self, project_name: &str, stored: Result<Vec<Todo>, ClingsError>) -> (r:
        Lookup<Vec<Todo>>)
        ensures
            stored_or(stored, r, project_todos_script(project_name@)),
    {
        found_or(stored, self.get_project_todos_jxa(project_name))
    }

    /// The script that lists the to-dos of the project `project_name`.
    pub fn get_project_todos_jxa(&self, project_name: &str) -> (r: String)
        ensures
            r@ == project_todos_script(project_name@),
    {
        fill1(PROJECT_TODOS_HEAD, Self::js_string(project_name).as_str(), PROJECT_TODOS_TAIL)
    }

    /// The script that lists the headings of the project `project_name`,
    /// each with the names of its to-dos.
    pub fn get_project_headings(&self, project_name: &str) -> (r: String)
        ensures
            r@ == project_headings_script(project_name@),
    {
        fill1(PROJECT_HEADINGS_HEAD, Self::js_string(project_name).as_str(), PROJECT_HEADINGS_TAIL)
    }

    /// The script that creates the project of a structure; the scripts of
    /// `project_structure` fill it once the application has said which
    /// identifier it gave the project.
    pub fn create_project_with_structure(
        &self,
        name: &str,
        notes: Option<&str>,
        area: Option<&str>,
        tags: Option<&[String]>,
    ) -> (r: String)
        ensures
            r@ == add_project_script(
                name@,
                slice_text(notes),
                slice_text(area),
                tag_texts(tags),
                None,
            ),
    {
        self.add_project(name, notes, area, tags, None)
    }

    /// The scripts that fill the project `project_id` with `root_todos` and
    /// `headings`, in the order in which they have to run. The run stops at
    /// the first script that fails.
    pub fn project_structure(
        &self,
        project_id: &str,
        headings: &[HeadingTuple],
        root_todos: &[TodoTuple],
    ) -> (r: Vec<String>)
        ensures
            texts(r@) == structure_scripts(project_id@, headings@, root_todos@),
    {
        let mut out: Vec<String> = Vec::new();
        let mut i: usize = 0;
        proof {
            assert(texts(out@) =~= root_scripts(project_id@, root_todos@, 0));
        }
        while i < root_todos.len()
            invariant
                i <= root_todos.len(),
                texts(out@) == root_scripts(project_id@, root_todos@, i as int),
            decreases root_todos.len() - i,
        {
            let t = &root_todos[i];
            let script = self.add_todo_to_project(
                project_id,
                t.0.as_str(),
                text_of(&t.1),
                text_of(&t.2),
                Some(t.3.as_slice()),
            );
            let ghost before = texts(out@);
            out.push(script);
            proof {
                assert(texts(out@) =~= before.push(script@));
                assert(texts(out@) =~= root_scripts(project_id@, root_todos@, i + 1));
            }
            i += 1;
        }
        let ghost roots = texts(out@);
        let mut h: usize = 0;
        proof {
            assert(headings@.take(0) =~= Seq::<HeadingTuple>::empty());
            assert(roots + headings_scripts(project_id@, headings@.take(0)) =~= roots);
        }
        while h < headings.len()
            invariant
                h <= headings.len(),
                roots == root_scripts(project_id@, root_todos@, root_todos@.len() as int),
                texts(out@) == roots + headings_scripts(project_id@, headings@.take(h as int)),
            decreases headings.len() - h,
        {
            let heading = &headings[h];
            let ghost done = texts(out@);
            let first = self.add_heading_to_project(project_id, heading.0.as_str());
            out.push(first);
            let mut k: usize = 0;
            proof {
                assert(texts(out@) =~= done + heading_scripts(project_id@, *heading, 0));
            }
            while k < heading.1.len()
                invariant
                    k <= heading.1.len(),
                    texts(out@) == done + heading_scripts(project_id@, *heading, k as int),
                decreases heading.1.len() - k,
            {
                let t = &heading.1[k];
                let script = self.add_todo_to_heading(
                    project_id,
                    heading.0.as_str(),
                    t.0.as_str(),
                    text_of(&t.1),
                    text_of(&t.2),
                    Some(t.3.as_slice()),
                );
                let ghost before = texts(out@);
                out.push(script);
                proof {
                    assert(texts(out@) =~= before.push(script@));
                    assert(texts(out@) =~= done + heading_scripts(project_id@, *heading, k + 1));
                }
                k += 1;
            }
            proof {
                let now = headings@.take(h + 1);
                assert(now.drop_last() =~= headings@.take(h as int));
                assert(now.last() == *heading);
                assert(texts(out@) =~= roots + headings_scripts(project_id@, now));
            }
            h += 1;
        }
        proof {
            assert(headings@.take(headings@.len() as int) =~= headings@);
        }
        out
    }

    /// The script that adds the heading `heading_name` to the project
    /// `project_id`.
    pub fn add_heading_to_project(&self, project_id: &str, heading_name: &str) -> (r: String)
        ensures
            r@ == add_heading_script(project_id@, heading_name@),
    {
        fill2(
            ADD_HEADING_HEAD,
            project_id,
            ADD_HEADING_AFTER_ID,
            Self::js_string(heading_name).as_str(),
            ADD_HEADING_TAIL,
        )
    }

    /// The script that adds a to-do to the project `project_id`, under no
    /// heading.
    pub fn add_todo_to_project(
        &self,
        project_id: &str,
        title: &str,
        notes: Option<&str>,
        due_date: Option<&str>,
        tags: Option<&[String]>,
    ) -> (r: String)
        ensures
            r@ == project_todo_script(
                project_id@,
                title@,
                slice_text(notes),
                slice_text(due_date),
                tag_texts(tags),
            ),
    {
        let mut out = fill2(
            ADD_PROJECT_TODO_HEAD,
            project_id,
            ADD_PROJECT_TODO_AFTER_ID,
            Self::js_string(title).as_str(),
            AFTER_NAME,
        );
        out.append(properties(notes, due_date, tags).as_str());
        out.append(ADD_PROJECT_TODO_TAIL);
        assert(out@ =~= project_todo_script(
            project_id@,
            title@,
            slice_text(notes),
            slice_text(due_date),
            tag_texts(tags),
        ));
        out
    }

    /// The script that adds a to-do under the heading `heading_name` of the
    /// project `project_id`.
    pub fn add_todo_to_heading(
        &self,
        project_id: &str,
        heading_name: &str,
        title: &str,
        notes: Option<&str>,
        due_date: Option<&str>,
        tags: Option<&[String]>,
    ) -> (r: String)
        ensures
            r@ == heading_todo_script(
                project_id@,
                heading_name@,
                title@,
                slice_text(notes),
                slice_text(due_date),
                tag_texts(tags),
            ),
    {
        let mut out = fill3(
            ADD_HEADING_TODO_HEAD,
            project_id,
            ADD_HEADING_TODO_AFTER_ID,
            Self::js_string(heading_name).as_str(),
            ADD_HEADING_TODO_AFTER_HEADING,
            Self::js_string(title).as_str(),
            AFTER_NAME,
        );
        out.append(properties(notes, due_date, tags).as_str());
        out.append(ADD_HEADING_TODO_TAIL);
        assert(out@ =~= heading_todo_script(
            project_id@,
            heading_name@,
            title@,
            slice_text(notes),
            slice_text(due_date),
            tag_texts(tags),
        ));
        out
    }

    /// All to-dos: those that the data store gave, or else the request to
    /// ask the application.
    pub fn get_all_todos(&self, stored: Result<Vec<Todo>, ClingsError>) -> (r: Lookup<Vec<Todo>>)
        ensures
            stored_or(stored, r, ALL_TODOS@),
    {
        found_or(stored, self.get_all_todos_jxa())
    }

    /// The script that lists all to-dos.
    pub fn get_all_todos_jxa(&self) -> (r: String)
        ensures
            r@ == ALL_TODOS@,
    {
        ALL_TODOS.to_owned()
    }

    /// Completes the to-dos `ids` in one run: nothing to do where there is
    /// none, and else the script to run.
    pub fn complete_todos_batch(&self, ids: &[String]) -> (r: Lookup<BatchResult>)
        ensures
            batch_or(ids@, r, complete_batch_script(texts(ids@))),
    {
        let array = Self::js_string_array(ids);
        unless_empty(ids, fill1(COMPLETE_BATCH_HEAD, array.as_str(), COMPLETE_BATCH_TAIL))
    }

    /// Cancels the to-dos `ids` in one run: nothing to do where there is
    /// none, and else the script to run.
    pub fn cancel_todos_batch(&self, ids: &[String]) -> (r: Lookup<BatchResult>)
        ensures
            batch_or(ids@, r, cancel_batch_script(texts(ids@))),
    {
        let array = Self::js_string_array(ids);
        unless_empty(ids, fill1(CANCEL_BATCH_HEAD, array.as_str(), CANCEL_BATCH_TAIL))
    }

    /// Adds `tags` to the tags of the to-dos `ids` in one run: nothing to do
    /// where there is none, and else the script to run.
    pub fn add_tags_batch(&self, ids: &[String], tags: &[String]) -> (r: Lookup<BatchResult>)
        ensures
            batch_or(ids@, r, tag_batch_script(texts(ids@), texts(tags@))),
    {
        let array = Self::js_string_array(ids);
        let list = Self::js_string(join(tags, ", ").as_str());
        unless_empty(
            ids,
            fill2(
                TAG_BATCH_HEAD,
                array.as_str(),
                TAG_BATCH_AFTER_IDS,
                list.as_str(),
                TAG_BATCH_TAIL,
            ),
        )
    }

    /// Moves the to-dos `ids` to the project `project_name` in one run:
    /// nothing to do where there is none, and else the script to run.
    pub fn move_todos_batch(&self, ids: &[String], project_name: &str) -> (r: Lookup<BatchResult>)
        ensures
            batch_or(ids@, r, move_batch_script(texts(ids@), project_name@)),
    {
        let array = Self::js_string_array(ids);
        let project = Self::js_string(project_name);
        unless_empty(
            ids,
            fill2(
                MOVE_BATCH_HEAD,
                array.as_str(),
                MOVE_BATCH_AFTER_IDS,
                project.as_str(),
                MOVE_BATCH_TAIL,
            ),
        )
    }

    /// Sets the due date of the to-dos `ids` in one run: nothing to do where
    /// there is none, and else the script to run.
    pub fn update_todos_due_batch(&self, ids: &[String], due_date: &str) -> (r: Lookup<BatchResult>)
        ensures
            batch_or(ids@, r, due_batch_script(texts(ids@), due_date@)),
    {
        let array = Self::js_string_array(ids);
        unless_empty(
            ids,
            fill2(DUE_BATCH_HEAD, array.as_str(), DUE_BATCH_AFTER_IDS, due_date, DUE_BATCH_TAIL),
        )
    }

    /// Clears the due date of the to-dos `ids` in one run: nothing to do
    /// where there is none, and else the script to run.
    pub fn clear_todos_due_batch(&self, ids: &[String]) -> (r: Lookup<BatchResult>)
        ensures
            batch_or(ids@, r, clear_due_batch_script(texts(ids@))),
    {
        let array = Self::js_string_array(ids);
        unless_empty(ids, fill1(CLEAR_DUE_BATCH_HEAD, array.as_str(), CLEAR_DUE_BATCH_TAIL))
    }

    /// The script that lists the to-dos of every built-in list.
    pub fn get_all_lists(&self) -> (r: String)
        ensures
            r@ == ALL_LISTS@,
    {
        ALL_LISTS.to_owned()
    }

    /// The script that lists the to-dos of the built-in lists that hold open
    /// items.
    pub fn get_open_lists(&self) -> (r: String)
        ensures
            r@ == OPEN_LISTS@,
    {
        OPEN_LISTS.to_owned()
    }
}

impl Default for ThingsClient {
    fn default() -> (r: Self) {
        ThingsClient::new()
    }
}

} // verus!
