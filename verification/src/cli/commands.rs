//! What each command decides.
//!
//! A command does not talk to the application. It says what has to be asked
//! of it, and what to tell the user once that is done.

pub mod bulk;
pub mod list;
pub mod shell;
pub mod stats;

pub use bulk::{bulk_cancel, bulk_complete, bulk_move, bulk_tag, search_with_filter};
pub use list::list;
pub use shell::shell;
pub use stats::stats;

use crate::cli::args::{AddProjectArgs, ProjectCommands, TodoCommands, parse_date};
use crate::date::Date;
use crate::error::{ClingsError, ClingsErrorView};
use crate::text::{chars_of, eq_ignoring_case, lowercase, same_ignoring_case, text_eq};
use crate::things::client::{
    ThingsClient,
    add_project_script,
    cancel_script,
    capitalized,
    complete_script,
    open_script,
    update_todo_script,
};
use crate::things::javascript::{join, joined};
use crate::things::template::{after, fill1, fill2, slice_text};
use crate::things::types::{CreateResponse, Project, Todo, optional_text, status_text, texts};
use vstd::prelude::*;
use vstd::string::*;

verus! {

/// A script to run, and what to tell the user once it has run.
#[derive(Debug, PartialEq, Eq)]
pub struct Action {
    pub script: String,
    pub done: String,
}

/// What the `todo` command has to do.
#[derive(Debug, PartialEq, Eq)]
pub enum TodoPlan {
    /// Look up the to-do and show it.
    Show { id: String },
    /// Change the to-do.
    Act(Action),
}

/// What the `project` command has to do.
#[derive(Debug, PartialEq, Eq)]
pub enum ProjectPlan {
    /// List all projects.
    List,
    /// Look up the projects and show the one with this identifier.
    Show { id: String },
    /// Run the script, which creates a project.
    Add { script: String },
}

/// Where the `search` command takes its to-dos from.
#[derive(Debug, PartialEq, Eq)]
pub enum SearchPlan {
    /// All to-dos, selected by this filter expression.
    Filter(String),
    /// The to-dos whose name or notes hold this text.
    Text(String),
    /// The list Anytime.
    Anytime,
}

fn text_of(value: &Option<String>) -> (r: Option<&str>)
    ensures
        slice_text(r) == optional_text(*value),
{
    match value {
        Some(s) => Some(s.as_str()),
        None => None,
    }
}

/// What the `todo` command has to do for `cmd`: which script to run and
/// what to tell the user after it; or, for `Show`, which to-do to look up.
pub fn todo(client: &ThingsClient, cmd: TodoCommands) -> (r: TodoPlan)
    ensures
        match cmd {
            TodoCommands::Show { id } => r matches TodoPlan::Show { id: x } && x@ == id@,
            TodoCommands::Complete { id } => r matches TodoPlan::Act(a) && a.script@
                == complete_script(id@) && a.done@ == "Completed todo: "@ + id@,
            TodoCommands::Cancel { id } => r matches TodoPlan::Act(a) && a.script@ == cancel_script(
                id@,
            ) && a.done@ == "Canceled todo: "@ + id@,
            TodoCommands::Delete { id } => r matches TodoPlan::Act(a) && a.script@ == cancel_script(
                id@,
            ) && a.done@ == "Canceled todo: "@ + id@
                + " (Things API doesn't support true deletion)"@,
            TodoCommands::Update {
                id,
                title,
                notes,
                when,
                deadline,
                tags,
                project,
                area,
            } => r matches TodoPlan::Act(a) && a.script@ == update_todo_script(
                id@,
                optional_text(title),
                optional_text(notes),
                optional_text(when),
                optional_text(deadline),
                optional_text(tags),
                optional_text(project),
                optional_text(area),
            ) && a.done@ == "Updated todo: "@ + id@,
        },
{
    match cmd {
        TodoCommands::Show { id } => TodoPlan::Show { id },
        TodoCommands::Complete { id } => TodoPlan::Act(
            Action {
                script: client.complete_todo(id.as_str()),
                done: after("Completed todo: ", id.as_str()),
            },
        ),
        TodoCommands::Cancel { id } => TodoPlan::Act(
            Action {
                script: client.cancel_todo(id.as_str()),
                done: after("Canceled todo: ", id.as_str()),
            },
        ),
        TodoCommands::Delete { id } => TodoPlan::Act(
            Action {
                script: client.delete_todo(id.as_str()),
                done: fill1(
                    "Canceled todo: ",
                    id.as_str(),
                    " (Things API doesn't support true deletion)",
                ),
            },
        ),
        TodoCommands::Update { id, title, notes, when, deadline, tags, project, area } => {
            let script = client.update_todo(
                id.as_str(),
                text_of(&title),
                text_of(&notes),
                text_of(&when),
                text_of(&deadline),
                text_of(&tags),
                text_of(&project),
                text_of(&area),
            );
            TodoPlan::Act(Action { script, done: after("Updated todo: ", id.as_str()) })
        },
    }
}

/// The tags of the arguments, where there are any.
pub open spec fn argument_tags(tags: Option<Vec<String>>) -> Option<Seq<Seq<char>>> {
    match tags {
        Some(t) => Some(texts(t@)),
        None => None,
    }
}

/// The script that creates the project of `args`.
pub fn add_project(client: &ThingsClient, args: &AddProjectArgs) -> (r: String)
    ensures
        r@ == add_project_script(
            args.title@,
            optional_text(args.notes),
            optional_text(args.area),
            argument_tags(args.tags),
            optional_text(args.due),
        ),
{
    let tags: Option<&[String]> = match &args.tags {
        Some(t) => Some(t.as_slice()),
        None => None,
    };
    client.add_project(
        args.title.as_str(),
        text_of(&args.notes),
        text_of(&args.area),
        tags,
        text_of(&args.due),
    )
}

/// What the `project` command has to do for `cmd`.
pub fn project(client: &ThingsClient, cmd: ProjectCommands) -> (r: ProjectPlan)
    ensures
        match cmd {
            ProjectCommands::List => r == ProjectPlan::List,
            ProjectCommands::Show { id } => r matches ProjectPlan::Show { id: x } && x@ == id@,
            ProjectCommands::Add(args) => r matches ProjectPlan::Add { script } && script@
                == add_project_script(
                args.title@,
                optional_text(args.notes),
                optional_text(args.area),
                argument_tags(args.tags),
                optional_text(args.due),
            ),
        },
{
    match cmd {
        ProjectCommands::List => ProjectPlan::List,
        ProjectCommands::Show { id } => ProjectPlan::Show { id },
        ProjectCommands::Add(args) => ProjectPlan::Add { script: add_project(client, &args) },
    }
}

/// The position of the first project with the identifier `id`, if there is
/// one.
pub open spec fn project_position(projects: Seq<Project>, id: Seq<char>) -> Option<int>
    decreases projects.len(),
{
    if projects.len() == 0 {
        None
    } else {
        match project_position(projects.drop_last(), id) {
            Some(i) => Some(i),
            None => if projects.last().id@ == id {
                Some(projects.len() - 1)
            } else {
                None
            },
        }
    }
}

/// The first of `projects` with the identifier `id`; where there is none,
/// the error that says so.
pub fn find_project<'a>(projects: &'a [Project], id: &str) -> (r: Result<&'a Project, ClingsError>)
    ensures
        match project_position(projects@, id@) {
            Some(i) => 0 <= i < projects@.len() && r == Ok::<&Project, ClingsError>(&projects@[i]),
            None => r matches Err(e) && e@ == ClingsErrorView::NotFound("Project with ID: "@ + id@),
        },
{
    let mut i: usize = 0;
    proof {
        assert(projects@.take(0) =~= Seq::<Project>::empty());
    }
    while i < projects.len()
        invariant
            i <= projects.len(),
            project_position(projects@.take(i as int), id@) is None,
        decreases projects.len() - i,
    {
        proof {
            assert(projects@.take(i + 1).drop_last() =~= projects@.take(i as int));
        }
        if text_eq(projects[i].id.as_str(), id) {
            proof {
                lemma_position_stays(projects@, id@, i + 1);
            }
            return Ok(&projects[i]);
        }
        i += 1;
    }
    proof {
        assert(projects@.take(projects@.len() as int) =~= projects@);
    }
    Err(ClingsError::NotFound(after("Project with ID: ", id)))
}

/// A position that is found among the first `n` projects is the one that is
/// found among all of them.
proof fn lemma_position_stays(projects: Seq<Project>, id: Seq<char>, n: int)
    requires
        0 <= n <= projects.len(),
        project_position(projects.take(n), id) is Some,
    ensures
        project_position(projects, id) == project_position(projects.take(n), id),
    decreases projects.len() - n,
{
    if n < projects.len() {
        assert(projects.take(n + 1).drop_last() =~= projects.take(n));
        lemma_position_stays(projects, id, n + 1);
    } else {
        assert(projects.take(n) =~= projects);
    }
}

/// A line of the details: the label and the value, where there is a value.
pub open spec fn detail(label: Seq<char>, value: Option<Seq<char>>) -> Seq<char> {
    match value {
        Some(v) => label + v + "\n"@,
        None => Seq::empty(),
    }
}

/// The text, unless it is empty.
pub open spec fn unless_empty(text: Seq<char>) -> Option<Seq<char>> {
    if text.len() == 0 {
        None
    } else {
        Some(text)
    }
}

/// The tags with a comma and a space between each two, unless there is none.
pub open spec fn tag_line(tags: Seq<Seq<char>>) -> Option<Seq<char>> {
    if tags.len() == 0 {
        None
    } else {
        Some(joined(tags, ", "@))
    }
}

/// The date as `YYYY-MM-DD`, where there is one.
pub open spec fn date_line(date: Option<Date>) -> Option<Seq<char>> {
    match date {
        Some(d) => Some(d.iso_text()),
        None => None,
    }
}

/// The details of a project as the user reads them: name, identifier and
/// status, and then the notes, the area, the tags and the due date, each
/// where the project has it.
pub open spec fn project_text(p: Project) -> Seq<char> {
    detail("Project: "@, Some(p.name@)) + detail("  ID: "@, Some(p.id@)) + detail(
        "  Status: "@,
        Some(status_text(p.status)),
    ) + detail("  Notes: "@, unless_empty(p.notes@)) + detail("  Area: "@, optional_text(p.area))
        + detail("  Tags: "@, tag_line(texts(p.tags@))) + detail("  Due: "@, date_line(p.due_date))
}

fn detail_line(label: &str, value: Option<&str>) -> (r: String)
    ensures
        r@ == detail(label@, slice_text(value)),
{
    match value {
        Some(v) => fill1(label, v, "\n"),
        None => String::new(),
    }
}

/// The details of a project as the user reads them.
pub fn project_details(project: &Project) -> (r: String)
    ensures
        r@ == project_text(*project),
{
    let mut out = detail_line("Project: ", Some(project.name.as_str()));
    out.append(detail_line("  ID: ", Some(project.id.as_str())).as_str());
    out.append(detail_line("  Status: ", Some(project.status.as_str())).as_str());
    let notes = if project.notes.as_str().is_empty() {
        None
    } else {
        Some(project.notes.as_str())
    };
    out.append(detail_line("  Notes: ", notes).as_str());
    out.append(detail_line("  Area: ", text_of(&project.area)).as_str());
    let tags = join(project.tags.as_slice(), ", ");
    let tag_text = if project.tags.len() == 0 {
        None
    } else {
        Some(tags.as_str())
    };
    out.append(detail_line("  Tags: ", tag_text).as_str());
    let due = match project.due_date {
        Some(d) => Some(d.to_iso_string()),
        None => None,
    };
    out.append(detail_line("  Due: ", text_of(&due)).as_str());
    assert(out@ =~= project_text(*project));
    out
}

/// What the user is told of a project that was created.
pub fn created_project(response: &CreateResponse) -> (r: String)
    ensures
        r@ == "Created project: "@ + response.name@ + " (ID: "@ + response.id@ + ")"@,
{
    fill2("Created project: ", response.name.as_str(), " (ID: ", response.id.as_str(), ")")
}

/// Where the `search` command takes its to-dos from: a filter expression
/// comes before a text, and without either the list Anytime is searched.
pub fn search(query: Option<&str>, filter: Option<&str>) -> (r: SearchPlan)
    ensures
        match (filter, query) {
            (Some(f), _) => r matches SearchPlan::Filter(x) && x@ == f@,
            (None, Some(q)) => r matches SearchPlan::Text(x) && x@ == q@,
            (None, None) => r == SearchPlan::Anytime,
        },
{
    match filter {
        Some(f) => SearchPlan::Filter(f.to_owned()),
        None => match query {
            Some(q) => SearchPlan::Text(q.to_owned()),
            None => SearchPlan::Anytime,
        },
    }
}

/// Whether one of `tags` is `tag`, ignoring ASCII case.
pub open spec fn tagged(tags: Seq<Seq<char>>, tag: Seq<char>) -> bool {
    exists|i: int| 0 <= i < tags.len() && same_ignoring_case(#[trigger] tags[i], tag)
}

/// Whether a to-do passes the simple filters of `search`: it carries the
/// tag, belongs to the project, and is due on the date that is written as
/// `due`; each filter only where it is given.
pub open spec fn passes(
    todo: Todo,
    tag: Option<Seq<char>>,
    project: Option<Seq<char>>,
    due: Option<Seq<char>>,
) -> bool {
    &&& tag matches Some(t) ==> tagged(texts(todo.tags@), t)
    &&& project matches Some(p) ==> (todo.project matches Some(own) && same_ignoring_case(own@, p))
    &&& due matches Some(d) ==> (todo.due_date matches Some(date) && date.iso_text() == d)
}

/// The to-dos of `todos` that pass the simple filters, in their order.
pub open spec fn refined(
    todos: Seq<Todo>,
    tag: Option<Seq<char>>,
    project: Option<Seq<char>>,
    due: Option<Seq<char>>,
) -> Seq<Todo>
    decreases todos.len(),
{
    if todos.len() == 0 {
        Seq::empty()
    } else {
        let rest = refined(todos.drop_last(), tag, project, due);
        if passes(todos.last(), tag, project, due) {
            rest.push(todos.last())
        } else {
            rest
        }
    }
}

fn has_tag(todo: &Todo, tag: &Vec<char>) -> (r: bool)
    ensures
        r == tagged(texts(todo.tags@), tag@),
{
    let mut i: usize = 0;
    while i < todo.tags.len()
        invariant
            i <= todo.tags.len(),
            forall|k: int|
                0 <= k < i ==> !same_ignoring_case(#[trigger] texts(todo.tags@)[k], tag@),
        decreases todo.tags.len() - i,
    {
        let own = chars_of(todo.tags[i].as_str());
        if eq_ignoring_case(&own, tag) {
            assert(same_ignoring_case(texts(todo.tags@)[i as int], tag@));
            return true;
        }
        i += 1;
    }
    false
}

fn passes_filters(todo: &Todo, tag: Option<&str>, project: Option<&str>, due: Option<&str>) -> (r:
    bool)
    ensures
        r == passes(*todo, slice_text(tag), slice_text(project), slice_text(due)),
{
    match tag {
        Some(t) => {
            let chars = chars_of(t);
            if !has_tag(todo, &chars) {
                return false;
            }
        },
        None => {},
    }
    match project {
        Some(p) => match &todo.project {
            Some(own) => {
                let a = chars_of(own.as_str());
                let b = chars_of(p);
                if !eq_ignoring_case(&a, &b) {
                    return false;
                }
            },
            None => {
                return false;
            },
        },
        None => {},
    }
    match due {
        Some(d) => match todo.due_date {
            Some(date) => {
                let written = date.to_iso_string();
                if !text_eq(written.as_str(), d) {
                    return false;
                }
            },
            None => {
                return false;
            },
        },
        None => {},
    }
    true
}

/// The to-dos that a list of references points to.
pub open spec fn pointed(refs: Seq<&Todo>) -> Seq<Todo> {
    Seq::new(refs.len(), |i: int| *refs[i])
}

/// The to-dos of `todos` that pass the simple filters of `search`, in their
/// order. `due` is compared with the due date as it is written, so it has to
/// be a date of the form `YYYY-MM-DD` to match anything.
pub fn refine<'a>(
    todos: &'a [Todo],
    tag: Option<&str>,
    project: Option<&str>,
    due: Option<&str>,
) -> (r: Vec<&'a Todo>)
    ensures
        pointed(r@) == refined(todos@, slice_text(tag), slice_text(project), slice_text(due)),
{
    let mut out: Vec<&'a Todo> = Vec::new();
    let mut i: usize = 0;
    let ghost t = slice_text(tag);
    let ghost p = slice_text(project);
    let ghost d = slice_text(due);
    proof {
        assert(todos@.take(0) =~= Seq::<Todo>::empty());
        assert(pointed(out@) =~= refined(todos@.take(0), t, p, d));
    }
    while i < todos.len()
        invariant
            i <= todos.len(),
            t == slice_text(tag),
            p == slice_text(project),
            d == slice_text(due),
            pointed(out@) == refined(todos@.take(i as int), t, p, d),
        decreases todos.len() - i,
    {
        let todo = &todos[i];
        let ghost before = pointed(out@);
        proof {
            assert(todos@.take(i + 1).drop_last() =~= todos@.take(i as int));
        }
        if passes_filters(todo, tag, project, due) {
            out.push(todo);
            proof {
                assert(pointed(out@) =~= before.push(*todo));
            }
        }
        i += 1;
    }
    proof {
        assert(todos@.take(todos@.len() as int) =~= todos@);
    }
    out
}

/// The date of the form `YYYY-MM-DD` that the `--due` argument names on the
/// day `today`, where the argument is given.
pub open spec fn due_text(due: Option<&str>, today: Date) -> Option<Seq<char>> {
    match due {
        Some(d) => Some(crate::cli::args::date_text(d@, lowercase(d@), today)),
        None => None,
    }
}

/// The to-dos of `todos` that pass the simple filters of `search`, where
/// `due` may also be `today` or `tomorrow`, by the local clock.
pub fn search_results<'a>(
    todos: &'a [Todo],
    tag: Option<&str>,
    project: Option<&str>,
    due: Option<&str>,
) -> (r: Vec<&'a Todo>)
    ensures
        due is None ==> pointed(r@) == refined(todos@, slice_text(tag), slice_text(project), None),
        due is Some ==> exists|today: Date|
            pointed(r@) == refined(
                todos@,
                slice_text(tag),
                slice_text(project),
                due_text(due, today),
            ),
{
    match due {
        Some(d) => {
            let resolved = parse_date(d);
            let r = refine(todos, tag, project, Some(resolved.as_str()));
            proof {
                let today = choose|today: Date|
                    resolved@ == crate::cli::args::date_text(d@, lowercase(d@), today);
                assert(due_text(due, today) == Some(resolved@));
            }
            r
        },
        None => refine(todos, tag, project, None),
    }
}

/// The title over the results of a search.
pub fn search_title(query: Option<&str>) -> (r: String)
    ensures
        r@ == match query {
            Some(q) => "Search: \""@ + q@ + "\""@,
            None => "Search Results"@,
        },
{
    match query {
        Some(q) => fill1("Search: \"", q, "\""),
        None => "Search Results".to_owned(),
    }
}

/// What the `open` command has to do: the script that shows `target` in the
/// application, and what to tell the user after it.
pub fn open(client: &ThingsClient, target: &str) -> (r: Action)
    ensures
        r.script@ == open_script(lowercase(target@), capitalized(target@), target@),
        r.done@ == "Opened: "@ + target@,
{
    Action { script: client.open(target), done: after("Opened: ", target) }
}

} // verus!
