use clings::error::ClingsError;
use clings::things::client::{
    answer, capitalize, open_script_for, with_first, BridgeOutput, Lookup, ThingsClient,
};
use clings::things::javascript::quote_plainly;
use clings::things::types::{BatchResult, ListView, Todo};

fn found(lookup: Lookup<BatchResult>) -> BatchResult {
    match lookup {
        Lookup::Found(result) => result,
        Lookup::Ask(script) => panic!("expected a result, got the script {script}"),
    }
}

fn asked<T>(lookup: Lookup<T>) -> String {
    match lookup {
        Lookup::Found(_) => panic!("expected a script"),
        Lookup::Ask(script) => script,
    }
}

// ==================== js_string ====================

#[test]
fn test_js_string_simple() {
    assert_eq!(ThingsClient::js_string("hello"), "\"hello\"");
}

#[test]
fn test_js_string_with_single_quote() {
    assert_eq!(ThingsClient::js_string("it's"), "\"it's\"");
}

#[test]
fn test_js_string_with_double_quote() {
    assert_eq!(
        ThingsClient::js_string("say \"hello\""),
        "\"say \\\"hello\\\"\""
    );
}

#[test]
fn test_js_string_with_backslash() {
    assert_eq!(ThingsClient::js_string("back\\slash"), "\"back\\\\slash\"");
}

#[test]
fn test_js_string_with_newline() {
    assert_eq!(ThingsClient::js_string("line1\nline2"), "\"line1\\nline2\"");
}

#[test]
fn test_js_string_with_carriage_return() {
    assert_eq!(ThingsClient::js_string("line1\rline2"), "\"line1\\rline2\"");
}

#[test]
fn test_js_string_with_tab() {
    assert_eq!(ThingsClient::js_string("col1\tcol2"), "\"col1\\tcol2\"");
}

#[test]
fn test_js_string_empty() {
    assert_eq!(ThingsClient::js_string(""), "\"\"");
}

#[test]
fn test_js_string_complex() {
    assert_eq!(
        ThingsClient::js_string("it's a \"test\"\nwith\ttabs"),
        "\"it's a \\\"test\\\"\\nwith\\ttabs\""
    );
}

#[test]
fn test_js_string_unicode() {
    assert_eq!(ThingsClient::js_string(""), "\"\"");
}

#[test]
fn test_js_string_emoji() {
    assert_eq!(ThingsClient::js_string(" Warning"), "\" Warning\"");
    assert_eq!(
        ThingsClient::js_string(" Under Armour"),
        "\" Under Armour\""
    );
}

#[test]
fn js_string_keeps_characters_outside_ascii() {
    assert_eq!(ThingsClient::js_string("\u{26a0}\u{fe0f} Warning"), "\"\u{26a0}\u{fe0f} Warning\"");
    assert_eq!(ThingsClient::js_string("caf\u{e9}"), "\"caf\u{e9}\"");
    assert_eq!(ThingsClient::js_string("\u{1f600}"), "\"\u{1f600}\"");
}

#[test]
fn js_string_escapes_control_characters() {
    assert_eq!(ThingsClient::js_string("\u{8}"), "\"\\b\"");
    assert_eq!(ThingsClient::js_string("\u{c}"), "\"\\f\"");
    assert_eq!(ThingsClient::js_string("\u{0}"), "\"\\u0000\"");
    assert_eq!(ThingsClient::js_string("\u{1}"), "\"\\u0001\"");
    assert_eq!(ThingsClient::js_string("\u{b}"), "\"\\u000b\"");
    assert_eq!(ThingsClient::js_string("\u{1b}"), "\"\\u001b\"");
    assert_eq!(ThingsClient::js_string("\u{1f}"), "\"\\u001f\"");
    assert_eq!(ThingsClient::js_string("\u{7f}"), "\"\u{7f}\"");
    assert_eq!(ThingsClient::js_string("/"), "\"/\"");
}

#[test]
fn quote_plainly_escapes_five_characters() {
    assert_eq!(quote_plainly("a\\b\"c\nd\re\tf"), "\"a\\\\b\\\"c\\nd\\re\\tf\"");
    assert_eq!(quote_plainly(""), "\"\"");
    assert_eq!(quote_plainly("\u{1}x\u{e9}"), "\"\u{1}x\u{e9}\"");
}

// ==================== js_string_array ====================

#[test]
fn test_js_string_array_empty() {
    let items: Vec<String> = vec![];
    assert_eq!(ThingsClient::js_string_array(&items), "[]");
}

#[test]
fn test_js_string_array_single() {
    let items = vec!["hello".to_string()];
    assert_eq!(ThingsClient::js_string_array(&items), "[\"hello\"]");
}

#[test]
fn test_js_string_array_multiple() {
    let items = vec!["one".to_string(), "two".to_string(), "three".to_string()];
    assert_eq!(
        ThingsClient::js_string_array(&items),
        "[\"one\", \"two\", \"three\"]"
    );
}

#[test]
fn test_js_string_array_with_escapes() {
    let items = vec!["it's".to_string(), "a\ntest".to_string()];
    assert_eq!(
        ThingsClient::js_string_array(&items),
        "[\"it's\", \"a\\ntest\"]"
    );
}

// ==================== capitalize ====================

#[test]
fn test_capitalize_lowercase() {
    assert_eq!(capitalize("hello"), "Hello");
}

#[test]
fn test_capitalize_already_uppercase() {
    assert_eq!(capitalize("Hello"), "Hello");
}

#[test]
fn test_capitalize_all_uppercase() {
    assert_eq!(capitalize("HELLO"), "HELLO");
}

#[test]
fn test_capitalize_empty() {
    assert_eq!(capitalize(""), "");
}

#[test]
fn test_capitalize_single_char() {
    assert_eq!(capitalize("a"), "A");
    assert_eq!(capitalize("A"), "A");
}

#[test]
fn test_capitalize_unicode() {
    assert_eq!(capitalize("\u{e9}oo"), "\u{c9}oo");
}

#[test]
fn capitalize_can_lengthen_the_text() {
    // The upper-case form of the sharp s is two letters.
    assert_eq!(capitalize("\u{df}a"), "SSa");
}

#[test]
fn with_first_replaces_the_first_character() {
    assert_eq!(with_first("XY", "abc"), "XYbc");
    assert_eq!(with_first("X", ""), "X");
    assert_eq!(with_first("", "\u{e9}a"), "a");
}

// ==================== client ====================

#[test]
fn test_client_default() {
    let client = ThingsClient::default();
    let _ = client;
}

#[test]
fn test_client_new() {
    let client = ThingsClient::new();
    let _ = client;
}

#[test]
fn test_stats_command_exists() {
    let _client = ThingsClient::new();
}

// ==================== batches without items ====================

#[test]
fn test_complete_todos_batch_empty_returns_default() {
    let client = ThingsClient::new();
    let ids: Vec<String> = vec![];
    let result = found(client.complete_todos_batch(&ids));
    assert_eq!(result.succeeded, 0);
    assert_eq!(result.failed, 0);
    assert!(result.errors.is_empty());
}

#[test]
fn test_cancel_todos_batch_empty_returns_default() {
    let client = ThingsClient::new();
    let ids: Vec<String> = vec![];
    let result = found(client.cancel_todos_batch(&ids));
    assert_eq!(result.succeeded, 0);
    assert_eq!(result.failed, 0);
    assert!(result.errors.is_empty());
}

#[test]
fn test_add_tags_batch_empty_returns_default() {
    let client = ThingsClient::new();
    let ids: Vec<String> = vec![];
    let tags = vec!["tag1".to_string()];
    let result = found(client.add_tags_batch(&ids, &tags));
    assert_eq!(result.succeeded, 0);
    assert_eq!(result.failed, 0);
}

#[test]
fn test_move_todos_batch_empty_returns_default() {
    let client = ThingsClient::new();
    let ids: Vec<String> = vec![];
    let result = found(client.move_todos_batch(&ids, "Project"));
    assert_eq!(result.succeeded, 0);
    assert_eq!(result.failed, 0);
}

#[test]
fn test_update_todos_due_batch_empty_returns_default() {
    let client = ThingsClient::new();
    let ids: Vec<String> = vec![];
    let result = found(client.update_todos_due_batch(&ids, "2024-12-15"));
    assert_eq!(result.succeeded, 0);
    assert_eq!(result.failed, 0);
}

#[test]
fn test_clear_todos_due_batch_empty_returns_default() {
    let client = ThingsClient::new();
    let ids: Vec<String> = vec![];
    let result = found(client.clear_todos_due_batch(&ids));
    assert_eq!(result.succeeded, 0);
    assert_eq!(result.failed, 0);
}

#[test]
fn batches_with_items_ask_for_a_script() {
    let client = ThingsClient::new();
    let ids = vec!["A1".to_string(), "B\"2".to_string()];
    let script = asked(client.complete_todos_batch(&ids));
    assert!(script.starts_with("(() => {\n    const Things = Application('Things3');\n"));
    assert!(script.contains("const ids = [\"A1\", \"B\\\"2\"];"));
    assert!(script.contains("todo.status = 'completed';"));
    assert!(script.ends_with("return JSON.stringify({ succeeded, failed, errors });\n})()"));

    let script = asked(client.cancel_todos_batch(&ids));
    assert!(script.contains("todo.status = 'canceled';"));

    let tags = vec!["x".to_string(), "y".to_string()];
    let script = asked(client.add_tags_batch(&ids, &tags));
    assert!(script.contains("const newTags = \"x, y\";"));

    let script = asked(client.move_todos_batch(&ids, "Big \"P\""));
    assert!(script.contains("Things.projects.whose({ name: \"Big \\\"P\\\"\" })"));

    let script = asked(client.update_todos_due_batch(&ids, "2024-12-15"));
    assert!(script.contains("const dueDate = new Date('2024-12-15');"));

    let script = asked(client.clear_todos_due_batch(&ids));
    assert!(script.contains("todo.dueDate = null;"));
}

// ==================== the script of add_todo ====================

fn generate_add_todo_script(
    title: &str,
    notes: Option<&str>,
    when_date: Option<&str>,
    deadline: Option<&str>,
    tags: Option<&[String]>,
    list: Option<&str>,
    area: Option<&str>,
    checklist: Option<&[String]>,
) -> String {
    ThingsClient::new().add_todo(title, notes, when_date, deadline, tags, list, area, checklist)
}

#[test]
fn test_add_todo_script_basic() {
    let script = generate_add_todo_script("Buy milk", None, None, None, None, None, None, None);
    assert!(script.contains("const props = { name: \"Buy milk\" }"));
    assert!(script.contains("Things.make({ new: 'toDo', withProperties: props })"));
}

#[test]
fn add_todo_script_without_options_is_exact() {
    let script = generate_add_todo_script("Buy milk", None, None, None, None, None, None, None);
    assert_eq!(
        script,
        "(() => {\n    const Things = Application('Things3');\n    const props = { name: \"Buy milk\" };\n    \n    \n    \n    const todo = Things.make({ new: 'toDo', withProperties: props });\n    \n    \n    \n    \n    return JSON.stringify({ id: todo.id(), name: todo.name() });\n})()"
    );
}

#[test]
fn test_add_todo_script_with_notes() {
    let script =
        generate_add_todo_script("Task", Some("My notes"), None, None, None, None, None, None);
    assert!(script.contains("props.notes = \"My notes\""));
}

#[test]
fn test_add_todo_script_with_when_date_uses_schedule() {
    let script = generate_add_todo_script(
        "Task",
        None,
        Some("2024-12-15"),
        None,
        None,
        None,
        None,
        None,
    );
    assert!(script.contains("Things.schedule(todo, { for: new Date('2024-12-15') })"));
    assert!(!script.contains("props.dueDate = new Date('2024-12-15')"));
}

#[test]
fn test_add_todo_script_with_deadline_uses_due_date() {
    let script = generate_add_todo_script(
        "Task",
        None,
        None,
        Some("2024-12-20"),
        None,
        None,
        None,
        None,
    );
    assert!(script.contains("props.dueDate = new Date('2024-12-20')"));
    assert!(!script.contains("Things.schedule"));
}

#[test]
fn test_add_todo_script_with_both_when_and_deadline() {
    let script = generate_add_todo_script(
        "Task",
        None,
        Some("2024-12-15"),
        Some("2024-12-20"),
        None,
        None,
        None,
        None,
    );
    assert!(script.contains("Things.schedule(todo, { for: new Date('2024-12-15') })"));
    assert!(script.contains("props.dueDate = new Date('2024-12-20')"));
}

#[test]
fn test_add_todo_script_with_tags() {
    let tags = vec!["work".to_string(), "urgent".to_string()];
    let script =
        generate_add_todo_script("Task", None, None, None, Some(&tags), None, None, None);
    assert!(script.contains("props.tagNames = \"work, urgent\""));
}

#[test]
fn test_add_todo_script_with_project() {
    let script = generate_add_todo_script(
        "Task",
        None,
        None,
        None,
        None,
        Some("My Project"),
        None,
        None,
    );
    assert!(script.contains("Things.lists.byName(\"My Project\")"));
    assert!(script.contains("Things.move(todo, { to: targetList })"));
}

#[test]
fn test_add_todo_script_with_area() {
    let script =
        generate_add_todo_script("Task", None, None, None, None, None, Some("Work"), None);
    assert!(script.contains("Things.areas.byName(\"Work\")"));
    assert!(script.contains("todo.area = targetArea"));
}

#[test]
fn test_add_todo_script_area_works_with_project() {
    let script = generate_add_todo_script(
        "Task",
        None,
        None,
        None,
        None,
        Some("My Project"),
        Some("Work"),
        None,
    );
    assert!(script.contains("Things.lists.byName(\"My Project\")"));
    assert!(script.contains("Things.areas.byName(\"Work\")"));
    assert!(script.contains("todo.area = targetArea"));
}

#[test]
fn test_add_todo_script_with_checklist() {
    let checklist = vec!["Item 1".to_string(), "Item 2".to_string()];
    let script =
        generate_add_todo_script("Task", None, None, None, None, None, None, Some(&checklist));
    assert!(script.contains("const checklistItems = [\"Item 1\", \"Item 2\"]"));
    assert!(script
        .contains("Things.make({ new: 'toDo', withProperties: { name: item }, at: todo })"));
}

#[test]
fn test_add_todo_script_with_all_parameters() {
    let tags = vec!["work".to_string()];
    let checklist = vec!["Step 1".to_string()];
    let script = generate_add_todo_script(
        "Complete task",
        Some("Important notes"),
        Some("2024-12-15"),
        Some("2024-12-20"),
        Some(&tags),
        Some("Project X"),
        Some("Work"),
        Some(&checklist),
    );

    assert!(script.contains("const props = { name: \"Complete task\" }"));
    assert!(script.contains("props.notes = \"Important notes\""));
    assert!(script.contains("props.dueDate = new Date('2024-12-20')"));
    assert!(script.contains("props.tagNames = \"work\""));
    assert!(script.contains("Things.schedule(todo, { for: new Date('2024-12-15') })"));
    assert!(script.contains("Things.lists.byName(\"Project X\")"));
    assert!(script.contains("Things.areas.byName(\"Work\")"));
    assert!(script.contains("const checklistItems = [\"Step 1\"]"));
}

#[test]
fn test_add_todo_script_escapes_special_characters() {
    let script = generate_add_todo_script(
        "Task with 'quotes' and\nnewline",
        Some("Notes with\ttabs"),
        None,
        None,
        None,
        None,
        None,
        None,
    );
    assert!(script.contains("\"Task with 'quotes' and\\nnewline\""));
    assert!(script.contains("\"Notes with\\ttabs\""));
}

// ==================== the script of update_todo ====================

fn generate_update_todo_script(
    id: &str,
    title: Option<&str>,
    notes: Option<&str>,
    when_date: Option<&str>,
    deadline: Option<&str>,
    tags: Option<&str>,
    project: Option<&str>,
) -> String {
    ThingsClient::new().update_todo(id, title, notes, when_date, deadline, tags, project, None)
}

#[test]
fn test_update_todo_script_with_title_only() {
    let script =
        generate_update_todo_script("ABC123", Some("New Title"), None, None, None, None, None);
    assert!(script.contains("Things.toDos.byId('ABC123')"));
    assert!(script.contains("todo.name = \"New Title\""));
    assert!(!script.contains("todo.notes"));
    assert!(!script.contains("todo.dueDate"));
    assert!(!script.contains("todo.tagNames"));
    assert!(!script.contains("Things.schedule"));
    assert!(!script.contains("Things.move"));
}

#[test]
fn test_update_todo_script_with_notes_only() {
    let script = generate_update_todo_script(
        "ABC123",
        None,
        Some("Important notes here"),
        None,
        None,
        None,
        None,
    );
    assert!(script.contains("todo.notes = \"Important notes here\""));
    assert!(!script.contains("todo.name ="));
}

#[test]
fn test_update_todo_script_with_deadline_only() {
    let script =
        generate_update_todo_script("ABC123", None, None, None, Some("2024-12-20"), None, None);
    assert!(script.contains("todo.dueDate = new Date('2024-12-20')"));
}

#[test]
fn test_update_todo_script_with_tags_only() {
    let script = generate_update_todo_script(
        "ABC123",
        None,
        None,
        None,
        None,
        Some("work, urgent"),
        None,
    );
    assert!(script.contains("todo.tagNames = \"work, urgent\""));
}

#[test]
fn test_update_todo_script_with_when_only() {
    let script =
        generate_update_todo_script("ABC123", None, None, Some("2024-12-15"), None, None, None);
    assert!(script.contains("Things.schedule(todo, { for: new Date('2024-12-15') })"));
}

#[test]
fn test_update_todo_script_with_project_only() {
    let script =
        generate_update_todo_script("ABC123", None, None, None, None, None, Some("Project X"));
    assert!(script.contains("Things.lists.byName(\"Project X\")"));
    assert!(script.contains("Things.move(todo, { to: targetList })"));
}

#[test]
fn test_update_todo_script_with_all_fields() {
    let script = generate_update_todo_script(
        "ABC123",
        Some("New Title"),
        Some("New notes"),
        Some("2024-12-15"),
        Some("2024-12-20"),
        Some("work, urgent"),
        Some("Project X"),
    );
    assert!(script.contains("Things.toDos.byId('ABC123')"));
    assert!(script.contains("todo.name = \"New Title\""));
    assert!(script.contains("todo.notes = \"New notes\""));
    assert!(script.contains("todo.dueDate = new Date('2024-12-20')"));
    assert!(script.contains("todo.tagNames = \"work, urgent\""));
    assert!(script.contains("Things.schedule(todo, { for: new Date('2024-12-15') })"));
    assert!(script.contains("Things.lists.byName(\"Project X\")"));
    assert!(script.contains("Things.move(todo, { to: targetList })"));
}

#[test]
fn test_update_todo_script_with_no_fields() {
    let script = generate_update_todo_script("ABC123", None, None, None, None, None, None);
    assert!(script.contains("Things.toDos.byId('ABC123')"));
    assert!(script.contains("if (!todo.exists()) throw new Error"));
    assert!(!script.contains("todo.name ="));
    assert!(!script.contains("todo.notes ="));
    assert!(!script.contains("todo.dueDate ="));
    assert!(!script.contains("todo.tagNames ="));
    assert!(!script.contains("Things.schedule"));
    assert!(!script.contains("Things.move"));
}

#[test]
fn update_todo_script_without_fields_is_exact() {
    let script = generate_update_todo_script("ABC123", None, None, None, None, None, None);
    assert_eq!(
        script,
        "(() => {\n    const Things = Application('Things3');\n    const todo = Things.toDos.byId('ABC123');\n    if (!todo.exists()) throw new Error('Can\\'t get todo');\n    \n    \n    \n    \n    \n    \n    \n})()"
    );
}

#[test]
fn test_update_todo_script_escapes_special_characters() {
    let script = generate_update_todo_script(
        "ABC123",
        Some("Title with 'quotes'"),
        Some("Notes with\nnewline"),
        None,
        None,
        None,
        None,
    );
    assert!(script.contains("\"Title with 'quotes'\""));
    assert!(script.contains("\"Notes with\\nnewline\""));
}

#[test]
fn test_update_todo_script_handles_emoji_in_project() {
    let script = generate_update_todo_script(
        "ABC123",
        None,
        None,
        None,
        None,
        None,
        Some(" Under Armour"),
    );
    assert!(script.contains("Things.lists.byName(\" Under Armour\")"));
}

#[test]
fn update_todo_script_sets_the_area() {
    let script = ThingsClient::new().update_todo(
        "ABC123",
        None,
        None,
        None,
        None,
        None,
        None,
        Some("Home"),
    );
    assert!(script.contains("const targetArea = Things.areas.byName(\"Home\");"));
    assert!(script.contains("todo.area = targetArea;"));
}

// ==================== ListView ====================

#[test]
fn test_listview_as_str_variants() {
    assert_eq!(ListView::Inbox.as_str(), "Inbox");
    assert_eq!(ListView::Today.as_str(), "Today");
    assert_eq!(ListView::Upcoming.as_str(), "Upcoming");
    assert_eq!(ListView::Anytime.as_str(), "Anytime");
    assert_eq!(ListView::Someday.as_str(), "Someday");
    assert_eq!(ListView::Logbook.as_str(), "Logbook");
    assert_eq!(ListView::Trash.as_str(), "Trash");
}

// ==================== the other scripts ====================

#[test]
fn simple_scripts_are_exact() {
    let client = ThingsClient::new();
    assert_eq!(
        client.complete_todo("X1"),
        "(() => {\n    const Things = Application('Things3');\n    const todo = Things.toDos.byId('X1');\n    if (!todo.exists()) throw new Error('Can\\'t get todo');\n    todo.status = 'completed';\n})()"
    );
    assert_eq!(
        client.cancel_todo("X1"),
        "(() => {\n    const Things = Application('Things3');\n    const todo = Things.toDos.byId('X1');\n    if (!todo.exists()) throw new Error('Can\\'t get todo');\n    todo.status = 'canceled';\n})()"
    );
    assert_eq!(client.delete_todo("X1"), client.cancel_todo("X1"));
    assert_eq!(
        client.clear_todo_due("X1"),
        "(() => {\n    const Things = Application('Things3');\n    const todo = Things.toDos.byId('X1');\n    if (!todo.exists()) throw new Error('Can\\'t get todo');\n    todo.dueDate = null;\n})()"
    );
    assert_eq!(
        client.update_todo_due("X1", "2025-01-02"),
        "(() => {\n    const Things = Application('Things3');\n    const todo = Things.toDos.byId('X1');\n    if (!todo.exists()) throw new Error('Can\\'t get todo');\n    todo.dueDate = new Date('2025-01-02');\n})()"
    );
    assert_eq!(
        client.move_to_someday("X1"),
        "(() => {\n    const Things = Application('Things3');\n    const todo = Things.toDos.byId('X1');\n    if (!todo.exists()) throw new Error('Can\\'t get todo');\n    const somedayList = Things.lists.byName('Someday');\n    Things.move(todo, { to: somedayList });\n})()"
    );
    assert_eq!(
        client.update_todo_tags("X1", "a, b"),
        "(() => {\n    const Things = Application('Things3');\n    const todo = Things.toDos.byId('X1');\n    if (!todo.exists()) throw new Error('Can\\'t get todo');\n    const currentTags = todo.tagNames() || '';\n    const newTags = currentTags ? currentTags + ', ' + \"a, b\" : \"a, b\";\n    todo.tagNames = newTags;\n})()"
    );
}

#[test]
fn scripts_name_what_they_are_given() {
    let client = ThingsClient::new();
    assert!(client.get_list_jxa(ListView::Upcoming).contains("Things.lists.byName('Upcoming');"));
    assert!(client.get_todo_jxa("T-9").contains("Things.toDos.byId('T-9');"));
    assert!(client.search_jxa("Milk \"2%\"").contains("const query = \"Milk \\\"2%\\\"\".toLowerCase();"));
    assert!(client
        .move_todo_to_list("T-9", "Errands")
        .contains("const targetList = Things.lists.byName(\"Errands\");"));
    assert!(client
        .get_project_by_name("Q4")
        .contains("const projects = Things.projects.whose({ name: \"Q4\" });"));
    assert!(client.get_project_todos_jxa("Q4").contains("whose({ name: \"Q4\" })"));
    assert!(client.get_project_headings("Q4").contains("whose({ name: \"Q4\" })"));
    assert!(client
        .add_heading_to_project("J1", "Later")
        .contains("Things.make({ new: 'heading', withProperties: { name: \"Later\" }, at: project });"));
    assert!(client.get_projects_jxa().contains("const projects = Things.projects();"));
    assert!(client.get_areas_jxa().contains("const areas = Things.areas();"));
    assert!(client.get_tags_jxa().contains("const tags = Things.tags();"));
    assert!(client.get_all_todos_jxa().contains("const todos = Things.toDos();"));
    assert!(client.get_all_lists().contains("logbook: []"));
    assert!(!client.get_open_lists().contains("logbook"));
}

#[test]
fn add_project_script_is_exact() {
    let client = ThingsClient::new();
    let tags = vec!["a".to_string(), "b".to_string()];
    assert_eq!(
        client.add_project("Plan", Some("n"), Some("Work"), Some(&tags), Some("2025-03-04")),
        "(() => {\n    const Things = Application('Things3');\n    const props = { name: \"Plan\" };\n    props.notes = \"n\";\n    props.dueDate = new Date('2025-03-04');\n    props.tagNames = \"a, b\";\n    const project = Things.make({ new: 'project', withProperties: props });\n    \n    const targetArea = Things.areas.byName(\"Work\");\n    if (targetArea.exists()) {\n        project.area = targetArea;\n    }\n    return JSON.stringify({ id: project.id(), name: project.name() });\n})()"
    );
    assert_eq!(
        client.create_project_with_structure("Plan", None, None, None),
        client.add_project("Plan", None, None, None, None)
    );
}

#[test]
fn project_structure_orders_its_scripts() {
    let client = ThingsClient::new();
    let todo = |title: &str| (title.to_string(), None, None, Vec::new());
    let roots = vec![todo("r1"), todo("r2")];
    let headings = vec![
        ("H1".to_string(), vec![todo("a"), todo("b")]),
        ("H2".to_string(), vec![]),
        ("H3".to_string(), vec![todo("c")]),
    ];
    let scripts = client.project_structure("J1", &headings, &roots);
    assert_eq!(scripts.len(), 8);
    assert_eq!(scripts[0], client.add_todo_to_project("J1", "r1", None, None, Some(&[])));
    assert_eq!(scripts[1], client.add_todo_to_project("J1", "r2", None, None, Some(&[])));
    assert_eq!(scripts[2], client.add_heading_to_project("J1", "H1"));
    assert_eq!(scripts[3], client.add_todo_to_heading("J1", "H1", "a", None, None, Some(&[])));
    assert_eq!(scripts[4], client.add_todo_to_heading("J1", "H1", "b", None, None, Some(&[])));
    assert_eq!(scripts[5], client.add_heading_to_project("J1", "H2"));
    assert_eq!(scripts[6], client.add_heading_to_project("J1", "H3"));
    assert_eq!(scripts[7], client.add_todo_to_heading("J1", "H3", "c", None, None, Some(&[])));
    assert!(scripts[0].contains("props.tagNames = \"\";"));
    assert!(client.project_structure("J1", &[], &[]).is_empty());
}

#[test]
fn open_shows_lists_by_name_and_items_by_identifier() {
    let client = ThingsClient::new();
    assert_eq!(
        client.open("today"),
        "(() => {\n    const Things = Application('Things3');\n    Things.activate();\n    Things.show(Things.lists.byName('Today'));\n})()"
    );
    assert!(client.open("LOGBOOK").contains("Things.lists.byName('LOGBOOK')"));
    assert!(client.open("Trash").contains("Things.lists.byName('Trash')"));
    let item = client.open("ABC123");
    assert!(item.contains("const todo = Things.toDos.byId('ABC123');"));
    assert!(item.contains("const project = Things.projects.byId('ABC123');"));
    assert!(client.open("areas").contains("Things.toDos.byId('areas')"));
}

#[test]
fn lookups_prefer_what_the_data_store_gave() {
    let client = ThingsClient::new();
    let todos = vec![Todo::new("1", "one")];
    assert_eq!(client.get_list(ListView::Today, Ok(todos.clone())), Lookup::Found(todos.clone()));
    assert_eq!(
        client.get_list(ListView::Today, Err(ClingsError::Database("closed".to_string()))),
        Lookup::Ask(client.get_list_jxa(ListView::Today))
    );
    assert_eq!(client.get_todo("1", Ok(todos[0].clone())), Lookup::Found(todos[0].clone()));
    assert_eq!(
        asked(client.get_todo("1", Err(ClingsError::Database("closed".to_string())))),
        client.get_todo_jxa("1")
    );
    assert_eq!(asked(client.get_projects(Err(ClingsError::ThingsNotRunning))), client.get_projects_jxa());
    assert_eq!(asked(client.get_areas(Err(ClingsError::ThingsNotRunning))), client.get_areas_jxa());
    assert_eq!(asked(client.get_tags(Err(ClingsError::ThingsNotRunning))), client.get_tags_jxa());
    assert_eq!(asked(client.search("x", Err(ClingsError::ThingsNotRunning))), client.search_jxa("x"));
    assert_eq!(
        asked(client.get_project_todos("P", Err(ClingsError::ThingsNotRunning))),
        client.get_project_todos_jxa("P")
    );
    assert_eq!(asked(client.get_all_todos(Err(ClingsError::ThingsNotRunning))), client.get_all_todos_jxa());
    assert_eq!(client.get_all_todos(Ok(todos.clone())), Lookup::Found(todos));
}

#[test]
fn execute_reads_the_output_of_the_bridge() {
    let client = ThingsClient::new();
    let output = |success: bool, stdout: &str, stderr: &str| BridgeOutput {
        success,
        stdout: stdout.to_string(),
        stderr: stderr.to_string(),
    };
    assert_eq!(client.execute(&output(true, "  {\"id\": 1}\n", "")), Ok("{\"id\": 1}".to_string()));
    assert_eq!(client.execute(&output(true, " \n\t", "ignored")), Ok("[]".to_string()));
    assert_eq!(client.execute(&output(true, "", "")), Ok("[]".to_string()));
    assert_eq!(
        client.execute(&output(false, "[1]", "Things3 is not running")),
        Err(ClingsError::ThingsNotRunning)
    );
    assert_eq!(client.execute_void(&output(true, "anything", "anything")), Ok(()));
    assert_eq!(
        client.execute_void(&output(false, "", "boom")),
        Err(ClingsError::Script("boom".to_string()))
    );
}

#[test]
fn answer_is_an_empty_list_for_no_output() {
    assert_eq!(answer(""), "[]");
    assert_eq!(answer("{}"), "{}");
    assert_eq!(answer(" "), " ");
}

#[test]
fn open_script_for_goes_by_the_lower_case_form() {
    let client = ThingsClient::new();
    assert_eq!(open_script_for("today", "Today", "TODAY"), client.open("Today"));
    assert!(open_script_for("inbox", "X", "y").contains("Things.lists.byName('X')"));
    assert!(open_script_for("Inbox", "X", "y").contains("Things.toDos.byId('y')"));
    for list in ["inbox", "today", "upcoming", "anytime", "someday", "logbook", "trash"] {
        assert!(open_script_for(list, "L", "t").contains("Things.show(Things.lists.byName('L'));"));
    }
}
