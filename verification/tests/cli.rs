use chrono::Datelike;
use clings::cli::args::{
    parse_date, resolve_date_text, AddProjectArgs, OutputFormat, ProjectCommands, ShellCommands,
    StatsArgs, TodoCommands, DEFAULT_BULK_LIMIT,
};
use clings::cli::commands::bulk::{
    check_bulk_safety, confirm, ids_of, plan_bulk, summarize, BulkPlan, BulkSafetyOptions,
    Safety,
};
use clings::cli::commands::list::ListTarget;
use clings::cli::commands::shell::{shell_from_str, ShellKind, ShellPlan};
use clings::cli::commands::stats::{completions_on, daily_counts, heatmap_counts, StatsView};
use clings::cli::commands::{
    add_project, bulk_cancel, bulk_complete, bulk_move, bulk_tag, created_project, find_project,
    list, open, project, project_details, refine, search, search_results, search_title,
    search_with_filter, shell, stats, todo, Action, ProjectPlan, SearchPlan, TodoPlan,
};
use clings::date::Date;
use clings::error::ClingsError;
use clings::things::client::ThingsClient;
use clings::things::types::{BatchError, BatchResult, CreateResponse, ListView, Project, Status, Todo};

fn date(year: i32, month: u8, day: u8) -> Date {
    Date { year, month, day }
}

fn names<'a>(found: &[&'a Todo]) -> Vec<&'a str> {
    found.iter().map(|t| t.name.as_str()).collect()
}

// ==================== parse_date ====================

#[test]
fn test_parse_date_today() {
    let result = parse_date("today");
    let expected = chrono::Local::now()
        .date_naive()
        .format("%Y-%m-%d")
        .to_string();
    assert_eq!(result, expected);
}

#[test]
fn test_parse_date_tomorrow() {
    let result = parse_date("tomorrow");
    let expected = (chrono::Local::now().date_naive() + chrono::Duration::days(1))
        .format("%Y-%m-%d")
        .to_string();
    assert_eq!(result, expected);
}

#[test]
fn test_parse_date_passthrough() {
    assert_eq!(parse_date("2024-12-15"), "2024-12-15");
    assert_eq!(parse_date("next monday"), "next monday");
}

#[test]
fn parse_date_ignores_case() {
    let today = chrono::Local::now().date_naive();
    let written = format!("{:04}-{:02}-{:02}", today.year(), today.month(), today.day());
    assert_eq!(parse_date("TODAY"), written);
    assert_eq!(parse_date("Today"), written);
    assert_eq!(parse_date(" today"), " today");
    assert_eq!(parse_date(""), "");
}

#[test]
fn resolve_date_text_writes_dates() {
    let day = date(2024, 2, 28);
    assert_eq!(resolve_date_text("today", "today", day), "2024-02-28");
    assert_eq!(resolve_date_text("Tomorrow", "tomorrow", day), "2024-02-29");
    assert_eq!(resolve_date_text("tomorrow", "tomorrow", date(2023, 2, 28)), "2023-03-01");
    assert_eq!(resolve_date_text("tomorrow", "tomorrow", date(1999, 12, 31)), "2000-01-01");
    assert_eq!(resolve_date_text("next week", "next week", day), "next week");
    // The lower-case form decides, the text as written is what stays.
    assert_eq!(resolve_date_text("TODAY", "TODAY", day), "TODAY");
    assert_eq!(resolve_date_text("x", "today", day), "2024-02-28");
    assert_eq!(
        resolve_date_text("tomorrow", "tomorrow", date(i32::MAX, 12, 31)),
        "tomorrow"
    );
}

// ==================== list ====================

#[test]
fn test_list_target_from_str() {
    assert_eq!(ListTarget::from_str("today"), Some(ListTarget::Today));
    assert_eq!(ListTarget::from_str("t"), Some(ListTarget::Today));
    assert_eq!(ListTarget::from_str("inbox"), Some(ListTarget::Inbox));
    assert_eq!(ListTarget::from_str("i"), Some(ListTarget::Inbox));
    assert_eq!(ListTarget::from_str("upcoming"), Some(ListTarget::Upcoming));
    assert_eq!(ListTarget::from_str("u"), Some(ListTarget::Upcoming));
    assert_eq!(ListTarget::from_str("anytime"), Some(ListTarget::Anytime));
    assert_eq!(ListTarget::from_str("someday"), Some(ListTarget::Someday));
    assert_eq!(ListTarget::from_str("s"), Some(ListTarget::Someday));
    assert_eq!(ListTarget::from_str("logbook"), Some(ListTarget::Logbook));
    assert_eq!(ListTarget::from_str("l"), Some(ListTarget::Logbook));
    assert_eq!(ListTarget::from_str("areas"), Some(ListTarget::Areas));
    assert_eq!(ListTarget::from_str("tags"), Some(ListTarget::Tags));
    assert_eq!(ListTarget::from_str("projects"), Some(ListTarget::Projects));
    assert_eq!(ListTarget::from_str("invalid"), None);
}

#[test]
fn test_list_target_case_insensitive() {
    assert_eq!(ListTarget::from_str("TODAY"), Some(ListTarget::Today));
    assert_eq!(ListTarget::from_str("Today"), Some(ListTarget::Today));
    assert_eq!(ListTarget::from_str("INBOX"), Some(ListTarget::Inbox));
}

#[test]
fn list_target_lower_case_is_that_of_unicode() {
    // The Kelvin sign becomes the letter k in lower case.
    assert_eq!(ListTarget::from_str("LOGBOO\u{212a}"), Some(ListTarget::Logbook));
    assert_eq!(ListTarget::from_lowered("LOGBOOK"), None);
    assert_eq!(ListTarget::from_lowered("logbook"), Some(ListTarget::Logbook));
    assert_eq!(ListTarget::from_str("a"), None);
    assert_eq!(ListTarget::from_str(""), None);
    assert_eq!(ListTarget::from_str("today "), None);
}

#[test]
fn test_list_target_default() {
    assert_eq!(ListTarget::default(), ListTarget::Today);
}

#[test]
fn test_list_target_display_name() {
    assert_eq!(ListTarget::Today.display_name(), "Today");
    assert_eq!(ListTarget::Inbox.display_name(), "Inbox");
    assert_eq!(ListTarget::Upcoming.display_name(), "Upcoming");
    assert_eq!(ListTarget::Areas.display_name(), "Areas");
}

#[test]
fn list_targets_show_lists_or_collections() {
    assert_eq!(ListTarget::Anytime.display_name(), "Anytime");
    assert_eq!(ListTarget::Someday.display_name(), "Someday");
    assert_eq!(ListTarget::Logbook.display_name(), "Logbook");
    assert_eq!(ListTarget::Tags.display_name(), "Tags");
    assert_eq!(ListTarget::Projects.display_name(), "Projects");
    assert_eq!(ListTarget::Today.list_view(), Some(ListView::Today));
    assert_eq!(ListTarget::Inbox.list_view(), Some(ListView::Inbox));
    assert_eq!(ListTarget::Upcoming.list_view(), Some(ListView::Upcoming));
    assert_eq!(ListTarget::Anytime.list_view(), Some(ListView::Anytime));
    assert_eq!(ListTarget::Someday.list_view(), Some(ListView::Someday));
    assert_eq!(ListTarget::Logbook.list_view(), Some(ListView::Logbook));
    assert_eq!(ListTarget::Areas.list_view(), None);
    assert_eq!(ListTarget::Tags.list_view(), None);
    assert_eq!(ListTarget::Projects.list_view(), None);
}

#[test]
fn list_takes_today_by_default_and_refuses_unknown_views() {
    assert_eq!(list(None), Ok(ListTarget::Today));
    assert_eq!(list(Some("Inbox")), Ok(ListTarget::Inbox));
    assert_eq!(list(Some("projects")), Ok(ListTarget::Projects));
    assert_eq!(
        list(Some("Trash")),
        Err(ClingsError::InvalidArgument(
            "Unknown list view: 'Trash'. Valid options: today, inbox, upcoming, anytime, someday, logbook, areas, tags, projects"
                .to_string()
        ))
    );
}

#[test]
fn output_format_is_pretty_by_default() {
    assert_eq!(OutputFormat::default(), OutputFormat::Pretty);
    assert_eq!(DEFAULT_BULK_LIMIT, 50);
}

// ==================== todo, project, open ====================

#[test]
fn todo_says_what_to_run_and_what_to_tell() {
    let client = ThingsClient::new();
    let id = || "ABC".to_string();
    assert_eq!(todo(&client, TodoCommands::Show { id: id() }), TodoPlan::Show { id: id() });
    assert_eq!(
        todo(&client, TodoCommands::Complete { id: id() }),
        TodoPlan::Act(Action {
            script: client.complete_todo("ABC"),
            done: "Completed todo: ABC".to_string(),
        })
    );
    assert_eq!(
        todo(&client, TodoCommands::Cancel { id: id() }),
        TodoPlan::Act(Action {
            script: client.cancel_todo("ABC"),
            done: "Canceled todo: ABC".to_string(),
        })
    );
    assert_eq!(
        todo(&client, TodoCommands::Delete { id: id() }),
        TodoPlan::Act(Action {
            script: client.cancel_todo("ABC"),
            done: "Canceled todo: ABC (Things API doesn't support true deletion)".to_string(),
        })
    );
    assert_eq!(
        todo(
            &client,
            TodoCommands::Update {
                id: id(),
                title: Some("T".to_string()),
                notes: None,
                when: Some("2025-01-01".to_string()),
                deadline: None,
                tags: Some("a, b".to_string()),
                project: None,
                area: Some("Home".to_string()),
            }
        ),
        TodoPlan::Act(Action {
            script: client.update_todo(
                "ABC",
                Some("T"),
                None,
                Some("2025-01-01"),
                None,
                Some("a, b"),
                None,
                Some("Home")
            ),
            done: "Updated todo: ABC".to_string(),
        })
    );
}

fn sample_project() -> Project {
    Project {
        id: "J1".to_string(),
        name: "Plan".to_string(),
        notes: "Think first".to_string(),
        status: Status::Open,
        area: Some("Work".to_string()),
        tags: vec!["a".to_string(), "b".to_string()],
        due_date: Some(date(2025, 3, 4)),
        creation_date: None,
    }
}

#[test]
fn project_says_what_to_do() {
    let client = ThingsClient::new();
    assert_eq!(project(&client, ProjectCommands::List), ProjectPlan::List);
    assert_eq!(
        project(&client, ProjectCommands::Show { id: "J1".to_string() }),
        ProjectPlan::Show { id: "J1".to_string() }
    );
    let args = || AddProjectArgs {
        title: "Plan".to_string(),
        notes: Some("n".to_string()),
        area: None,
        tags: Some(vec!["a".to_string(), "b".to_string()]),
        due: Some("2025-03-04".to_string()),
    };
    let tags = vec!["a".to_string(), "b".to_string()];
    let script = client.add_project("Plan", Some("n"), None, Some(&tags), Some("2025-03-04"));
    assert_eq!(add_project(&client, &args()), script);
    assert_eq!(project(&client, ProjectCommands::Add(args())), ProjectPlan::Add { script });
}

#[test]
fn find_project_takes_the_first_with_the_identifier() {
    let mut second = sample_project();
    second.name = "Second".to_string();
    let mut other = sample_project();
    other.id = "J2".to_string();
    let projects = vec![other, sample_project(), second];
    let found = find_project(&projects, "J1").unwrap();
    assert!(std::ptr::eq(found, &projects[1]));
    assert!(std::ptr::eq(find_project(&projects, "J2").unwrap(), &projects[0]));
    assert_eq!(
        find_project(&projects, "j1"),
        Err(ClingsError::NotFound("Project with ID: j1".to_string()))
    );
    assert_eq!(
        find_project(&[], "J1"),
        Err(ClingsError::NotFound("Project with ID: J1".to_string()))
    );
}

#[test]
fn project_details_show_what_the_project_has() {
    assert_eq!(
        project_details(&sample_project()),
        "Project: Plan\n  ID: J1\n  Status: open\n  Notes: Think first\n  Area: Work\n  Tags: a, b\n  Due: 2025-03-04\n"
    );
    let bare = Project {
        id: "J2".to_string(),
        name: "Bare".to_string(),
        notes: String::new(),
        status: Status::Completed,
        area: None,
        tags: Vec::new(),
        due_date: None,
        creation_date: Some("2024-01-01T00:00:00Z".to_string()),
    };
    assert_eq!(project_details(&bare), "Project: Bare\n  ID: J2\n  Status: completed\n");
}

#[test]
fn created_project_names_the_project() {
    let response = CreateResponse { id: "J9".to_string(), name: "New".to_string() };
    assert_eq!(created_project(&response), "Created project: New (ID: J9)");
}

#[test]
fn open_says_what_to_run_and_what_to_tell() {
    let client = ThingsClient::new();
    assert_eq!(
        open(&client, "Inbox"),
        Action { script: client.open("Inbox"), done: "Opened: Inbox".to_string() }
    );
}

// ==================== search ====================

#[test]
fn search_looks_at_the_filter_first() {
    assert_eq!(search(Some("milk"), Some("status = open")), SearchPlan::Filter("status = open".to_string()));
    assert_eq!(search(None, Some("status = open")), SearchPlan::Filter("status = open".to_string()));
    assert_eq!(search(Some("milk"), None), SearchPlan::Text("milk".to_string()));
    assert_eq!(search(None, None), SearchPlan::Anytime);
    assert_eq!(search_title(Some("milk")), "Search: \"milk\"");
    assert_eq!(search_title(None), "Search Results");
}

fn shelf() -> Vec<Todo> {
    let mut a = Todo::new("1", "A");
    a.tags = vec!["Work".to_string(), "x".to_string()];
    a.project = Some("Sprint".to_string());
    a.due_date = Some(date(2024, 12, 15));
    let mut b = Todo::new("2", "B");
    b.tags = vec!["home".to_string()];
    b.project = Some("sprint".to_string());
    let mut c = Todo::new("3", "C");
    c.tags = vec!["WORK".to_string()];
    c.due_date = Some(date(2024, 12, 16));
    let d = Todo::new("4", "D");
    vec![a, b, c, d]
}

#[test]
fn refine_applies_the_filters_that_are_given() {
    let todos = shelf();
    assert_eq!(names(&refine(&todos, None, None, None)), vec!["A", "B", "C", "D"]);
    assert_eq!(names(&refine(&todos, Some("work"), None, None)), vec!["A", "C"]);
    assert_eq!(names(&refine(&todos, Some("wor"), None, None)), Vec::<&str>::new());
    assert_eq!(names(&refine(&todos, None, Some("SPRINT"), None)), vec!["A", "B"]);
    assert_eq!(names(&refine(&todos, Some("work"), Some("sprint"), None)), vec!["A"]);
    assert_eq!(names(&refine(&todos, None, None, Some("2024-12-16"))), vec!["C"]);
    assert_eq!(names(&refine(&todos, Some("work"), None, Some("2024-12-15"))), vec!["A"]);
    assert_eq!(names(&refine(&todos, None, None, Some("2024-12-1"))), Vec::<&str>::new());
    assert_eq!(names(&refine(&todos, None, None, Some("next monday"))), Vec::<&str>::new());
    let found = refine(&todos, Some("home"), None, None);
    assert!(std::ptr::eq(found[0], &todos[1]));
    assert!(refine(&[], Some("work"), None, None).is_empty());
}

#[test]
fn search_results_resolve_the_due_date() {
    let mut todos = shelf();
    let now = chrono::Local::now().date_naive();
    todos[3].due_date = Some(date(now.year(), now.month() as u8, now.day() as u8));
    assert_eq!(names(&search_results(&todos, None, None, Some("today"))), vec!["D"]);
    assert_eq!(names(&search_results(&todos, None, None, Some("ToDay"))), vec!["D"]);
    assert_eq!(names(&search_results(&todos, None, None, Some("2024-12-15"))), vec!["A"]);
    assert_eq!(names(&search_results(&todos, Some("x"), None, None)), vec!["A"]);
}

#[test]
fn search_with_filter_selects_and_titles() {
    let todos = shelf();
    let found = search_with_filter(&todos, "tags CONTAINS work OR project = sprint").unwrap();
    assert_eq!(names(&found.matching), vec!["A", "B", "C"]);
    assert_eq!(found.title, "Filter: \"tags CONTAINS work OR project = sprint\"");
    assert_eq!(
        search_with_filter(&todos, "status = "),
        Err(ClingsError::Filter(
            "unexpected end of input, expected a literal at offset 9\n  status = \n           ^"
                .to_string()
        ))
    );
}

// ==================== shell, stats ====================

#[test]
fn test_shell_completions_unknown_shell() {
    let result = shell(ShellCommands::Completions { shell: "unknown".to_string(), install: false });

    assert!(result.is_err());
    let err = result.unwrap_err();
    assert!(matches!(err, ClingsError::Config(_)));
}

#[test]
fn shell_knows_five_shells() {
    assert_eq!(shell_from_str("bash"), Some(ShellKind::Bash));
    assert_eq!(shell_from_str("ZSH"), Some(ShellKind::Zsh));
    assert_eq!(shell_from_str("Fish"), Some(ShellKind::Fish));
    assert_eq!(shell_from_str("PowerShell"), Some(ShellKind::PowerShell));
    assert_eq!(shell_from_str("elvish"), Some(ShellKind::Elvish));
    assert_eq!(shell_from_str("sh"), None);
    assert_eq!(
        shell(ShellCommands::Completions { shell: "zsh".to_string(), install: false }),
        Ok(ShellPlan::Completions(ShellKind::Zsh))
    );
    assert_eq!(
        shell(ShellCommands::Completions { shell: "Fish".to_string(), install: true }),
        Ok(ShellPlan::Instructions(ShellKind::Fish))
    );
    assert_eq!(
        shell(ShellCommands::Completions { shell: "Tcsh".to_string(), install: true }),
        Err(ClingsError::Config(
            "Unknown shell: Tcsh. Supported: bash, zsh, fish, powershell, elvish".to_string()
        ))
    );
}

#[test]
fn stats_shows_trends_before_the_heatmap() {
    let args = |trends: bool, heatmap: bool| StatsArgs { trends, heatmap, days: 30, weeks: 8 };
    assert_eq!(stats(&args(false, false)), StatsView::Dashboard);
    assert_eq!(stats(&args(true, false)), StatsView::Trends { days: 30 });
    assert_eq!(stats(&args(false, true)), StatsView::Heatmap { weeks: 8 });
    assert_eq!(stats(&args(true, true)), StatsView::Trends { days: 30 });
}

// ==================== bulk ====================

fn options(skip_confirmation: bool, limit: usize, dry_run: bool) -> BulkSafetyOptions {
    BulkSafetyOptions { skip_confirmation, limit, dry_run }
}

#[test]
fn safety_check_stops_at_the_limit() {
    assert_eq!(
        check_bulk_safety(51, &options(false, 50, false)),
        Err(ClingsError::BulkOperation(
            "Operation would affect 51 items, which exceeds the limit of 50.\nUse --limit 51 to increase the limit, or --yes to skip this check.\nUse --dry-run first to preview what would be affected."
                .to_string()
        ))
    );
    // A dry run is stopped as well.
    assert!(check_bulk_safety(51, &options(false, 50, true)).is_err());
    assert_eq!(check_bulk_safety(51, &options(true, 50, false)), Ok(Safety::Proceed { count: 50 }));
    assert_eq!(check_bulk_safety(51, &options(true, 50, true)), Ok(Safety::Proceed { count: 50 }));
    assert_eq!(check_bulk_safety(50, &options(false, 50, true)), Ok(Safety::Proceed { count: 50 }));
    assert_eq!(check_bulk_safety(1000, &options(true, 0, false)), Ok(Safety::Proceed { count: 1000 }));
}

#[test]
fn safety_check_asks_above_five() {
    assert_eq!(check_bulk_safety(0, &options(false, 50, false)), Ok(Safety::Proceed { count: 0 }));
    assert_eq!(check_bulk_safety(5, &options(false, 50, false)), Ok(Safety::Proceed { count: 5 }));
    assert_eq!(
        check_bulk_safety(6, &options(false, 50, false)),
        Ok(Safety::Confirm { count: 6, shown: 6 })
    );
    assert_eq!(
        check_bulk_safety(10, &options(false, 50, false)),
        Ok(Safety::Confirm { count: 10, shown: 10 })
    );
    assert_eq!(
        check_bulk_safety(11, &options(false, 50, false)),
        Ok(Safety::Confirm { count: 11, shown: 10 })
    );
    assert_eq!(
        check_bulk_safety(1000, &options(false, 0, false)),
        Ok(Safety::Confirm { count: 1000, shown: 10 })
    );
    assert_eq!(check_bulk_safety(6, &options(false, 50, true)), Ok(Safety::Proceed { count: 6 }));
    assert_eq!(check_bulk_safety(6, &options(true, 50, false)), Ok(Safety::Proceed { count: 6 }));
}

#[test]
fn confirm_takes_yes_only() {
    assert_eq!(confirm("yes"), Ok(()));
    assert_eq!(confirm("  YES \n"), Ok(()));
    assert_eq!(confirm("Yes\r\n"), Ok(()));
    let cancelled = Err(ClingsError::BulkOperation(
        "Operation cancelled by user. No changes were made.".to_string(),
    ));
    assert_eq!(confirm("y"), cancelled);
    assert_eq!(confirm(""), cancelled);
    assert_eq!(confirm("yes please"), cancelled);
    assert_eq!(confirm("no"), cancelled);
}

#[test]
fn bulk_commands_need_a_filter() {
    let todos = shelf();
    assert_eq!(
        bulk_complete(&todos, None, false, false, 50),
        Err(ClingsError::BulkOperation(
            "Filter required for bulk complete.\n\nUsage: clings bulk complete --where \"filter expression\"\n\nExamples:\n  clings bulk complete --where \"tags CONTAINS 'done'\"\n  clings bulk complete --where \"project = 'Completed'\" --dry-run"
                .to_string()
        ))
    );
    assert_eq!(
        bulk_cancel(&todos, None, false, false, 50),
        Err(ClingsError::BulkOperation(
            "Filter required for bulk cancel.\n\nUsage: clings bulk cancel --where \"filter expression\"\n\nExamples:\n  clings bulk cancel --where \"project = 'Old Project'\"\n  clings bulk cancel --where \"status = open AND due < today\" --dry-run"
                .to_string()
        ))
    );
    let tags = vec!["t".to_string()];
    assert_eq!(
        bulk_tag(&todos, None, &tags, false, false, 50),
        Err(ClingsError::BulkOperation(
            "Filter required for bulk tag.\n\nUsage: clings bulk tag --where \"filter expression\" tag1 [tag2 ...]"
                .to_string()
        ))
    );
    assert_eq!(
        bulk_tag(&todos, Some("status = open"), &[], false, false, 50),
        Err(ClingsError::BulkOperation(
            "At least one tag is required.\n\nUsage: clings bulk tag --where \"filter\" tag1 [tag2 ...]\n\nExample: clings bulk tag --where \"project = 'Work'\" urgent priority"
                .to_string()
        ))
    );
    // The tags are looked at before the filter.
    assert!(matches!(
        bulk_tag(&todos, None, &[], false, false, 50),
        Err(ClingsError::BulkOperation(text)) if text.starts_with("At least one tag")
    ));
    assert_eq!(
        bulk_move(&todos, None, false, false, 50),
        Err(ClingsError::BulkOperation(
            "Filter required for bulk move.\n\nUsage: clings bulk move --where \"filter expression\" --to \"Project Name\""
                .to_string()
        ))
    );
}

#[test]
fn bulk_commands_report_filters_that_cannot_be_read() {
    let todos = shelf();
    assert_eq!(
        bulk_complete(&todos, Some("status = "), false, false, 50),
        Err(ClingsError::Filter(
            "unexpected end of input, expected a literal at offset 9\n  status = \n           ^"
                .to_string()
        ))
    );
    assert!(matches!(
        bulk_move(&todos, Some("colour = red"), true, true, 0),
        Err(ClingsError::Filter(_))
    ));
}

#[test]
fn bulk_commands_select_and_check() {
    let todos = shelf();
    let plan = bulk_complete(&todos, Some("tags CONTAINS work"), false, false, 50).unwrap();
    assert_eq!(names(&plan.matching), vec!["A", "C"]);
    assert!(std::ptr::eq(plan.matching[1], &todos[2]));
    assert_eq!(plan.safety, Safety::Proceed { count: 2 });

    let plan = bulk_cancel(&todos, Some("NOT name = z"), false, true, 3).unwrap();
    assert_eq!(names(&plan.matching), vec!["A", "B", "C", "D"]);
    assert_eq!(plan.safety, Safety::Proceed { count: 3 });

    assert!(matches!(
        bulk_move(&todos, Some("NOT name = z"), false, false, 3),
        Err(ClingsError::BulkOperation(text)) if text.starts_with("Operation would affect 4 items, which exceeds the limit of 3.")
    ));

    let tags = vec!["t".to_string()];
    let plan = bulk_tag(&todos, Some("name = z"), &tags, false, false, 50).unwrap();
    assert!(plan.matching.is_empty());
    assert_eq!(plan.safety, Safety::Proceed { count: 0 });

    let many: Vec<Todo> = (0..12).map(|i| Todo::new(&i.to_string(), "same")).collect();
    let plan = bulk_complete(&many, Some("name = same"), false, false, 50).unwrap();
    assert_eq!(plan.matching.len(), 12);
    assert_eq!(plan.safety, Safety::Confirm { count: 12, shown: 10 });
}

#[test]
fn plan_bulk_evaluates_on_the_given_day() {
    let todos = shelf();
    let opts = options(false, 50, false);
    let plan = plan_bulk(&todos, Some("due = today"), &opts, "missing", date(2024, 12, 16)).unwrap();
    assert_eq!(names(&plan.matching), vec!["C"]);
    let plan = plan_bulk(&todos, Some("due = tomorrow"), &opts, "missing", date(2024, 12, 14)).unwrap();
    assert_eq!(names(&plan.matching), vec!["A"]);
    assert_eq!(
        plan_bulk(&todos, None, &opts, "missing", date(2024, 12, 14)),
        Err(ClingsError::BulkOperation("missing".to_string()))
    );
}

#[test]
fn a_plan_chooses_its_first_matches() {
    let todos = shelf();
    let all: Vec<&Todo> = todos.iter().collect();
    let plan = BulkPlan { matching: all.clone(), safety: Safety::Proceed { count: 3 } };
    assert_eq!(names(&plan.chosen()), vec!["A", "B", "C"]);
    assert!(std::ptr::eq(plan.chosen()[2], &todos[2]));
    let plan = BulkPlan { matching: all.clone(), safety: Safety::Confirm { count: 4, shown: 2 } };
    assert_eq!(names(&plan.chosen()), vec!["A", "B", "C", "D"]);
    let plan = BulkPlan { matching: all.clone(), safety: Safety::Proceed { count: 9 } };
    assert_eq!(names(&plan.chosen()), vec!["A", "B", "C", "D"]);
    let plan = BulkPlan { matching: all, safety: Safety::Proceed { count: 0 } };
    assert!(plan.chosen().is_empty());
    let plan = bulk_cancel(&todos, Some("NOT name = z"), false, true, 2).unwrap();
    assert_eq!(names(&plan.chosen()), vec!["A", "B"]);
    assert_eq!(ids_of(&plan.chosen()), vec!["1".to_string(), "2".to_string()]);
    assert!(ids_of(&[]).is_empty());
}

#[test]
fn a_summary_says_how_each_item_went() {
    let todos = shelf();
    let chosen: Vec<&Todo> = todos.iter().take(3).collect();
    let outcome = BatchResult {
        succeeded: 2,
        failed: 1,
        errors: vec![
            BatchError { id: "2".to_string(), error: "Not found".to_string() },
            BatchError { id: "2".to_string(), error: "again".to_string() },
        ],
    };
    let summary = summarize(&chosen, &outcome, "complete", false);
    assert_eq!(summary.action, "complete");
    assert!(!summary.dry_run);
    assert_eq!(summary.matched, 3);
    assert_eq!(summary.succeeded, 2);
    assert_eq!(summary.failed, 1);
    let seen: Vec<(&str, &str, bool, Option<&str>)> = summary
        .results
        .iter()
        .map(|r| (r.id.as_str(), r.name.as_str(), r.success, r.error.as_deref()))
        .collect();
    assert_eq!(
        seen,
        vec![("1", "A", true, None), ("2", "B", false, Some("Not found")), ("3", "C", true, None)]
    );

    let dry = summarize(&chosen, &outcome, "complete", true);
    assert!(dry.dry_run);
    assert_eq!((dry.matched, dry.succeeded, dry.failed), (3, 3, 0));
    assert!(dry.results.iter().all(|r| r.success && r.error.is_none()));

    let none = BatchResult {
        succeeded: 0,
        failed: 3,
        errors: vec![BatchError { id: "all".to_string(), error: "Project not found".to_string() }],
    };
    let summary = summarize(&chosen, &none, "move", false);
    assert_eq!((summary.succeeded, summary.failed), (0, 3));
    assert!(summary.results.iter().all(|r| !r.success));
    assert!(summary.results.iter().all(|r| r.error.as_deref() == Some("Project not found")));

    let empty = summarize(&[], &BatchResult::default(), "tag", false);
    assert_eq!((empty.matched, empty.succeeded, empty.failed), (0, 0, 0));
    assert!(empty.results.is_empty());
}

#[test]
fn completions_are_counted_by_day() {
    let days = vec![
        date(2024, 3, 1),
        date(2024, 2, 29),
        date(2024, 3, 1),
        date(2024, 2, 27),
        date(2023, 3, 1),
        date(2024, 3, 2),
    ];
    assert_eq!(completions_on(&days, date(2024, 3, 1)), 2);
    assert_eq!(completions_on(&days, date(2024, 2, 28)), 0);
    assert_eq!(completions_on(&[], date(2024, 2, 28)), 0);
    assert_eq!(
        daily_counts(&days, date(2024, 3, 1), 4),
        Some(vec![
            (date(2024, 2, 27), 1),
            (date(2024, 2, 28), 0),
            (date(2024, 2, 29), 1),
            (date(2024, 3, 1), 2),
        ])
    );
    assert_eq!(daily_counts(&days, date(2024, 3, 1), 1), Some(vec![(date(2024, 3, 1), 2)]));
    assert_eq!(daily_counts(&days, date(2024, 3, 1), 0), Some(vec![]));
    assert_eq!(daily_counts(&days, date(i32::MIN, 1, 2), 2).map(|v| v.len()), Some(2));
    assert_eq!(daily_counts(&days, date(i32::MIN, 1, 2), 3), None);
}

#[test]
fn the_heatmap_counts_the_days_of_its_window() {
    let days = vec![
        date(2024, 3, 1),
        date(2024, 2, 29),
        date(2024, 3, 1),
        date(2024, 2, 24),
        date(2024, 2, 23),
        date(2023, 3, 1),
        date(2024, 3, 2),
        date(2024, 2, 29),
        date(2024, 3, 1),
    ];
    // Less than seven days before the first of March: the 24th of February
    // is in, the 23rd is out; the day after today is in.
    assert_eq!(
        heatmap_counts(&days, date(2024, 3, 1), 7),
        vec![
            (date(2024, 3, 1), 3),
            (date(2024, 2, 29), 2),
            (date(2024, 2, 24), 1),
            (date(2024, 3, 2), 1),
        ]
    );
    assert_eq!(heatmap_counts(&days, date(2024, 3, 1), 0), vec![(date(2024, 3, 2), 1)]);
    assert_eq!(heatmap_counts(&days, date(2024, 3, 1), 1), vec![(date(2024, 3, 1), 3), (date(2024, 3, 2), 1)]);
    assert_eq!(heatmap_counts(&days, date(i32::MIN, 1, 2), 5).len(), 6);
    assert!(heatmap_counts(&[], date(2024, 3, 1), 7).is_empty());
}
