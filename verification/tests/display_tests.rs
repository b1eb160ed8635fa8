use ticktick_today::display::{convert_markdown_links, get_priority_emoji, item_icon, task_lines};
use ticktick_today::grouping::{
    comes_before, group_by_project, has_prefix, section_header, section_title, TaskGroup,
};
use ticktick_today::types::{ChecklistItem, Project, Task};

fn project(id: &str, name: &str) -> Project {
    Project {
        id: id.to_string(),
        name: name.to_string(),
        color: None,
        closed: None,
        group_id: None,
        view_mode: None,
        permission: None,
        kind: None,
    }
}

fn task(id: &str, project_id: &str) -> Task {
    Task {
        id: id.to_string(),
        project_id: project_id.to_string(),
        title: format!("task {}", id),
        is_all_day: None,
        completed_time: None,
        content: None,
        desc: None,
        due_date: None,
        items: None,
        priority: None,
        reminders: None,
        repeat_flag: None,
        sort_order: None,
        start_date: None,
        status: 0,
        time_zone: None,
    }
}

fn item(title: &str, status: i32) -> ChecklistItem {
    ChecklistItem {
        id: None,
        title: title.to_string(),
        status,
        completed_time: None,
        is_all_day: None,
        sort_order: None,
        start_date: None,
        time_zone: None,
    }
}

fn group(id: &str, members: &[usize]) -> TaskGroup {
    TaskGroup { project_id: id.to_string(), members: members.to_vec() }
}

#[test]
fn priority_marks() {
    assert_eq!(get_priority_emoji(Some(5)), "🔴");
    assert_eq!(get_priority_emoji(Some(3)), "🟡");
    assert_eq!(get_priority_emoji(Some(1)), "🔵");
    assert_eq!(get_priority_emoji(Some(0)), "⚪");
    assert_eq!(get_priority_emoji(Some(2)), "⚪");
    assert_eq!(get_priority_emoji(Some(-1)), "⚪");
    assert_eq!(get_priority_emoji(None), "⚪");
}

#[test]
fn item_icons() {
    assert_eq!(item_icon(1), "✅");
    assert_eq!(item_icon(0), "☐");
    assert_eq!(item_icon(2), "☐");
}

#[test]
fn links_become_terminal_hyperlinks() {
    assert_eq!(
        convert_markdown_links("see [docs](https://example.com/a) now"),
        "see \x1b[4m\x1b[36m\x1b]8;;https://example.com/a\x1b\\docs\x1b]8;;\x1b\\\x1b[0m now"
    );
    assert_eq!(
        convert_markdown_links("[a](b)[c](d)"),
        "\x1b[4m\x1b[36m\x1b]8;;b\x1b\\a\x1b]8;;\x1b\\\x1b[0m\x1b[4m\x1b[36m\x1b]8;;d\x1b\\c\x1b]8;;\x1b\\\x1b[0m"
    );
}

#[test]
fn text_without_links_is_unchanged() {
    for text in ["", "plain", "[label] (target)", "[](x)", "[x]()", "a [b] c (d)"] {
        assert_eq!(convert_markdown_links(text), text);
    }
}

#[test]
fn a_bare_task_is_one_line() {
    assert_eq!(task_lines(&task("1", "p"), None, None), vec!["  ⚪ task 1"]);
}

#[test]
fn a_full_task_line_by_line() {
    let mut t = task("1", "p");
    t.priority = Some(5);
    t.content = Some("first\nsecond [x](y)".to_string());
    t.desc = Some("about".to_string());
    t.items = Some(vec![item("buy", 1), item("sell", 0)]);
    let lines = task_lines(&t, Some("Today 09:00 AM".to_string()), Some("May 16 08:00 AM".to_string()));
    assert_eq!(
        lines,
        vec![
            "  🔴 task 1",
            "    📝 Content:",
            "      first",
            "      second \x1b[4m\x1b[36m\x1b]8;;y\x1b\\x\x1b]8;;\x1b\\\x1b[0m",
            "    📄 about",
            "    ⏰ Due: Today 09:00 AM",
            "    🚀 Start: May 16 08:00 AM",
            "    📋 Subtasks:",
            "      ✅ buy",
            "      ☐ sell",
        ]
    );
}

#[test]
fn content_of_one_line_stays_on_one_line() {
    let mut t = task("1", "p");
    t.priority = Some(3);
    t.content = Some("only [a](b)".to_string());
    assert_eq!(
        task_lines(&t, None, None),
        vec!["  🟡 task 1", "    📝 only \x1b[4m\x1b[36m\x1b]8;;b\x1b\\a\x1b]8;;\x1b\\\x1b[0m"]
    );
}

#[test]
fn empty_parts_are_left_out() {
    let mut t = task("1", "p");
    t.content = Some(String::new());
    t.desc = Some(String::new());
    t.items = Some(vec![]);
    assert_eq!(task_lines(&t, None, Some("Invalid time".to_string())), vec![
        "  ⚪ task 1",
        "    🚀 Start: Invalid time",
    ]);
}

#[test]
fn the_inbox_comes_first_and_the_rest_by_identifier() {
    assert!(comes_before("inbox123", "a"));
    assert!(!comes_before("a", "inbox123"));
    assert!(comes_before("inbox1", "inbox2"));
    assert!(!comes_before("inbox2", "inbox1"));
    assert!(comes_before("a", "b"));
    assert!(comes_before("a", "ab"));
    assert!(comes_before("B", "a"));
    assert!(comes_before("z", "\u{e9}"));
    assert!(!comes_before("b", "a"));
    assert!(!comes_before("a", "a"));
    assert!(!comes_before("", ""));
    assert!(comes_before("", "a"));
    assert!(comes_before("inbox", "inbo"));
    assert!(!comes_before("inbo", "inbox"));
    assert!(comes_before("inbo", "inbp"));
}

#[test]
fn tasks_are_grouped_by_project() {
    let tasks = vec![
        task("0", "q2"),
        task("1", "inbox9"),
        task("2", "q1"),
        task("3", "q2"),
        task("4", "inbox9"),
        task("5", "q10"),
        task("6", "q2"),
    ];
    assert_eq!(
        group_by_project(&tasks),
        vec![
            group("inbox9", &[1, 4]),
            group("q1", &[2]),
            group("q10", &[5]),
            group("q2", &[0, 3, 6]),
        ]
    );
}

#[test]
fn grouping_of_nothing_and_of_one() {
    assert_eq!(group_by_project(&vec![]), vec![]);
    assert_eq!(group_by_project(&vec![task("0", "p")]), vec![group("p", &[0])]);
}

#[test]
fn grouping_agrees_with_a_sort() {
    let ids = ["m", "inbox2", "a", "zz", "inbox1", "a", "B", "m", "", "\u{e9}", "inbox1"];
    let tasks: Vec<Task> = ids.iter().enumerate().map(|(i, id)| task(&i.to_string(), id)).collect();
    let groups = group_by_project(&tasks);
    let mut expected: Vec<String> = ids.iter().map(|s| s.to_string()).collect();
    expected.sort_by(|a, b| match (a.starts_with("inbox"), b.starts_with("inbox")) {
        (true, false) => std::cmp::Ordering::Less,
        (false, true) => std::cmp::Ordering::Greater,
        _ => a.cmp(b),
    });
    expected.dedup();
    let got: Vec<String> = groups.iter().map(|g| g.project_id.clone()).collect();
    assert_eq!(got, expected);
    let mut seen: Vec<usize> = groups.iter().flat_map(|g| g.members.clone()).collect();
    seen.sort();
    assert_eq!(seen, (0..ids.len()).collect::<Vec<usize>>());
    for g in &groups {
        for m in &g.members {
            assert_eq!(tasks[*m].project_id, g.project_id);
        }
    }
}

#[test]
fn section_titles() {
    let projects = vec![project("q1", "Work"), project("q2", "Home"), project("q1", "Work again")];
    assert_eq!(section_title("inbox123", &projects), "📥 Inbox");
    assert_eq!(section_title("inbox", &vec![project("inbox", "Named")]), "📥 Inbox");
    assert_eq!(section_title("q2", &projects), "Home");
    assert_eq!(section_title("q1", &projects), "Work again");
    assert_eq!(section_title("q3", &projects), "Unknown Project");
    assert_eq!(section_title("q1", &vec![]), "Unknown Project");
}

#[test]
fn section_headers() {
    let rule_top = "╔══════════════════════════════════════════════════";
    let rule_bottom = "╚══════════════════════════════════════════════════";
    assert_eq!(section_header("Work", 1), vec![rule_top, "║ 📁 Work (1 task)", rule_bottom]);
    assert_eq!(section_header("Work", 2), vec![rule_top, "║ 📁 Work (2 tasks)", rule_bottom]);
    assert_eq!(section_header("Work", 0)[1], "║ 📁 Work (0 tasks)");
    assert_eq!(section_header("📥 Inbox", 10)[1], "║ 📁 📥 Inbox (10 tasks)");
    assert_eq!(section_header("", 1234567)[1], "║ 📁  (1234567 tasks)");
}

#[test]
fn prefixes() {
    assert!(has_prefix("inbox123", "inbox"));
    assert!(has_prefix("inbox", "inbox"));
    assert!(has_prefix("inbox", ""));
    assert!(has_prefix("", ""));
    assert!(!has_prefix("inbo", "inbox"));
    assert!(!has_prefix("Inbox1", "inbox"));
    assert!(!has_prefix("xinbox", "inbox"));
    assert!(!has_prefix("", "inbox"));
    assert!(has_prefix("\u{e9}t\u{e9}", "\u{e9}t"));
    assert!(!has_prefix("\u{e9}t\u{e9}", "et"));
}
