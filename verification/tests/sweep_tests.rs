use chrono::{Datelike, Days, Local, NaiveDate};
use serde_json::Value;
use ticktick_today::client::TickTickClient;
use ticktick_today::date::{DateError, LocalDate};
use ticktick_today::error::ClientError;
use ticktick_today::sweep::{
    gather_todays_tasks, is_task_due_on, task_due_on, todays_tasks_of, ProjectFailure,
    ProjectFetch, TodaysTasks,
};
use ticktick_today::types::{InboxData, Project, ProjectData, Task};

fn project(id: &str, name: &str) -> Project {
    Project {
        id: id.to_string(),
        name: name.to_string(),
        color: None,
        closed: None,
        group_id: None,
        view_mode: None,
        permission: None,
        kind: None,
    }
}

fn task(id: &str, project_id: &str, status: i32, due: Option<&str>, start: Option<&str>) -> Task {
    Task {
        id: id.to_string(),
        project_id: project_id.to_string(),
        title: format!("task {}", id),
        is_all_day: None,
        completed_time: None,
        content: None,
        desc: None,
        due_date: due.map(|d| d.to_string()),
        items: None,
        priority: None,
        reminders: None,
        repeat_flag: None,
        sort_order: None,
        start_date: start.map(|d| d.to_string()),
        status,
        time_zone: None,
    }
}

fn stamp(day: NaiveDate, clock: &str) -> String {
    format!("{}T{}+0000", day.format("%Y-%m-%d"), clock)
}

fn local(day: NaiveDate) -> LocalDate {
    LocalDate { year: day.year(), month: day.month(), day: day.day() }
}

fn fetched(p: Project, tasks: Vec<Task>) -> ProjectFetch {
    ProjectFetch { project: p.clone(), outcome: Ok(ProjectData { project: p, tasks }) }
}

fn failed(p: Project, error: ClientError) -> ProjectFetch {
    ProjectFetch { project: p, outcome: Err(error) }
}

fn ids(tasks: &[Task]) -> Vec<&str> {
    tasks.iter().map(|t| t.id.as_str()).collect()
}

fn client() -> TickTickClient {
    TickTickClient::new("id".to_string(), "secret".to_string(), "uri".to_string())
        .with_token("tok".to_string())
}

fn task_from_json(text: &str) -> Task {
    let value: Value = serde_json::from_str(text).unwrap();
    let field = |name: &str| value.get(name).and_then(|v| v.as_str()).map(|s| s.to_string());
    let mut t = task(
        &field("id").unwrap(),
        &field("projectId").unwrap(),
        value.get("status").and_then(|v| v.as_i64()).unwrap() as i32,
        field("dueDate").as_deref(),
        field("startDate").as_deref(),
    );
    t.title = field("title").unwrap();
    t
}

fn task_to_json(t: &Task) -> String {
    let mut map = serde_json::Map::new();
    map.insert("id".to_string(), Value::from(t.id.clone()));
    map.insert("projectId".to_string(), Value::from(t.project_id.clone()));
    map.insert("title".to_string(), Value::from(t.title.clone()));
    map.insert("status".to_string(), Value::from(t.status));
    if let Some(due) = &t.due_date {
        map.insert("dueDate".to_string(), Value::from(due.clone()));
    }
    if let Some(start) = &t.start_date {
        map.insert("startDate".to_string(), Value::from(start.clone()));
    }
    Value::Object(map).to_string()
}

#[test]
fn due_on_takes_either_date() {
    let today = LocalDate { year: 2024, month: 5, day: 17 };
    let other = LocalDate { year: 2024, month: 5, day: 18 };
    assert!(task_due_on(&Some(Ok(today)), &None, today));
    assert!(task_due_on(&None, &Some(Ok(today)), today));
    assert!(task_due_on(&Some(Ok(other)), &Some(Ok(today)), today));
    assert!(task_due_on(&Some(Err(DateError::Unrecognized)), &Some(Ok(today)), today));
    assert!(!task_due_on(&Some(Ok(other)), &Some(Ok(other)), today));
    assert!(!task_due_on(&Some(Err(DateError::Unrecognized)), &None, today));
    assert!(!task_due_on(&None, &None, today));
}

#[test]
fn a_task_is_due_by_its_due_or_start_date() {
    let day = NaiveDate::from_ymd_opt(2024, 5, 17).unwrap();
    let today = local(day);
    let next = stamp(day.checked_add_days(Days::new(1)).unwrap(), "09:00:00");
    assert!(is_task_due_on(&task("a", "p", 0, Some(&stamp(day, "09:00:00")), None), today));
    assert!(is_task_due_on(&task("b", "p", 0, None, Some(&stamp(day, "23:59:59"))), today));
    assert!(is_task_due_on(&task("c", "p", 0, Some(&next), Some(&stamp(day, "00:00:00"))), today));
    assert!(is_task_due_on(&task("d", "p", 0, Some("garbage"), Some(&stamp(day, "10:00:00"))), today));
    assert!(!is_task_due_on(&task("e", "p", 0, Some(&next), None), today));
    assert!(!is_task_due_on(&task("f", "p", 0, Some("garbage"), None), today));
    assert!(!is_task_due_on(&task("g", "p", 0, None, None), today));
}

#[test]
fn is_task_due_today_uses_the_current_date() {
    let today = Local::now().date_naive();
    let c = client();
    assert!(c.is_task_due_today(&task("a", "p", 0, Some(&stamp(today, "12:00:00")), None)));
    assert!(!c.is_task_due_today(&task("b", "p", 0, Some("1999-12-31T12:00:00+0000"), None)));
    assert!(!c.is_task_due_today(&task("c", "p", 0, None, None)));
}

#[test]
fn filtering_keeps_open_due_tasks_in_order() {
    let day = NaiveDate::from_ymd_opt(2024, 5, 17).unwrap();
    let due = stamp(day, "09:00:00");
    let tasks = vec![
        task("a", "q", 0, Some(&due), None),
        task("b", "q", 2, Some(&due), None),
        task("c", "q", 0, None, None),
        task("d", "q", 0, None, Some(&due)),
        task("e", "q", 1, Some(&due), None),
        task("f", "q", 0, Some("2024-05-18T00:00:00+0000"), None),
        task("g", "q", 0, Some("May 17, 2024"), None),
        task("h", "q", 0, Some("Friday, May 17"), None),
    ];
    let kept = todays_tasks_of(tasks.clone(), local(day));
    assert_eq!(ids(&kept), vec!["a", "d", "g", "h"]);
    assert_eq!(kept[0], tasks[0]);
    assert_eq!(kept[1], tasks[3]);
    assert_eq!(kept[2], tasks[6]);
    assert_eq!(kept[3], tasks[7]);
    assert_eq!(todays_tasks_of(vec![], local(day)), vec![]);
    let next = local(day.checked_add_days(Days::new(1)).unwrap());
    assert_eq!(ids(&todays_tasks_of(tasks, next)), vec!["f"]);
}

#[test]
fn filtering_again_changes_nothing() {
    let day = NaiveDate::from_ymd_opt(2024, 5, 17).unwrap();
    let due = stamp(day, "09:00:00");
    let tasks = vec![
        task("a", "q", 0, Some(&due), None),
        task("b", "q", 2, Some(&due), None),
        task("c", "q", 0, None, Some(&due)),
        task("d", "q", 0, None, None),
    ];
    let once = todays_tasks_of(tasks, local(day));
    let twice = todays_tasks_of(once.clone(), local(day));
    assert_eq!(once, twice);
    assert_eq!(ids(&once), vec!["a", "c"]);
}

#[test]
fn a_failed_project_is_recorded_and_passed_over() {
    let day = NaiveDate::from_ymd_opt(2024, 5, 17).unwrap();
    let due = stamp(day, "09:00:00");
    let later = "2024-06-01T09:00:00+0000";
    let fetches = vec![
        fetched(
            project("q1", "Work"),
            vec![
                task("1a", "q1", 0, Some(&due), None),
                task("1b", "q1", 2, Some(&due), None),
                task("1c", "q1", 0, Some(later), None),
                task("1d", "q1", 0, None, Some(&due)),
            ],
        ),
        failed(project("q2", "Home"), ClientError::ProjectDataFailed("500 boom".to_string())),
        fetched(
            project("q3", "Garden"),
            vec![task("3a", "q3", 0, None, None), task("3b", "q3", 0, Some(&due), Some(later))],
        ),
    ];
    let TodaysTasks { tasks, failures } = gather_todays_tasks(fetches, local(day));
    assert_eq!(ids(&tasks), vec!["1a", "1d", "3b"]);
    assert_eq!(
        failures,
        vec![ProjectFailure {
            project_id: "q2".to_string(),
            project_name: "Home".to_string(),
            error: ClientError::ProjectDataFailed("500 boom".to_string()),
        }]
    );
    assert!(failures[0].error.message().contains("500 boom"));
}

#[test]
fn every_kind_of_failure_is_recorded_in_order() {
    let day = NaiveDate::from_ymd_opt(2024, 5, 17).unwrap();
    let fetches = vec![
        failed(project("q1", "A"), ClientError::Transport("refused".to_string())),
        failed(project("q2", "B"), ClientError::Decode("eof".to_string())),
        failed(project("q3", "C"), ClientError::Unauthenticated),
    ];
    let gathered = gather_todays_tasks(fetches, local(day));
    assert_eq!(gathered.tasks, vec![]);
    let names: Vec<&str> = gathered.failures.iter().map(|f| f.project_name.as_str()).collect();
    assert_eq!(names, vec!["A", "B", "C"]);
    assert_eq!(gathered.failures[1].error, ClientError::Decode("eof".to_string()));
}

#[test]
fn nothing_fetched_gives_nothing() {
    let day = NaiveDate::from_ymd_opt(2024, 5, 17).unwrap();
    assert_eq!(
        gather_todays_tasks(vec![], local(day)),
        TodaysTasks { tasks: vec![], failures: vec![] }
    );
}

#[test]
fn get_todays_tasks_sweeps_on_the_current_date() {
    let today = Local::now().date_naive();
    let due = stamp(today, "18:00:00");
    let fetches = vec![
        fetched(project("q1", "Work"), vec![task("1a", "q1", 0, Some(&due), None)]),
        failed(project("q2", "Home"), ClientError::ProjectDataFailed("500".to_string())),
        fetched(
            project("q3", "Garden"),
            vec![
                task("3a", "q3", 0, Some("1999-12-31T12:00:00+0000"), None),
                task("3b", "q3", 0, None, Some(&due)),
                task("3c", "q3", 2, Some(&due), None),
            ],
        ),
    ];
    let gathered = client().get_todays_tasks(fetches);
    assert_eq!(ids(&gathered.tasks), vec!["1a", "3b"]);
    assert_eq!(gathered.failures.len(), 1);
    assert_eq!(gathered.failures[0].project_id, "q2");
}

#[test]
fn a_task_filters_the_same_after_a_round_trip_through_json() {
    let today = Local::now().date_naive();
    let payload = format!(
        r#"{{"id":"t1","projectId":"q1","title":"Write","status":0,"dueDate":"{}"}}"#,
        stamp(today, "09:30:00")
    );
    let first = task_from_json(&payload);
    let second = task_from_json(&task_to_json(&first));
    assert_eq!(first, second);
    let sweep = |t: Task| {
        client().get_todays_tasks(vec![fetched(project("q1", "Work"), vec![t])]).tasks
    };
    let once = sweep(first.clone());
    let twice = sweep(second);
    assert_eq!(ids(&once), vec!["t1"]);
    assert_eq!(once, twice);
    assert_eq!(sweep(once[0].clone()), once);
}

#[test]
fn the_inbox_holds_tasks() {
    let inbox = InboxData { tasks: vec![task("i1", "inbox123", 0, None, None)] };
    assert_eq!(inbox.tasks.len(), 1);
    assert!(inbox.tasks[0].status == ticktick_today::types::STATUS_NORMAL);
    assert!(ticktick_today::types::STATUS_COMPLETED == 2);
}
