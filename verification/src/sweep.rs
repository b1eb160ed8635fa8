//! Gathering today's tasks over all projects. A project whose data could not
//! be fetched is recorded and passed over: it never ends the sweep.

use crate::date::{
    is_today_at, reading_of, resolution_of, resolve_on, DateError, LocalDate, WallTime,
};
use crate::error::ClientError;
use crate::types::{Project, ProjectData, Task};
use vstd::prelude::*;

verus! {

/// One project and what the request for its data came to.
#[derive(Debug, PartialEq, Eq)]
pub struct ProjectFetch {
    pub project: Project,
    pub outcome: Result<ProjectData, ClientError>,
}

/// The record of a project whose data could not be fetched.
#[derive(Clone, Debug, PartialEq, Eq)]
pub struct ProjectFailure {
    pub project_id: String,
    pub project_name: String,
    pub error: ClientError,
}

/// What a sweep gathered: the tasks for today, and the projects that failed.
#[derive(Clone, Debug, PartialEq, Eq)]
pub struct TodaysTasks {
    pub tasks: Vec<Task>,
    pub failures: Vec<ProjectFailure>,
}

/// A date of a task, where it has one, and what it resolved to.
pub type Resolved = Option<Result<LocalDate, DateError>>;

/// Whether one resolved date of a task is `today`.
pub open spec fn lands_on(resolved: Resolved, today: LocalDate) -> bool {
    resolved == Some(Ok::<LocalDate, DateError>(today))
}

/// Whether a task is due today: its due date or its start date is `today`.
pub open spec fn due_on(due: Resolved, start: Resolved, today: LocalDate) -> bool {
    lands_on(due, today) || lands_on(start, today)
}

/// What a date field of a task resolves to on the day `today`, where the
/// task has the field.
pub open spec fn resolved_field(field: Option<String>, today: LocalDate) -> Resolved {
    match field {
        Some(raw) => Some(resolution_of(raw@, today)),
        None => None,
    }
}

/// Whether a task is due on `today`: its due date or its start date, read
/// on that day, resolves to that day.
pub open spec fn task_is_due(task: Task, today: LocalDate) -> bool {
    due_on(resolved_field(task.due_date, today), resolved_field(task.start_date, today), today)
}

/// Whether a task is surfaced on `today`: it is open and due.
pub open spec fn surfaced(task: Task, today: LocalDate) -> bool {
    task.is_open() && task_is_due(task, today)
}

/// The tasks among the first `n` that are surfaced on `today`, in their
/// order.
pub open spec fn todays_upto(tasks: Seq<Task>, today: LocalDate, n: int) -> Seq<Task>
    decreases n,
{
    if n <= 0 {
        Seq::empty()
    } else if surfaced(tasks[n - 1], today) {
        todays_upto(tasks, today, n - 1).push(tasks[n - 1])
    } else {
        todays_upto(tasks, today, n - 1)
    }
}

/// The tasks that are surfaced on `today`, in their order.
pub open spec fn todays(tasks: Seq<Task>, today: LocalDate) -> Seq<Task> {
    todays_upto(tasks, today, tasks.len() as int)
}

/// The tasks gathered from the first `n` fetches: the surfaced tasks of each
/// project whose data came back, project after project.
pub open spec fn swept_tasks(fetches: Seq<ProjectFetch>, today: LocalDate, n: int) -> Seq<Task>
    decreases n,
{
    if n <= 0 {
        Seq::empty()
    } else {
        swept_tasks(fetches, today, n - 1) + (match fetches[n - 1].outcome {
            Ok(data) => todays(data.tasks@, today),
            Err(_) => Seq::empty(),
        })
    }
}

/// The failures among the first `n` fetches, in their order: each names its
/// project and carries the error.
pub open spec fn swept_failures(fetches: Seq<ProjectFetch>, n: int) -> Seq<ProjectFailure>
    decreases n,
{
    if n <= 0 {
        Seq::empty()
    } else {
        match fetches[n - 1].outcome {
            Ok(_) => swept_failures(fetches, n - 1),
            Err(error) => swept_failures(fetches, n - 1).push(
                ProjectFailure {
                    project_id: fetches[n - 1].project.id,
                    project_name: fetches[n - 1].project.name,
                    error,
                },
            ),
        }
    }
}

/// What a sweep on `today` gathers from the fetches.
pub open spec fn swept(fetches: Seq<ProjectFetch>, today: LocalDate, gathered: TodaysTasks) -> bool {
    &&& gathered.tasks@ == swept_tasks(fetches, today, fetches.len() as int)
    &&& gathered.failures@ == swept_failures(fetches, fetches.len() as int)
}

/// Whether a task whose dates resolved as given is due on `today`.
pub fn task_due_on(due: &Resolved, start: &Resolved, today: LocalDate) -> (due_today: bool)
    ensures
        due_today == due_on(*due, *start, today),
{
    let by_due = match due {
        Some(resolved) => is_today_at(resolved, today),
        None => false,
    };
    let by_start = match start {
        Some(resolved) => is_today_at(resolved, today),
        None => false,
    };
    by_due || by_start
}

/// What a date field of a task resolves to on the day `today`.
fn resolve_field(field: &Option<String>, today: LocalDate) -> (resolved: Resolved)
    ensures
        resolved == resolved_field(*field, today),
{
    match field {
        Some(raw) => Some(resolve_on(raw.as_str(), today)),
        None => None,
    }
}

/// Whether the due date or the start date of a task resolves to `today`. A
/// task without a date that parses is never due.
pub fn is_task_due_on(task: &Task, today: LocalDate) -> (due_today: bool)
    ensures
        due_today == task_is_due(*task, today),
{
    let due = resolve_field(&task.due_date, today);
    let start = resolve_field(&task.start_date, today);
    task_due_on(&due, &start, today)
}

/// Keeps the tasks that are open and due on `today`, in their order, and
/// drops the others.
pub fn todays_tasks_of(tasks: Vec<Task>, today: LocalDate) -> (kept: Vec<Task>)
    ensures
        kept@ == todays(tasks@, today),
{
    let ghost all = tasks@;
    let total = tasks.len();
    let mut kept: Vec<Task> = Vec::new();
    let mut i: usize = 0;
    for task in it: tasks
        invariant
            i == it.index(),
            it.seq() == all,
            all.len() == total,
            kept@ == todays_upto(all, today, i as int),
    {
        if task.open_now() && is_task_due_on(&task, today) {
            kept.push(task);
        }
        i += 1;
    }
    kept
}

/// Gathers the tasks due on `today` over all projects. Each project whose
/// data came back gives its open tasks that are due, in their order; each
/// project whose data did not come back gives a failure record and no task.
pub fn gather_todays_tasks(fetches: Vec<ProjectFetch>, today: LocalDate) -> (gathered: TodaysTasks)
    ensures
        swept(fetches@, today, gathered),
{
    let ghost all = fetches@;
    let total = fetches.len();
    let mut tasks: Vec<Task> = Vec::new();
    let mut failures: Vec<ProjectFailure> = Vec::new();
    let mut i: usize = 0;
    for fetch in it: fetches
        invariant
            i == it.index(),
            it.seq() == all,
            all.len() == total,
            tasks@ == swept_tasks(all, today, i as int),
            failures@ == swept_failures(all, i as int),
    {
        match fetch.outcome {
            Ok(data) => {
                let mut kept = todays_tasks_of(data.tasks, today);
                tasks.append(&mut kept);
            },
            Err(error) => {
                failures.push(
                    ProjectFailure {
                        project_id: fetch.project.id,
                        project_name: fetch.project.name,
                        error,
                    },
                );
                assert(tasks@ + Seq::<Task>::empty() =~= tasks@);
            },
        }
        i += 1;
    }
    TodaysTasks { tasks, failures }
}

/// A task whose due date reads as a time on `today`, at whatever time of
/// day, is due on that day, whatever its start date and its status are; and
/// so is one whose start date does.
pub proof fn a_date_read_as_today_makes_the_task_due(task: Task, t: WallTime, today: LocalDate)
    requires
        t.date == today,
        (task.due_date matches Some(due) && reading_of(due@, today) == Ok::<WallTime, DateError>(t))
            || (task.start_date matches Some(start) && reading_of(start@, today) == Ok::<
            WallTime,
            DateError,
        >(t)),
    ensures
        task_is_due(task, today),
        task.is_open() ==> surfaced(task, today),
{
}

/// A task is due by its due date or by its start date, each on its own: a
/// date that does not parse, or that is missing, does not keep the other
/// from counting.
pub proof fn the_two_dates_count_each_on_its_own(task: Task, today: LocalDate)
    ensures
        task_is_due(task, today) == (lands_on(resolved_field(task.due_date, today), today)
            || lands_on(resolved_field(task.start_date, today), today)),
        task.due_date is None && task.start_date is None ==> !task_is_due(task, today),
{
}

/// Every task that is surfaced is open and due.
pub proof fn surfaced_tasks_are_open_and_due(tasks: Seq<Task>, today: LocalDate, n: int)
    ensures
        forall|j: int|
            0 <= j < todays_upto(tasks, today, n).len() ==> surfaced(
                #[trigger] todays_upto(tasks, today, n)[j],
                today,
            ),
    decreases n,
{
    if n > 0 {
        surfaced_tasks_are_open_and_due(tasks, today, n - 1);
        let before = todays_upto(tasks, today, n - 1);
        let now = todays_upto(tasks, today, n);
        assert forall|j: int| 0 <= j < now.len() implies surfaced(#[trigger] now[j], today) by {
            if j < before.len() {
                assert(now[j] == before[j]);
            }
        }
    }
}

/// Where every one of the first `n` tasks is surfaced, all of them are kept.
pub proof fn surfaced_tasks_are_all_kept(tasks: Seq<Task>, today: LocalDate, n: int)
    requires
        0 <= n <= tasks.len(),
        forall|j: int| 0 <= j < n ==> surfaced(#[trigger] tasks[j], today),
    ensures
        todays_upto(tasks, today, n) == tasks.take(n),
    decreases n,
{
    if n > 0 {
        surfaced_tasks_are_all_kept(tasks, today, n - 1);
        assert(tasks.take(n - 1).push(tasks[n - 1]) =~= tasks.take(n));
    } else {
        assert(tasks.take(0) =~= Seq::<Task>::empty());
    }
}

/// Filtering is idempotent: the tasks that were surfaced, filtered again on
/// the same day, are all surfaced again, in the same order.
pub proof fn filtering_is_idempotent(tasks: Seq<Task>, today: LocalDate)
    ensures
        todays(todays(tasks, today), today) == todays(tasks, today),
{
    let kept = todays(tasks, today);
    surfaced_tasks_are_open_and_due(tasks, today, tasks.len() as int);
    surfaced_tasks_are_all_kept(kept, today, kept.len() as int);
    assert(kept.take(kept.len() as int) =~= kept);
}

/// Whether a task is surfaced goes by its status and by the text of its two
/// dates, and by nothing else of the task: a task that was written out and
/// read back with these unchanged is filtered as it was before.
pub proof fn filtering_goes_by_status_and_dates(a: Task, b: Task, today: LocalDate)
    requires
        a.status == b.status,
        a.due_date is Some <==> b.due_date is Some,
        a.due_date matches Some(due) ==> due@ == b.due_date->0@,
        a.start_date is Some <==> b.start_date is Some,
        a.start_date matches Some(start) ==> start@ == b.start_date->0@,
    ensures
        surfaced(a, today) == surfaced(b, today),
        todays(seq![a], today).len() == todays(seq![b], today).len(),
{
    reveal_with_fuel(todays_upto, 2);
}

/// A sweep over the first `n` fetches sees only those fetches.
pub proof fn sweep_of_a_prefix(a: Seq<ProjectFetch>, b: Seq<ProjectFetch>, today: LocalDate, n: int)
    requires
        n <= a.len(),
        n <= b.len(),
        forall|k: int| 0 <= k < n ==> a[k] == b[k],
    ensures
        swept_tasks(a, today, n) == swept_tasks(b, today, n),
        swept_failures(a, n) == swept_failures(b, n),
    decreases n,
{
    if n > 0 {
        sweep_of_a_prefix(a, b, today, n - 1);
    }
}

/// A sweep over two runs of fetches gathers what the two runs gather, one
/// after the other: what one project gives, or fails to give, does not
/// change what the others give.
pub proof fn sweep_goes_project_by_project(
    first: Seq<ProjectFetch>,
    second: Seq<ProjectFetch>,
    today: LocalDate,
    n: int,
)
    requires
        0 <= n <= second.len(),
    ensures
        swept_tasks(first + second, today, first.len() + n) == swept_tasks(
            first,
            today,
            first.len() as int,
        ) + swept_tasks(second, today, n),
        swept_failures(first + second, first.len() + n) == swept_failures(
            first,
            first.len() as int,
        ) + swept_failures(second, n),
    decreases n,
{
    let all = first + second;
    let head = swept_tasks(first, today, first.len() as int);
    let fhead = swept_failures(first, first.len() as int);
    if n == 0 {
        sweep_of_a_prefix(first, all, today, first.len() as int);
        assert(head + Seq::<Task>::empty() =~= head);
        assert(fhead + Seq::<ProjectFailure>::empty() =~= fhead);
    } else {
        sweep_goes_project_by_project(first, second, today, n - 1);
        assert(all[first.len() + n - 1] == second[n - 1]);
        let mid = swept_tasks(second, today, n - 1);
        let last = match second[n - 1].outcome {
            Ok(data) => todays(data.tasks@, today),
            Err(_) => Seq::<Task>::empty(),
        };
        assert((head + mid) + last =~= head + (mid + last));
        let fmid = swept_failures(second, n - 1);
        match second[n - 1].outcome {
            Ok(_) => {},
            Err(error) => {
                let record = ProjectFailure {
                    project_id: second[n - 1].project.id,
                    project_name: second[n - 1].project.name,
                    error,
                };
                assert((fhead + fmid).push(record) =~= fhead + fmid.push(record));
            },
        }
    }
}

/// A project whose data did not come back gives no task and one failure
/// record, which names the project and carries the error.
pub proof fn a_failed_project_gives_its_record(fetch: ProjectFetch, today: LocalDate)
    requires
        fetch.outcome is Err,
    ensures
        swept_tasks(seq![fetch], today, 1) == Seq::<Task>::empty(),
        swept_failures(seq![fetch], 1) == seq![
            ProjectFailure {
                project_id: fetch.project.id,
                project_name: fetch.project.name,
                error: fetch.outcome->Err_0,
            },
        ],
{
    reveal_with_fuel(swept_tasks, 2);
    reveal_with_fuel(swept_failures, 2);
    assert(swept_tasks(seq![fetch], today, 1) =~= Seq::<Task>::empty());
    assert(swept_failures(seq![fetch], 1) =~= seq![
        ProjectFailure {
            project_id: fetch.project.id,
            project_name: fetch.project.name,
            error: fetch.outcome->Err_0,
        },
    ]);
}

} // verus!
