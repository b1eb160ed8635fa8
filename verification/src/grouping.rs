//! Tasks grouped by project for display: one section for each project that
//! has a task, the inbox first and the others in the order of their
//! identifiers.

use crate::date::digit_char;
use crate::types::{Project, Task};
use vstd::prelude::*;
use vstd::string::*;
use vstd::utf8::*;

verus! {

/// One section: a project's identifier and the positions of its tasks in the
/// list that was grouped.
#[derive(Clone, Debug, PartialEq, Eq)]
pub struct TaskGroup {
    pub project_id: String,
    pub members: Vec<usize>,
}

/// Whether one byte string comes before another in the order of a
/// dictionary: at the first place where they differ it has the smaller
/// byte, or it ends there and the other goes on.
pub open spec fn bytes_precede(a: Seq<u8>, b: Seq<u8>) -> bool
    decreases a.len(),
{
    if b.len() == 0 {
        false
    } else if a.len() == 0 {
        true
    } else if a[0] != b[0] {
        a[0] < b[0]
    } else {
        bytes_precede(a.drop_first(), b.drop_first())
    }
}

/// Whether `text` begins with `prefix`.
pub open spec fn begins_with(text: Seq<char>, prefix: Seq<char>) -> bool {
    prefix.len() <= text.len() && text.subrange(0, prefix.len() as int) == prefix
}

/// Whether an identifier is one of the inbox: it begins with `inbox`.
pub open spec fn is_inbox(id: Seq<char>) -> bool {
    begins_with(id, "inbox"@)
}

/// Whether the section of one project comes before that of another: the
/// inbox before any project, and otherwise by the bytes of the identifiers.
pub open spec fn section_before(a: Seq<char>, b: Seq<char>) -> bool {
    if is_inbox(a) != is_inbox(b) {
        is_inbox(a)
    } else {
        bytes_precede(encode_utf8(a), encode_utf8(b))
    }
}

/// Whether a group is sound for the first `upto` tasks: it has a member, its
/// members are positions among them in rising order, and each is a task of
/// the group's project.
pub open spec fn group_ok(tasks: Seq<Task>, group: TaskGroup, upto: int) -> bool {
    &&& group.members@.len() > 0
    &&& forall|k: int|
        0 <= k < group.members@.len() ==> 0 <= #[trigger] group.members@[k] < upto
            && tasks[group.members@[k] as int].project_id@ == group.project_id@
    &&& forall|k: int, l: int|
        0 <= k < l < group.members@.len() ==> group.members@[k] < group.members@[l]
}

/// Whether position `i` is a member of a group.
pub open spec fn holds(group: TaskGroup, i: int) -> bool {
    exists|k: int| 0 <= k < group.members@.len() && #[trigger] group.members@[k] == i
}

/// Whether position `i` is a member of one of the groups.
pub open spec fn placed(groups: Seq<TaskGroup>, i: int) -> bool {
    exists|g: int| 0 <= g < groups.len() && holds(#[trigger] groups[g], i)
}

/// Whether `groups` is the grouping of the first `upto` tasks: every group
/// is sound, no two groups share a project, the groups stand in the order of
/// their sections, and every task is a member of a group.
pub open spec fn grouped_upto(tasks: Seq<Task>, groups: Seq<TaskGroup>, upto: int) -> bool {
    &&& forall|g: int| 0 <= g < groups.len() ==> group_ok(tasks, #[trigger] groups[g], upto)
    &&& forall|g: int, h: int|
        0 <= g < h < groups.len() ==> (#[trigger] groups[g]).project_id@
            != (#[trigger] groups[h]).project_id@
    &&& forall|g: int, h: int|
        0 <= g < h < groups.len() ==> !section_before(
            (#[trigger] groups[h]).project_id@,
            (#[trigger] groups[g]).project_id@,
        )
    &&& forall|i: int| 0 <= i < upto ==> #[trigger] placed(groups, i)
}

/// Whether `groups` is the grouping of `tasks`.
pub open spec fn grouped(tasks: Seq<Task>, groups: Seq<TaskGroup>) -> bool {
    grouped_upto(tasks, groups, tasks.len() as int)
}

/// The name of the last of the first `n` projects that has this identifier.
pub open spec fn project_name(projects: Seq<Project>, id: Seq<char>, n: int) -> Option<Seq<char>>
    decreases n,
{
    if n <= 0 {
        None
    } else if projects[n - 1].id@ == id {
        Some(projects[n - 1].name@)
    } else {
        project_name(projects, id, n - 1)
    }
}

/// The title of a section: `Inbox` for the inbox, the project's name for a
/// project that is known, and `Unknown Project` for any other.
pub open spec fn section_title_text(id: Seq<char>, projects: Seq<Project>) -> Seq<char> {
    if is_inbox(id) {
        "📥 Inbox"@
    } else {
        match project_name(projects, id, projects.len() as int) {
            Some(name) => name,
            None => "Unknown Project"@,
        }
    }
}

/// A number in decimal digits.
pub open spec fn decimal(n: nat) -> Seq<char>
    decreases n,
{
    if n < 10 {
        seq![digit_char(n as int)]
    } else {
        decimal(n / 10).push(digit_char((n % 10) as int))
    }
}

/// The three lines that head a section: a rule, the title with the number
/// of tasks, and a rule.
pub open spec fn section_header_text(title: Seq<char>, count: nat) -> Seq<Seq<char>> {
    seq![
        "╔══════════════════════════════════════════════════"@,
        "║ 📁 "@ + title + " ("@ + decimal(count) + " task"@ + (if count == 1 {
            ""@
        } else {
            "s"@
        }) + ")"@,
        "╚══════════════════════════════════════════════════"@,
    ]
}

/// The order of `str`: strings are ordered by their bytes, as a dictionary
/// orders words.
#[verifier::external_body]
fn text_precedes(a: &str, b: &str) -> (before: bool)
    ensures
        before == bytes_precede(a.spec_bytes(), b.spec_bytes()),
{
    a < b
}

/// `usize`'s `to_string`: the number in decimal digits, without a sign or
/// leading zeros.
#[verifier::external_body]
fn decimal_string(n: usize) -> (text: String)
    ensures
        text@ == decimal(n as nat),
{
    n.to_string()
}

/// No byte string comes before itself.
pub proof fn precedence_is_irreflexive(a: Seq<u8>)
    ensures
        !bytes_precede(a, a),
    decreases a.len(),
{
    if a.len() > 0 {
        precedence_is_irreflexive(a.drop_first());
    }
}

/// What comes before something that comes before a third comes before the
/// third.
pub proof fn precedence_is_transitive(a: Seq<u8>, b: Seq<u8>, c: Seq<u8>)
    requires
        bytes_precede(a, b),
        bytes_precede(b, c),
    ensures
        bytes_precede(a, c),
    decreases a.len(),
{
    if a.len() > 0 && b.len() > 0 && c.len() > 0 && a[0] == b[0] && b[0] == c[0] {
        precedence_is_transitive(a.drop_first(), b.drop_first(), c.drop_first());
    }
}

/// The order of sections is a strict order: no section comes before itself,
/// and the order is transitive.
pub proof fn sections_are_strictly_ordered(a: Seq<char>, b: Seq<char>, c: Seq<char>)
    ensures
        !section_before(a, a),
        section_before(a, b) && section_before(b, c) ==> section_before(a, c),
        section_before(a, b) ==> !section_before(b, a),
{
    precedence_is_irreflexive(encode_utf8(a));
    if section_before(a, b) && section_before(b, c) {
        if is_inbox(a) == is_inbox(b) && is_inbox(b) == is_inbox(c) {
            precedence_is_transitive(encode_utf8(a), encode_utf8(b), encode_utf8(c));
        }
    }
    if section_before(a, b) && section_before(b, a) {
        precedence_is_transitive(encode_utf8(a), encode_utf8(b), encode_utf8(a));
    }
}

/// Of two byte strings that differ, one comes before the other.
pub proof fn precedence_is_total(a: Seq<u8>, b: Seq<u8>)
    requires
        a != b,
    ensures
        bytes_precede(a, b) || bytes_precede(b, a),
    decreases a.len(),
{
    if a.len() > 0 && b.len() > 0 && a[0] == b[0] {
        if a.drop_first() =~= b.drop_first() {
            assert(a =~= seq![a[0]] + a.drop_first());
            assert(b =~= seq![b[0]] + b.drop_first());
        }
        precedence_is_total(a.drop_first(), b.drop_first());
    } else if a.len() == 0 && b.len() == 0 {
        assert(a =~= b);
    }
}

/// Of the sections of two projects with different identifiers, one comes
/// before the other: the order of the groups is the only one there is.
pub proof fn sections_are_totally_ordered(a: Seq<char>, b: Seq<char>)
    requires
        a != b,
    ensures
        section_before(a, b) || section_before(b, a),
{
    if is_inbox(a) == is_inbox(b) {
        encode_utf8_decode_utf8(a);
        encode_utf8_decode_utf8(b);
        precedence_is_total(encode_utf8(a), encode_utf8(b));
    }
}

/// Whether `text` begins with `prefix`.
pub fn has_prefix(text: &str, prefix: &str) -> (found: bool)
    ensures
        found == begins_with(text@, prefix@),
{
    let n = prefix.unicode_len();
    if n > text.unicode_len() {
        return false;
    }
    let mut i: usize = 0;
    while i < n
        invariant
            i <= n,
            n == prefix@.len(),
            n <= text@.len(),
            forall|j: int| 0 <= j < i ==> text@[j] == prefix@[j],
        decreases n - i,
    {
        if text.get_char(i) != prefix.get_char(i) {
            assert(text@.subrange(0, n as int)[i as int] != prefix@[i as int]);
            return false;
        }
        i += 1;
    }
    assert(text@.subrange(0, n as int) =~= prefix@);
    true
}

/// Whether the section of project `a` comes before that of project `b`.
pub fn comes_before(a: &str, b: &str) -> (before: bool)
    ensures
        before == section_before(a@, b@),
{
    let a_inbox = has_prefix(a, "inbox");
    let b_inbox = has_prefix(b, "inbox");
    if a_inbox != b_inbox {
        a_inbox
    } else {
        text_precedes(a, b)
    }
}

/// The title of the section of a project.
pub fn section_title(project_id: &str, projects: &Vec<Project>) -> (title: String)
    ensures
        title@ == section_title_text(project_id@, projects@),
{
    if has_prefix(project_id, "inbox") {
        return String::from_str("📥 Inbox");
    }
    let id = String::from_str(project_id);
    let mut n: usize = projects.len();
    while n > 0
        invariant
            n <= projects.len(),
            id@ == project_id@,
            !is_inbox(project_id@),
            project_name(projects@, project_id@, projects.len() as int) == project_name(
                projects@,
                project_id@,
                n as int,
            ),
        decreases n,
    {
        if projects[n - 1].id == id {
            return projects[n - 1].name.clone();
        }
        n -= 1;
    }
    String::from_str("Unknown Project")
}

/// The three lines that head a section of `count` tasks.
pub fn section_header(title: &str, count: usize) -> (lines: Vec<String>)
    ensures
        lines@.len() == 3,
        lines@.map_values(|line: String| line@) == section_header_text(title@, count as nat),
{
    let plural = if count == 1 {
        ""
    } else {
        "s"
    };
    let middle = String::from_str("║ 📁 ").concat(title).concat(" (").concat(
        decimal_string(count).as_str(),
    ).concat(" task").concat(plural).concat(")");
    let mut lines: Vec<String> = Vec::new();
    lines.push(String::from_str("╔══════════════════════════════════════════════════"));
    lines.push(middle);
    lines.push(String::from_str("╚══════════════════════════════════════════════════"));
    assert(lines@.map_values(|line: String| line@) =~= section_header_text(title@, count as nat));
    lines
}

/// The position of the group of a project, if there is one.
fn find_group(groups: &Vec<TaskGroup>, id: &String) -> (found: Option<usize>)
    ensures
        match found {
            Some(g) => g < groups.len() && groups[g as int].project_id@ == id@,
            None => forall|g: int|
                0 <= g < groups.len() ==> (#[trigger] groups[g]).project_id@ != id@,
        },
{
    let mut g: usize = 0;
    while g < groups.len()
        invariant
            g <= groups.len(),
            forall|h: int| 0 <= h < g ==> (#[trigger] groups[h]).project_id@ != id@,
        decreases groups.len() - g,
    {
        if groups[g].project_id == *id {
            return Some(g);
        }
        g += 1;
    }
    None
}

/// The position at which the section of a project that has no group yet
/// belongs: before the first group that it comes before.
fn insert_position(groups: &Vec<TaskGroup>, id: &str) -> (p: usize)
    ensures
        p <= groups.len(),
        forall|g: int| 0 <= g < p ==> !section_before(id@, (#[trigger] groups[g]).project_id@),
        p < groups.len() ==> section_before(id@, groups[p as int].project_id@),
{
    let mut p: usize = 0;
    while p < groups.len()
        invariant
            p <= groups.len(),
            forall|g: int| 0 <= g < p ==> !section_before(id@, (#[trigger] groups[g]).project_id@),
        decreases groups.len() - p,
    {
        if comes_before(id, groups[p].project_id.as_str()) {
            return p;
        }
        p += 1;
    }
    p
}

/// Groups tasks by project. Each project that has a task gets one group,
/// which lists the positions of its tasks in rising order; the groups stand
/// in the order of their sections, the inbox first.
pub fn group_by_project(tasks: &Vec<Task>) -> (groups: Vec<TaskGroup>)
    ensures
        grouped(tasks@, groups@),
{
    let mut groups: Vec<TaskGroup> = Vec::new();
    let mut i: usize = 0;
    while i < tasks.len()
        invariant
            i <= tasks.len(),
            grouped_upto(tasks@, groups@, i as int),
        decreases tasks.len() - i,
    {
        let ghost before = groups@;
        let id = tasks[i].project_id.clone();
        match find_group(&groups, &id) {
            Some(g) => {
                let mut group = groups.remove(g);
                let ghost old_group = group;
                group.members.push(i);
                let ghost new_group = group;
                groups.insert(g, group);
                proof {
                    assert(groups@ =~= before.update(g as int, new_group));
                    assert(group_ok(tasks@, before[g as int], i as int));
                    assert(group_ok(tasks@, new_group, i + 1)) by {
                        assert forall|k: int| 0 <= k < new_group.members@.len() implies 0
                            <= #[trigger] new_group.members@[k] < i + 1 && tasks@[new_group.members@[k] as int].project_id@
                            == new_group.project_id@ by {
                            if k < old_group.members@.len() {
                                assert(new_group.members@[k] == old_group.members@[k]);
                            }
                        }
                        assert forall|k: int, l: int|
                            0 <= k < l < new_group.members@.len() implies new_group.members@[k]
                            < new_group.members@[l] by {
                            assert(new_group.members@[k] == old_group.members@[k]);
                            if l < old_group.members@.len() {
                                assert(new_group.members@[l] == old_group.members@[l]);
                            }
                        }
                    }
                    assert forall|h: int| 0 <= h < groups@.len() implies group_ok(
                        tasks@,
                        #[trigger] groups@[h],
                        i + 1,
                    ) by {
                        if h != g {
                            assert(groups@[h] == before[h]);
                            assert(group_ok(tasks@, before[h], i as int));
                        }
                    }
                    assert forall|a: int, b: int| 0 <= a < b < groups@.len() implies (
                    #[trigger] groups@[a]).project_id@ != (#[trigger] groups@[b]).project_id@
                        && !section_before(groups@[b].project_id@, groups@[a].project_id@) by {
                        assert(groups@[a].project_id@ == before[a].project_id@);
                        assert(groups@[b].project_id@ == before[b].project_id@);
                    }
                    assert forall|j: int| 0 <= j < i + 1 implies #[trigger] placed(groups@, j) by {
                        if j < i {
                            assert(placed(before, j));
                            let h = choose|h: int| 0 <= h < before.len() && holds(#[trigger] before[h], j);
                            let k = choose|k: int|
                                0 <= k < before[h].members@.len() && #[trigger] before[h].members@[k]
                                    == j;
                            if h == g {
                                assert(new_group.members@[k] == j);
                            } else {
                                assert(groups@[h] == before[h]);
                            }
                            assert(holds(groups@[h], j));
                        } else {
                            assert(new_group.members@[new_group.members@.len() - 1] == j);
                            assert(holds(groups@[g as int], j));
                        }
                    }
                }
            },
            None => {
                let p = insert_position(&groups, id.as_str());
                let mut members: Vec<usize> = Vec::new();
                members.push(i);
                let group = TaskGroup { project_id: id, members };
                let ghost new_group = group;
                groups.insert(p, group);
                proof {
                    assert(groups@ =~= before.insert(p as int, new_group));
                    assert(group_ok(tasks@, new_group, i + 1));
                    assert forall|h: int| 0 <= h < groups@.len() implies group_ok(
                        tasks@,
                        #[trigger] groups@[h],
                        i + 1,
                    ) by {
                        if h < p {
                            assert(groups@[h] == before[h]);
                            assert(group_ok(tasks@, before[h], i as int));
                        } else if h > p {
                            assert(groups@[h] == before[h - 1]);
                            assert(group_ok(tasks@, before[h - 1], i as int));
                        }
                    }
                    assert forall|a: int, b: int| 0 <= a < b < groups@.len() implies (
                    #[trigger] groups@[a]).project_id@ != (#[trigger] groups@[b]).project_id@
                        && !section_before(groups@[b].project_id@, groups@[a].project_id@) by {
                        let old_a = if a < p { a } else { a - 1 };
                        let old_b = if b < p { b } else { b - 1 };
                        if a != p && b != p {
                            assert(groups@[a] == before[old_a]);
                            assert(groups@[b] == before[old_b]);
                        } else if a == p {
                            assert(groups@[b] == before[b - 1]);
                            assert(groups@[a] == new_group);
                            assert(section_before(new_group.project_id@, before[p as int].project_id@));
                            if b - 1 > p {
                                assert(!section_before(
                                    before[b - 1].project_id@,
                                    before[p as int].project_id@,
                                ));
                            }
                            sections_are_strictly_ordered(
                                before[b - 1].project_id@,
                                new_group.project_id@,
                                before[p as int].project_id@,
                            );
                            sections_are_strictly_ordered(
                                new_group.project_id@,
                                before[p as int].project_id@,
                                new_group.project_id@,
                            );
                        } else {
                            assert(groups@[a] == before[a]);
                            assert(groups@[b] == new_group);
                        }
                    }
                    assert forall|j: int| 0 <= j < i + 1 implies #[trigger] placed(groups@, j) by {
                        if j < i {
                            assert(placed(before, j));
                            let h = choose|h: int| 0 <= h < before.len() && holds(#[trigger] before[h], j);
                            let h2 = if h < p { h } else { h + 1 };
                            assert(groups@[h2] == before[h]);
                            assert(holds(groups@[h2], j));
                        } else {
                            assert(new_group.members@[0] == j);
                            assert(holds(groups@[p as int], j));
                        }
                    }
                }
            },
        }
        i += 1;
    }
    groups
}

} // verus!
