//! What is shown of a task, line by line. Nothing here prints: the lines are
//! values for the caller to write out.

use crate::types::{ChecklistItem, Task};
use vstd::prelude::*;
use vstd::string::*;

verus! {

/// The texts of a list of strings.
pub open spec fn texts(lines: Seq<String>) -> Seq<Seq<char>> {
    lines.map_values(|line: String| line@)
}

/// The lines of a text, without their line ends.
pub uninterp spec fn lines_of(text: Seq<char>) -> Seq<Seq<char>>;

/// A text with every match of a pattern replaced, where the pattern is a
/// regular expression that compiles.
pub uninterp spec fn regex_replaced(
    pattern: Seq<char>,
    text: Seq<char>,
    replacement: Seq<char>,
) -> Option<Seq<char>>;

/// `str::lines`: the lines of the text, each as a string of its own.
#[verifier::external_body]
fn split_lines(text: &str) -> (lines: Vec<String>)
    ensures
        texts(lines@) == lines_of(text@),
{
    text.lines().map(|line| line.to_string()).collect()
}

/// `regex::Regex::new` and, on the expression it gives,
/// `regex::Regex::replace_all`: the text with every match replaced, and
/// nothing where the pattern does not compile.
#[verifier::external_body]
fn replace_matches(pattern: &str, text: &str, replacement: &str) -> (replaced: Option<String>)
    ensures
        match replaced {
            Some(r) => regex_replaced(pattern@, text@, replacement@) == Some(r@),
            None => regex_replaced(pattern@, text@, replacement@) is None,
        },
{
    let expression = regex::Regex::new(pattern).ok()?;
    Some(expression.replace_all(text, replacement).into_owned())
}

/// The mark shown before a task of a priority: red for high (5), yellow for
/// medium (3), blue for low (1), white for none or anything else.
pub open spec fn priority_emoji_text(priority: Option<i32>) -> Seq<char> {
    match priority {
        Some(5) => "🔴"@,
        Some(3) => "🟡"@,
        Some(1) => "🔵"@,
        _ => "⚪"@,
    }
}

/// The mark shown before a checklist item: a tick once it is done (status 1),
/// an empty box otherwise.
pub open spec fn item_icon_text(status: i32) -> Seq<char> {
    if status == 1 {
        "✅"@
    } else {
        "☐"@
    }
}

/// A text in which every Markdown link `[label](target)` has become a
/// terminal hyperlink, underlined and in cyan.
pub open spec fn linked_text(text: Seq<char>) -> Seq<char> {
    match regex_replaced(
        r"\[([^\]]+)\]\(([^)]+)\)"@,
        text,
        "\x1b[4m\x1b[36m\x1b]8;;$2\x1b\\$1\x1b]8;;\x1b\\\x1b[0m"@,
    ) {
        Some(replaced) => replaced,
        None => text,
    }
}

/// The first line of a task: its priority mark and its title.
pub open spec fn title_line(task: Task) -> Seq<char> {
    "  "@ + priority_emoji_text(task.priority) + " "@ + task.title@
}

/// The first `n` lines of a content, each indented and with its links
/// converted.
pub open spec fn content_body(lines: Seq<Seq<char>>, n: int) -> Seq<Seq<char>>
    decreases n,
{
    if n <= 0 {
        Seq::empty()
    } else {
        content_body(lines, n - 1).push("      "@ + linked_text(lines[n - 1]))
    }
}

/// The lines for the content of a task: none without content, one for a
/// content of one line, and a heading with one line for each otherwise.
pub open spec fn content_lines(content: Option<String>) -> Seq<Seq<char>> {
    match content {
        Some(text) if text@.len() > 0 => {
            if lines_of(text@).len() == 1 {
                seq!["    📝 "@ + linked_text(text@)]
            } else {
                seq!["    📝 Content:"@] + content_body(lines_of(text@), lines_of(text@).len() as int)
            }
        },
        _ => Seq::empty(),
    }
}

/// The line for the description of a task, where it has one.
pub open spec fn desc_lines(desc: Option<String>) -> Seq<Seq<char>> {
    match desc {
        Some(text) if text@.len() > 0 => seq!["    📄 "@ + text@],
        _ => Seq::empty(),
    }
}

/// The line for a date of a task, where it has one: the label and the date
/// as it is to be shown.
pub open spec fn date_lines(label: Seq<char>, shown: Option<String>) -> Seq<Seq<char>> {
    match shown {
        Some(text) => seq![label + text@],
        None => Seq::empty(),
    }
}

/// The line of one checklist item.
pub open spec fn item_line(item: ChecklistItem) -> Seq<char> {
    "      "@ + item_icon_text(item.status) + " "@ + item.title@
}

/// The lines of the first `n` checklist items.
pub open spec fn item_body(items: Seq<ChecklistItem>, n: int) -> Seq<Seq<char>>
    decreases n,
{
    if n <= 0 {
        Seq::empty()
    } else {
        item_body(items, n - 1).push(item_line(items[n - 1]))
    }
}

/// The lines for the checklist of a task: a heading and one line for each
/// item, and nothing for a task without items.
pub open spec fn item_lines(items: Option<Vec<ChecklistItem>>) -> Seq<Seq<char>> {
    match items {
        Some(list) if list@.len() > 0 => seq!["    📋 Subtasks:"@] + item_body(
            list@,
            list@.len() as int,
        ),
        _ => Seq::empty(),
    }
}

/// Everything that is shown of a task, given how its two dates are to be
/// shown: the title, the content, the description, the due date, the start
/// date and the checklist, in this order.
pub open spec fn task_text(task: Task, due: Option<String>, start: Option<String>) -> Seq<
    Seq<char>,
> {
    seq![title_line(task)] + content_lines(task.content) + desc_lines(task.desc) + date_lines(
        "    ⏰ Due: "@,
        due,
    ) + date_lines("    🚀 Start: "@, start) + item_lines(task.items)
}

/// The mark shown before a task of a priority.
pub fn get_priority_emoji(priority: Option<i32>) -> (emoji: &'static str)
    ensures
        emoji@ == priority_emoji_text(priority),
{
    match priority {
        Some(5) => "🔴",
        Some(3) => "🟡",
        Some(1) => "🔵",
        _ => "⚪",
    }
}

/// The mark shown before a checklist item.
pub fn item_icon(status: i32) -> (icon: &'static str)
    ensures
        icon@ == item_icon_text(status),
{
    if status == 1 {
        "✅"
    } else {
        "☐"
    }
}

/// Turns every Markdown link of a text into a terminal hyperlink.
pub fn convert_markdown_links(text: &str) -> (converted: String)
    ensures
        converted@ == linked_text(text@),
{
    match replace_matches(
        r"\[([^\]]+)\]\(([^)]+)\)",
        text,
        "\x1b[4m\x1b[36m\x1b]8;;$2\x1b\\$1\x1b]8;;\x1b\\\x1b[0m",
    ) {
        Some(replaced) => replaced,
        None => String::from_str(text),
    }
}

/// The lines for the content of a task.
fn content_part(content: &Option<String>) -> (part: Vec<String>)
    ensures
        texts(part@) == content_lines(*content),
{
    let mut part: Vec<String> = Vec::new();
    match content {
        Some(text) => {
            if !text.as_str().is_empty() {
                let lines = split_lines(text.as_str());
                assert(lines@.len() == lines_of(text@).len());
                if lines.len() == 1 {
                    let line = String::from_str("    📝 ").concat(
                        convert_markdown_links(text.as_str()).as_str(),
                    );
                    part.push(line);
                    assert(texts(part@) =~= seq!["    📝 "@ + linked_text(text@)]);
                } else {
                    part.push(String::from_str("    📝 Content:"));
                    let mut i: usize = 0;
                    while i < lines.len()
                        invariant
                            i <= lines.len(),
                            texts(lines@) == lines_of(text@),
                            texts(part@) == seq!["    📝 Content:"@] + content_body(
                                lines_of(text@),
                                i as int,
                            ),
                        decreases lines.len() - i,
                    {
                        let line = String::from_str("      ").concat(
                            convert_markdown_links(lines[i].as_str()).as_str(),
                        );
                        proof {
                            assert(texts(lines@)[i as int] == lines@[i as int]@);
                            let body = content_body(lines_of(text@), i as int);
                            assert(texts(part@.push(line)) =~= texts(part@).push(line@));
                            assert((seq!["    📝 Content:"@] + body).push(line@) =~= seq![
                                "    📝 Content:"@,
                            ] + body.push(line@));
                        }
                        part.push(line);
                        i += 1;
                    }
                }
            }
        },
        None => {},
    }
    proof {
        if texts(part@).len() == 0 {
            assert(texts(part@) =~= Seq::<Seq<char>>::empty());
        }
    }
    part
}

/// The lines for the checklist of a task.
fn items_part(items: &Option<Vec<ChecklistItem>>) -> (part: Vec<String>)
    ensures
        texts(part@) == item_lines(*items),
{
    let mut part: Vec<String> = Vec::new();
    match items {
        Some(list) => {
            if list.len() > 0 {
                part.push(String::from_str("    📋 Subtasks:"));
                let mut i: usize = 0;
                while i < list.len()
                    invariant
                        i <= list.len(),
                        texts(part@) == seq!["    📋 Subtasks:"@] + item_body(list@, i as int),
                    decreases list.len() - i,
                {
                    let line = String::from_str("      ").concat(item_icon(list[i].status)).concat(
                        " ",
                    ).concat(list[i].title.as_str());
                    proof {
                        let body = item_body(list@, i as int);
                        assert(line@ == item_line(list@[i as int]));
                        assert(texts(part@.push(line)) =~= texts(part@).push(line@));
                        assert((seq!["    📋 Subtasks:"@] + body).push(line@) =~= seq![
                            "    📋 Subtasks:"@,
                        ] + body.push(line@));
                    }
                    part.push(line);
                    i += 1;
                }
            }
        },
        None => {},
    }
    proof {
        if texts(part@).len() == 0 {
            assert(texts(part@) =~= Seq::<Seq<char>>::empty());
        }
    }
    part
}

/// Everything that is shown of a task, line by line, given how its due date
/// and its start date are to be shown.
pub fn task_lines(task: &Task, due: Option<String>, start: Option<String>) -> (lines: Vec<String>)
    ensures
        texts(lines@) == task_text(*task, due, start),
{
    let mut lines: Vec<String> = Vec::new();
    let title = String::from_str("  ").concat(get_priority_emoji(task.priority)).concat(" ").concat(
        task.title.as_str(),
    );
    lines.push(title);
    assert(texts(lines@) =~= seq![title_line(*task)]);
    let mut content = content_part(&task.content);
    let ghost before = lines@;
    let ghost more = content@;
    lines.append(&mut content);
    assert(texts(lines@) =~= texts(before) + texts(more));
    match &task.desc {
        Some(text) => {
            if !text.as_str().is_empty() {
                let ghost before = lines@;
                let line = String::from_str("    📄 ").concat(text.as_str());
                lines.push(line);
                assert(texts(lines@) =~= texts(before) + seq!["    📄 "@ + text@]);
            }
        },
        None => {},
    }
    assert(texts(lines@) =~= seq![title_line(*task)] + content_lines(task.content) + desc_lines(
        task.desc,
    ));
    match due {
        Some(text) => {
            let ghost before = lines@;
            let line = String::from_str("    ⏰ Due: ").concat(text.as_str());
            lines.push(line);
            assert(texts(lines@) =~= texts(before) + seq!["    ⏰ Due: "@ + text@]);
        },
        None => {},
    }
    assert(texts(lines@) =~= seq![title_line(*task)] + content_lines(task.content) + desc_lines(
        task.desc,
    ) + date_lines("    ⏰ Due: "@, due));
    match start {
        Some(text) => {
            let ghost before = lines@;
            let line = String::from_str("    🚀 Start: ").concat(text.as_str());
            lines.push(line);
            assert(texts(lines@) =~= texts(before) + seq!["    🚀 Start: "@ + text@]);
        },
        None => {},
    }
    assert(texts(lines@) =~= seq![title_line(*task)] + content_lines(task.content) + desc_lines(
        task.desc,
    ) + date_lines("    ⏰ Due: "@, due) + date_lines("    🚀 Start: "@, start));
    let mut items = items_part(&task.items);
    let ghost before = lines@;
    let ghost more = items@;
    lines.append(&mut items);
    assert(texts(lines@) =~= texts(before) + texts(more));
    lines
}

} // verus!
