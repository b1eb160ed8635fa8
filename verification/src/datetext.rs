//! The texts that are handed to the date parser.
//!
//! The parser reads dates and times in many loose forms: `2024-01-04`,
//! `2024/1/4 18:30`, `20240104T183004Z`, `4 January 2024 6:30 pm`,
//! `Jan 4th, 2024 at 18:30:04.250 +05:30`. It is not safe on every text: it
//! reads past the last token after a trailing sign or separator, takes a
//! number of seconds for granted after `HH:MM:`, overflows on very long
//! numbers, and its weekday arithmetic fails in the year 0 and on the last
//! days of the calendar. A date text is a text on which none of this can
//! happen. The rules speak of characters only, one position at a time:
//!
//! - the text has at most 64 characters, all of them ASCII;
//! - a run of digits has at most 9 digits, or 12 or 14 with no fraction
//!   behind it, and at most 4 next to a colon;
//! - a colon is followed by a digit;
//! - a comma behind a digit is followed by neither a digit nor a full stop;
//! - the text does not end with `+`, `-` or `/`, nor with a letter behind a
//!   digit and a full stop.
//!
//! A text in which a word begins like the name of a weekday is taken only in
//! the years 100 to 9999, and only where every run of digits has 1 to 4, 6,
//! 8, 12 or 14 digits, none but one behind `+` is `000` or `0000`, and no
//! number has a fraction.

use vstd::prelude::*;
use vstd::string::*;

verus! {

/// The greatest number of characters of a date text.
pub const MAX_DATE_TEXT_CHARS: usize = 64;

/// Whether a character is one of the ten ASCII digits.
pub open spec fn is_digit(c: char) -> bool {
    '0' <= c <= '9'
}

/// Whether a character is an ASCII letter.
pub open spec fn is_letter(c: char) -> bool {
    'a' <= c <= 'z' || 'A' <= c <= 'Z'
}

/// Whether a character is an ASCII character.
pub open spec fn is_ascii_char(c: char) -> bool {
    c <= '\x7f'
}

/// Whether `c` is the letter written `lower` or `upper`.
pub open spec fn is_the_letter(c: char, lower: char, upper: char) -> bool {
    c == lower || c == upper
}

/// The number of digits of `s` from position `from` on, up to the first
/// character that is no digit.
pub open spec fn digits_from(s: Seq<char>, from: int) -> int
    decreases s.len() - from,
{
    if 0 <= from < s.len() && is_digit(s[from]) {
        1 + digits_from(s, from + 1)
    } else {
        0
    }
}

/// Whether a run of digits begins at position `at`.
pub open spec fn starts_digits(s: Seq<char>, at: int) -> bool {
    is_digit(s[at]) && (at == 0 || !is_digit(s[at - 1]))
}

/// Whether a word begins at position `at`.
pub open spec fn starts_word(s: Seq<char>, at: int) -> bool {
    is_letter(s[at]) && (at == 0 || !is_letter(s[at - 1]))
}

/// Whether the run of `count` digits at position `at` is one that the parser
/// can take: at most 9 digits, or 12 or 14 that neither `.` nor `,` follows;
/// and at most 4 where a colon stands before or behind the run.
pub open spec fn run_fits(s: Seq<char>, at: int, count: int) -> bool {
    let end = at + count;
    let fraction_follows = end < s.len() && (s[end] == '.' || s[end] == ',');
    let colon_before = at > 0 && s[at - 1] == ':';
    let colon_behind = end < s.len() && s[end] == ':';
    &&& count <= 9 || ((count == 12 || count == 14) && !fraction_follows)
    &&& colon_before || colon_behind ==> count <= 4
}

/// Whether the three characters from position `at` on begin the name of a
/// weekday, in either case: `mon`, `tue`, `wed`, `thu`, `fri`, `sat`, `sun`.
pub open spec fn begins_weekday(s: Seq<char>, at: int) -> bool {
    &&& at + 3 <= s.len()
    &&& {
        let a = s[at];
        let b = s[at + 1];
        let c = s[at + 2];
        ||| is_the_letter(a, 'm', 'M') && is_the_letter(b, 'o', 'O') && is_the_letter(c, 'n', 'N')
        ||| is_the_letter(a, 't', 'T') && is_the_letter(b, 'u', 'U') && is_the_letter(c, 'e', 'E')
        ||| is_the_letter(a, 'w', 'W') && is_the_letter(b, 'e', 'E') && is_the_letter(c, 'd', 'D')
        ||| is_the_letter(a, 't', 'T') && is_the_letter(b, 'h', 'H') && is_the_letter(c, 'u', 'U')
        ||| is_the_letter(a, 'f', 'F') && is_the_letter(b, 'r', 'R') && is_the_letter(c, 'i', 'I')
        ||| is_the_letter(a, 's', 'S') && is_the_letter(b, 'a', 'A') && is_the_letter(c, 't', 'T')
        ||| is_the_letter(a, 's', 'S') && is_the_letter(b, 'u', 'U') && is_the_letter(c, 'n', 'N')
    }
}

/// Whether position `at` keeps the rules of a date text.
pub open spec fn position_fits(s: Seq<char>, at: int) -> bool {
    &&& is_ascii_char(s[at])
    &&& s[at] == ':' ==> at + 1 < s.len() && is_digit(s[at + 1])
    &&& s[at] == ',' && at > 0 && is_digit(s[at - 1]) && at + 1 < s.len() ==> !is_digit(s[at + 1])
        && s[at + 1] != '.'
    &&& at == s.len() - 1 ==> s[at] != '+' && s[at] != '-' && s[at] != '/'
    &&& at == s.len() - 1 && at >= 2 && s[at - 1] == '.' && is_digit(s[at - 2]) ==> !is_letter(
        s[at],
    )
    &&& starts_digits(s, at) ==> run_fits(s, at, digits_from(s, at))
}

/// Whether a text keeps the rules that hold of every date text: it is short
/// enough, and every position keeps the rules.
pub open spec fn keeps_the_rules(s: Seq<char>) -> bool {
    &&& s.len() <= MAX_DATE_TEXT_CHARS
    &&& forall|at: int| 0 <= at < s.len() ==> position_fits(s, at)
}

/// Whether a word of the text begins like the name of a weekday.
pub open spec fn names_weekday(s: Seq<char>) -> bool {
    exists|at: int| 0 <= at < s.len() && starts_word(s, at) && #[trigger] begins_weekday(s, at)
}

/// Whether the run of `count` digits at position `at` is one that the parser
/// can take beside a weekday: 1 to 4, 6, 8, 12 or 14 digits, and neither
/// `000` nor `0000` unless `+` stands before it.
pub open spec fn run_fits_weekday(s: Seq<char>, at: int, count: int) -> bool {
    let signed = at > 0 && s[at - 1] == '+';
    &&& count <= 4 || count == 6 || count == 8 || count == 12 || count == 14
    &&& count == 3 && !signed ==> !(s[at] == '0' && s[at + 1] == '0' && s[at + 2] == '0')
    &&& count == 4 && !signed ==> !(s[at] == '0' && s[at + 1] == '0' && s[at + 2] == '0' && s[at
        + 3] == '0')
}

/// Whether position `at` keeps the rules for a text that names a weekday:
/// a run of digits that begins there fits, and no fraction begins there.
pub open spec fn position_fits_weekday(s: Seq<char>, at: int) -> bool {
    &&& starts_digits(s, at) ==> run_fits_weekday(s, at, digits_from(s, at))
    &&& (s[at] == '.' || s[at] == ',') && at > 0 && is_digit(s[at - 1]) && at + 1 < s.len()
        ==> !is_digit(s[at + 1])
}

/// Whether a text that names a weekday can be read in the year `year`.
pub open spec fn weekday_fits(s: Seq<char>, year: int) -> bool {
    &&& 100 <= year <= 9999
    &&& forall|at: int| 0 <= at < s.len() ==> position_fits_weekday(s, at)
}

/// Whether a text is a date text in the year `year`: it keeps the rules, and
/// where it names a weekday it keeps those for weekdays too.
pub open spec fn is_date_text(s: Seq<char>, year: int) -> bool {
    &&& keeps_the_rules(s)
    &&& names_weekday(s) ==> weekday_fits(s, year)
}

/// The characters of a text that is not longer than a date text can be.
fn short_text(raw: &str) -> (chars: Option<Vec<char>>)
    ensures
        match chars {
            Some(c) => c@ == raw@ && raw@.len() <= MAX_DATE_TEXT_CHARS,
            None => raw@.len() > MAX_DATE_TEXT_CHARS,
        },
{
    let n = raw.unicode_len();
    if n > MAX_DATE_TEXT_CHARS {
        return None;
    }
    let mut chars: Vec<char> = Vec::new();
    let mut i: usize = 0;
    while i < n
        invariant
            i <= n,
            n == raw@.len(),
            chars@ == raw@.take(i as int),
        decreases n - i,
    {
        chars.push(raw.get_char(i));
        assert(raw@.take(i + 1) =~= raw@.take(i as int).push(raw@[i as int]));
        i += 1;
    }
    assert(raw@.take(n as int) =~= raw@);
    Some(chars)
}

/// Whether a character is one of the ten ASCII digits.
fn digit(c: char) -> (yes: bool)
    ensures
        yes == is_digit(c),
{
    '0' <= c && c <= '9'
}

/// Whether a character is an ASCII letter.
fn letter(c: char) -> (yes: bool)
    ensures
        yes == is_letter(c),
{
    ('a' <= c && c <= 'z') || ('A' <= c && c <= 'Z')
}

/// The number of digits from position `from` on.
fn count_digits(chars: &Vec<char>, from: usize) -> (count: usize)
    requires
        from <= chars.len(),
    ensures
        count == digits_from(chars@, from as int),
        from + count <= chars.len(),
{
    let mut end = from;
    while end < chars.len() && digit(chars[end])
        invariant
            from <= end <= chars.len(),
            digits_from(chars@, from as int) == (end - from) + digits_from(chars@, end as int),
        decreases chars.len() - end,
    {
        end += 1;
    }
    end - from
}

/// Whether the run of `count` digits at position `at` is one that the parser
/// can take.
fn run_is_fit(chars: &Vec<char>, at: usize, count: usize) -> (fits: bool)
    requires
        at + count <= chars.len(),
    ensures
        fits == run_fits(chars@, at as int, count as int),
{
    let end = at + count;
    let fraction_follows = end < chars.len() && (chars[end] == '.' || chars[end] == ',');
    let colon_before = at > 0 && chars[at - 1] == ':';
    let colon_behind = end < chars.len() && chars[end] == ':';
    let length_fits = count <= 9 || ((count == 12 || count == 14) && !fraction_follows);
    length_fits && (!(colon_before || colon_behind) || count <= 4)
}

/// Whether `c` is the letter written `lower` or `upper`.
fn the_letter(c: char, lower: char, upper: char) -> (yes: bool)
    ensures
        yes == is_the_letter(c, lower, upper),
{
    c == lower || c == upper
}

/// Whether the three characters from position `at` on begin the name of a
/// weekday.
fn weekday_begins(chars: &Vec<char>, at: usize) -> (yes: bool)
    requires
        at < chars.len(),
    ensures
        yes == begins_weekday(chars@, at as int),
{
    if chars.len() - at < 3 {
        return false;
    }
    let a = chars[at];
    let b = chars[at + 1];
    let c = chars[at + 2];
    (the_letter(a, 'm', 'M') && the_letter(b, 'o', 'O') && the_letter(c, 'n', 'N')) || (the_letter(
        a,
        't',
        'T',
    ) && the_letter(b, 'u', 'U') && the_letter(c, 'e', 'E')) || (the_letter(a, 'w', 'W')
        && the_letter(b, 'e', 'E') && the_letter(c, 'd', 'D')) || (the_letter(a, 't', 'T')
        && the_letter(b, 'h', 'H') && the_letter(c, 'u', 'U')) || (the_letter(a, 'f', 'F')
        && the_letter(b, 'r', 'R') && the_letter(c, 'i', 'I')) || (the_letter(a, 's', 'S')
        && the_letter(b, 'a', 'A') && the_letter(c, 't', 'T')) || (the_letter(a, 's', 'S')
        && the_letter(b, 'u', 'U') && the_letter(c, 'n', 'N'))
}

/// Whether position `at` keeps the rules of a date text.
fn position_is_fit(chars: &Vec<char>, at: usize) -> (fits: bool)
    requires
        at < chars.len(),
    ensures
        fits == position_fits(chars@, at as int),
{
    let c = chars[at];
    if c > '\x7f' {
        return false;
    }
    if c == ':' && !(at + 1 < chars.len() && digit(chars[at + 1])) {
        return false;
    }
    if c == ',' && at > 0 && digit(chars[at - 1]) && at + 1 < chars.len() && (digit(chars[at + 1])
        || chars[at + 1] == '.') {
        return false;
    }
    if at == chars.len() - 1 && (c == '+' || c == '-' || c == '/') {
        return false;
    }
    if at == chars.len() - 1 && at >= 2 && chars[at - 1] == '.' && digit(chars[at - 2]) && letter(c) {
        return false;
    }
    if digit(c) && (at == 0 || !digit(chars[at - 1])) {
        let count = count_digits(chars, at);
        if !run_is_fit(chars, at, count) {
            return false;
        }
    }
    true
}

/// Whether a word of the text begins like the name of a weekday.
fn weekday_is_named(chars: &Vec<char>) -> (named: bool)
    ensures
        named == names_weekday(chars@),
{
    let mut at: usize = 0;
    while at < chars.len()
        invariant
            at <= chars.len(),
            forall|j: int|
                0 <= j < at ==> !(starts_word(chars@, j) && #[trigger] begins_weekday(chars@, j)),
        decreases chars.len() - at,
    {
        let c = chars[at];
        if letter(c) && (at == 0 || !letter(chars[at - 1])) && weekday_begins(chars, at) {
            return true;
        }
        at += 1;
    }
    false
}

/// Whether position `at` keeps the rules for a text that names a weekday.
fn position_is_fit_for_weekday(chars: &Vec<char>, at: usize) -> (fits: bool)
    requires
        at < chars.len(),
    ensures
        fits == position_fits_weekday(chars@, at as int),
{
    let c = chars[at];
    if (c == '.' || c == ',') && at > 0 && digit(chars[at - 1]) && at + 1 < chars.len() && digit(
        chars[at + 1],
    ) {
        return false;
    }
    if !(digit(c) && (at == 0 || !digit(chars[at - 1]))) {
        return true;
    }
    let count = count_digits(chars, at);
    if !(count <= 4 || count == 6 || count == 8 || count == 12 || count == 14) {
        return false;
    }
    let signed = at > 0 && chars[at - 1] == '+';
    if count == 3 && !signed && chars[at] == '0' && chars[at + 1] == '0' && chars[at + 2] == '0' {
        return false;
    }
    if count == 4 && !signed && chars[at] == '0' && chars[at + 1] == '0' && chars[at + 2] == '0'
        && chars[at + 3] == '0' {
        return false;
    }
    true
}

/// Whether a text that names a weekday can be read in the year `year`.
fn weekday_is_fit(chars: &Vec<char>, year: i32) -> (fits: bool)
    ensures
        fits == weekday_fits(chars@, year as int),
{
    if year < 100 || year > 9999 {
        return false;
    }
    let mut at: usize = 0;
    while at < chars.len()
        invariant
            at <= chars.len(),
            forall|j: int| 0 <= j < at ==> position_fits_weekday(chars@, j),
        decreases chars.len() - at,
    {
        if !position_is_fit_for_weekday(chars, at) {
            return false;
        }
        at += 1;
    }
    true
}

/// Whether a text is a date text in the year `year`.
pub fn looks_like_date_text(raw: &str, year: i32) -> (ok: bool)
    ensures
        ok == is_date_text(raw@, year as int),
{
    let chars = match short_text(raw) {
        Some(chars) => chars,
        None => {
            return false;
        },
    };
    let mut at: usize = 0;
    while at < chars.len()
        invariant
            at <= chars.len(),
            chars@ == raw@,
            raw@.len() <= MAX_DATE_TEXT_CHARS,
            forall|j: int| 0 <= j < at ==> position_fits(chars@, j),
        decreases chars.len() - at,
    {
        if !position_is_fit(&chars, at) {
            return false;
        }
        at += 1;
    }
    !weekday_is_named(&chars) || weekday_is_fit(&chars, year)
}

} // verus!
