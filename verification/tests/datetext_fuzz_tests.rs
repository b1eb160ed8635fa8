use ticktick_today::date::{format_on, is_today_on, read_wall_time, LocalDate};
use ticktick_today::datetext::looks_like_date_text;

fn next(seed: &mut u64) -> u64 {
    *seed ^= *seed << 13;
    *seed ^= *seed >> 7;
    *seed ^= *seed << 17;
    *seed
}

fn read_many(mut seed: u64, rounds: u32) {
    let words: Vec<&str> = vec![
        "0", "1", "2", "3", "4", "5", "6", "7", "8", "9", "-", "/", ":", ".", ",", " ", "T", "Z",
        "+", "a", "p", "m", "A", "M", "P", "Jan", "feb", "MARCH", "th", "st", "of", "'", "\"",
        "\t", "\n", "h", "s", "UTC", "GMT", "EST", "12", "2024", "99", "00", "0000", "60", "24",
        "31", "32", "13", "at", "and", "(", ")", ";", "%", "\u{0}", "sept", "December", "am",
        "pm", "noon", "262142", "0262142", "1e5", "t", "z", "hours", "minutes", "seconds",
        "hour", "minute", "second", "ad", "on", "nd", "rd", "May", "123456789", "20240104",
        "183004", "202401041830", "20240104183004", "..", "a.m.", "P.M.", "10:30", "  ", "-0",
        "0.5", "59.999", "12,5", "1,", ",5", ",.", ".,", ":0", ":00:", ":00:00", ".s", ".m", "0.h", "5.A", "'24", "O", "o", "x", "_", "=", "jun", "JUL", "aug", "oct",
        "nov", "apr", "000000000", "Mon", "monday", "Tue", "wed", "THU", "Fri", "sat", "Sunday",
        "000", "0000", "0", "00", "001", "0001", "9999", "Monday", "tues", "thurs",
    ];
    let days = [
        LocalDate { year: 2024, month: 1, day: 31 },
        LocalDate { year: 100, month: 1, day: 1 },
        LocalDate { year: 9999, month: 12, day: 31 },
        LocalDate { year: 2000, month: 2, day: 29 },
        LocalDate { year: 1, month: 1, day: 1 },
        LocalDate { year: 0, month: 1, day: 1 },
        LocalDate { year: 262142, month: 12, day: 31 },
        LocalDate { year: -262143, month: 1, day: 1 },
        LocalDate { year: 99, month: 2, day: 28 },
    ];
    let mut fit = 0u32;
    let mut ok = 0u32;
    for _ in 0..rounds {
        let len = 1 + (next(&mut seed) % 8) as usize;
        let mut text = String::new();
        let chars = b"0123456789-/:., TZ+tzapmAPM'";
        for _ in 0..len {
            if next(&mut seed) % 3 == 0 {
                let n = 1 + next(&mut seed) % 4;
                for _ in 0..n {
                    text.push(chars[(next(&mut seed) >> 20) as usize % chars.len()] as char);
                }
            } else {
                let w = words[(next(&mut seed) >> 20) as usize % words.len()];
                text.push_str(w);
            }
        }
        let today = days[(next(&mut seed) >> 12) as usize % days.len()];
        if !looks_like_date_text(&text, today.year) {
            continue;
        }
        fit += 1;
        if let Ok(t) = read_wall_time(&text, today) {
            ok += 1;
            assert!(t.is_valid(), "{:?}", text);
        }
        let _ = is_today_on(&text, today);
        let _ = format_on(&text, today);
    }
    assert!(fit > rounds / 4, "{}", fit);
    assert!(ok > 100);
}

#[test]
fn date_texts_are_read_or_refused_without_a_panic() {
    read_many(0x9e3779b97f4a7c15, 20000);
}

#[test]
fn more_date_texts_are_read_or_refused_without_a_panic() {
    read_many(0x2545f4914f6cdd1d, 20000);
}
