use ticktick_today::datetext::{looks_like_date_text, MAX_DATE_TEXT_CHARS};

#[test]
fn texts_that_are_date_texts() {
    let yes = [
        "",
        "2019-11-13",
        "2019/11/13",
        "2019.11.13",
        "20191113",
        "191113",
        "201911130300",
        "20191113030000",
        "2019-11-13T03:00:00.000+0000",
        "2019-11-13t03:00:00z",
        "2019-11-13 03:00:00 +0000",
        "2019-11-13T03:00:00.123456789",
        "2019-1-3 3:0",
        "13 November 2019, 3 am",
        "November 13th, 2019 at 03:00",
        "Nov. 13, 2019",
        "3:00 p.m.",
        "3h 5m 7s",
        "not a date",
        "Monday",
        "monday, 13 November 2019",
        "Wed, 13 Nov 2019 03:00:00 +0000",
        "13 Nov 2019 (Wed)",
        "THU 20191113",
        "sat. 13/11/19",
        "Sunday 0 Jan 00",
        "a-b",
        "+1",
        ":30",
        "12, 5",
        "123456789",
        "12345678.5",
    ];
    for raw in yes {
        assert!(looks_like_date_text(raw, 2024), "{:?}", raw);
    }
}

#[test]
fn texts_that_are_not_date_texts() {
    let no = [
        "2019-11-13-",
        "2019/11/13/",
        "03:00+",
        "+",
        "03:",
        "03:00:",
        "1,234",
        "03: 00",
        "03:a",
        "12345:00",
        "03:12345",
        "1234567890",
        "12345678901",
        "1234567890123",
        "123456789012345",
        "123456789012.5",
        "12345678901234,5",
        "12,5",
        "1,5",
        "12,.5",
        "0.s",
        "03:00:00.m",
        "Monday 000-01",
        "Monday 0000-01",
        "Monday 01-0000",
        "Monday Jan -0000",
        "Fri 0262142-12",
        "Tue 12345",
        "Wed 1234567",
        "Thu 123456789",
        "sat 0.5 Jan",
        "Sunday 18:30:04.250",
        "mon 1,5",
        "2019-11-13T03:00:00\u{e9}",
        "\u{ff12}019-11-13",
        "13 \u{43d}\u{43e}\u{44f}\u{431}\u{440}\u{44f} 2019",
    ];
    for raw in no {
        assert!(!looks_like_date_text(raw, 2024), "{:?}", raw);
    }
}

#[test]
fn a_weekday_is_taken_in_the_years_100_to_9999() {
    for year in [100, 1999, 2024, 9999] {
        assert!(looks_like_date_text("Wed, 13 Nov 2019", year), "{}", year);
    }
    for year in [-262143, -1, 0, 1, 99, 10000, 262142] {
        assert!(!looks_like_date_text("Wed, 13 Nov 2019", year), "{}", year);
        assert!(looks_like_date_text("13 Nov 2019", year), "{}", year);
    }
}

#[test]
fn the_longest_date_text() {
    let longest = "1 ".repeat(32);
    assert_eq!(longest.chars().count(), MAX_DATE_TEXT_CHARS);
    assert!(looks_like_date_text(&longest, 2024));
    assert!(!looks_like_date_text(&format!("{}1", longest), 2024));
    assert!(!looks_like_date_text(&"2019-11-13T03:00:00".repeat(1000), 2024));
}
