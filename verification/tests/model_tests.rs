use apifs::apifs_object::ApifsObject;
use apifs::command::delete::Delete;
use apifs::command::remind::Remind;
use apifs::command::show::Show;
use apifs::command::write_note::WriteNote;
use apifs::command::Data;
use apifs::exit_codes::ExitCode;
use apifs::grammar::{parse_days, span_groups};
use apifs::media::Media;
use apifs::note::Note;
use apifs::reminder::Reminder;
use apifs::server::{ReminderCheck, Tick};
use apifs::text::{decimal_text, join_from, str_eq};
use apifs::time::{
    Date, DateTime, Duration, TimeOfDay, MAX_DAY, MAX_DURATION, MAX_TIMESTAMP, MIN_DAY,
    MIN_TIMESTAMP,
};
use chrono::{Datelike, NaiveDate, NaiveDateTime, NaiveTime, TimeDelta, Timelike};

fn at(y: i32, mo: u32, d: u32, h: u32, mi: u32, s: u32) -> DateTime {
    DateTime {
        secs: NaiveDate::from_ymd_opt(y, mo, d)
            .unwrap()
            .and_hms_opt(h, mi, s)
            .unwrap()
            .and_utc()
            .timestamp(),
        nanos: 0,
    }
}

fn no_media() -> Media {
    Media { picture: None, sound: None }
}

#[test]
fn bounds_are_chronos() {
    assert_eq!(NaiveDateTime::MIN.and_utc().timestamp(), MIN_TIMESTAMP);
    assert_eq!(NaiveDateTime::MAX.and_utc().timestamp(), MAX_TIMESTAMP);
    assert_eq!(NaiveDate::MIN.num_days_from_ce() as i64 - 719163, MIN_DAY);
    assert_eq!(NaiveDate::MAX.num_days_from_ce() as i64 - 719163, MAX_DAY);
    assert_eq!(TimeDelta::MAX.num_seconds(), MAX_DURATION);
    assert!(TimeDelta::new(MAX_DURATION + 1, 0).is_none());
}

#[test]
fn date_time_and_weekday() {
    let t = at(2025, 8, 14, 9, 31, 42);
    let d = t.date();
    assert_eq!(d.days, 20314);
    assert_eq!(t.time().secs, 9 * 3600 + 31 * 60 + 42);
    // 2025-08-14 is a Thursday.
    assert_eq!(d.weekday(), 3);
    let before_epoch = at(1969, 12, 31, 23, 0, 0);
    assert_eq!(before_epoch.date().days, -1);
    assert_eq!(before_epoch.time().secs, 23 * 3600);
    assert_eq!(before_epoch.date().weekday(), 2);
    assert_eq!(Date { days: MIN_DAY }.checked_pred(), None);
    assert_eq!(d.checked_pred(), Some(Date { days: 20313 }));
    let big = Duration { secs: MAX_DURATION };
    assert_eq!(t.checked_add(big), None);
    assert_eq!(
        t.checked_add(Duration { secs: 60 }),
        Some(DateTime { secs: t.secs + 60, nanos: 0 })
    );
    assert_eq!(DateTime::from_timestamp(MAX_TIMESTAMP + 1), None);
}

#[test]
fn weekday_matches_chrono() {
    let mut day = NaiveDate::from_ymd_opt(1960, 1, 1).unwrap();
    for _ in 0..3000 {
        let d = Date { days: day.num_days_from_ce() as i64 - 719163 };
        assert_eq!(d.weekday() as u32, day.weekday().num_days_from_monday());
        day = day.succ_opt().unwrap();
    }
}

#[test]
fn reminder_texts() {
    let media = Media { picture: Some("p".to_string()), sound: Some("s".to_string()) };
    let once = Reminder::Once(at(2020, 11, 27, 5, 12, 4), media.clone(), Some("d".to_string()));
    assert_eq!(
        once.text(),
        "Remind on 2020-11-27 05:12:04, with picture p, with sound s, description: d"
    );
    let daily = Reminder::Daily(
        TimeOfDay { secs: 3 * 3600 + 15 * 60 + 3, nanos: 0 },
        [true, true, false, false, true, false, false],
        Date { days: 0 },
        no_media(),
        None,
    );
    assert_eq!(daily.text(), "Remind at 03:15:03 on Tuesday,Friday,\u{8}");
    let interval = Reminder::SpecificInterval(
        at(2020, 11, 27, 5, 12, 4),
        Duration { secs: 43321 },
        Media { picture: None, sound: Some("bell.wav".to_string()) },
        None,
    );
    assert_eq!(interval.text(), "From 2020-11-27 05:12:04, remind every PT43321S, with sound bell.wav");
    let zero = Reminder::SpecificInterval(at(2020, 1, 1, 0, 0, 0), Duration { secs: 0 }, no_media(), None);
    assert_eq!(zero.text(), "From 2020-01-01 00:00:00, remind every P0D");
    assert_eq!(TimeDelta::seconds(43321).to_string(), "PT43321S");
    assert_eq!(NaiveTime::from_hms_opt(3, 15, 3).unwrap().num_seconds_from_midnight(), 11703);
}

#[test]
fn object_text() {
    let data = ApifsObject {
        reminders: vec![Reminder::Once(at(2020, 11, 27, 5, 12, 4), no_media(), None)],
        notes: vec![Note { name: "a".to_string(), text: "b c".to_string() }],
    };
    assert_eq!(data.text(), "Reminders:\n0: Remind on 2020-11-27 05:12:04\na: b c\n");
    assert_eq!(data.shown_text(), "Reminders:\n0: Remind on 2020-11-27 05:12:04\n\nNotes:\na: b c\n");
    assert_eq!(ApifsObject::default().text(), "Reminders:\n");
    assert_eq!(ApifsObject::default().shown_text(), "Reminders:\n\nNotes:\n");
}

#[test]
fn text_helpers() {
    assert_eq!(decimal_text(0), "0");
    assert_eq!(decimal_text(1907), "1907");
    assert_eq!(decimal_text(u64::MAX), u64::MAX.to_string());
    assert!(str_eq("ab", "ab"));
    assert!(!str_eq("ab", "abc"));
    assert!(!str_eq("ab", "ac"));
    let words = vec!["x".to_string(), "y".to_string(), "z".to_string()];
    assert_eq!(join_from(&words, 1), "y z");
    assert_eq!(join_from(&words, 3), "");
}

#[test]
fn exit_codes() {
    assert_eq!(ExitCode::Finished.code(), 0);
    assert_eq!(ExitCode::WrongArguments.code(), 1);
    assert_eq!(ExitCode::FileError.code(), 2);
    assert_eq!(ExitCode::AlreadyRunning.code(), 3);
    assert_eq!(ExitCode::ServerRunError.code(), 4);
    assert_eq!(ExitCode::PathError.code(), 5);
    assert_eq!(ExitCode::ResourceNotFound.code(), 6);
}

fn sample() -> ApifsObject {
    ApifsObject {
        reminders: vec![
            Reminder::Once(at(2020, 1, 1, 0, 0, 0), no_media(), None),
            Reminder::Once(at(2021, 1, 1, 0, 0, 0), no_media(), None),
        ],
        notes: vec![
            Note { name: "a".to_string(), text: "1".to_string() },
            Note { name: "b".to_string(), text: "2".to_string() },
        ],
    }
}

#[test]
fn delete_reminder() {
    let mut data = sample();
    assert_eq!(Delete::new(Data::Reminder(0)).apply(&mut data), Ok(()));
    assert_eq!(data.reminders, vec![Reminder::Once(at(2021, 1, 1, 0, 0, 0), no_media(), None)]);
    let before = data.clone();
    assert_eq!(Delete::new(Data::Reminder(1)).apply(&mut data), Err(ExitCode::ResourceNotFound));
    assert_eq!(data, before);
    assert_eq!(Delete::new(Data::All).apply(&mut data), Err(ExitCode::WrongArguments));
    assert_eq!(data, before);
}

#[test]
fn delete_note() {
    let mut data = sample();
    assert_eq!(Delete::new(Data::Note("b".to_string())).apply(&mut data), Ok(()));
    assert_eq!(data.notes, vec![Note { name: "a".to_string(), text: "1".to_string() }]);
    assert_eq!(Delete::new(Data::Note("z".to_string())).apply(&mut data), Err(ExitCode::ResourceNotFound));
    assert_eq!(data.notes.len(), 1);
}

#[test]
fn show_data() {
    let data = sample();
    assert_eq!(
        Show::new(Data::Reminder(1)).select(&data),
        Ok("Remind on 2021-01-01 00:00:00".to_string())
    );
    assert_eq!(Show::new(Data::Reminder(2)).select(&data), Err(ExitCode::ResourceNotFound));
    assert_eq!(Show::new(Data::Note("b".to_string())).select(&data), Ok("b: 2".to_string()));
    assert_eq!(Show::new(Data::Note("c".to_string())).select(&data), Err(ExitCode::ResourceNotFound));
    assert_eq!(Show::new(Data::All).select(&data), Ok(data.shown_text()));
}

#[test]
fn show_finds_the_first_note_of_a_name() {
    let mut data = sample();
    data.notes.push(Note { name: "a".to_string(), text: "3".to_string() });
    assert_eq!(Show::new(Data::Note("a".to_string())).select(&data), Ok("a: 1".to_string()));
}

#[test]
fn law_delete_undoes_remind() {
    let mut data = sample();
    let before = data.clone();
    let r = Reminder::Daily(TimeOfDay { secs: 0, nanos: 0 }, [true; 7], Date { days: 0 }, no_media(), None);
    Remind::new(r.clone()).apply(&mut data);
    assert_eq!(Show::new(Data::Reminder(2)).select(&data), Ok(r.text()));
    assert_eq!(Delete::new(Data::Reminder(2)).apply(&mut data), Ok(()));
    assert_eq!(data, before);
}

#[test]
fn law_written_note_is_shown_and_delete_undoes_it() {
    let mut data = sample();
    let before = data.clone();
    WriteNote::new(Note { name: "c".to_string(), text: "new".to_string() }).apply(&mut data);
    assert_eq!(Show::new(Data::Note("c".to_string())).select(&data), Ok("c: new".to_string()));
    assert_eq!(Delete::new(Data::Note("c".to_string())).apply(&mut data), Ok(()));
    assert_eq!(data, before);
}

#[test]
fn server_once_goes_off_and_is_removed() {
    let mut reminders = vec![
        Reminder::Once(at(2025, 1, 1, 10, 0, 0), no_media(), None),
        Reminder::Once(at(2025, 1, 2, 10, 0, 0), no_media(), None),
        Reminder::Once(at(2024, 12, 31, 10, 0, 0), no_media(), None),
    ];
    let now = at(2025, 1, 1, 12, 0, 0);
    let mut tick = Tick::new(&reminders);
    assert_eq!(tick.visit(&mut reminders, 0, now), ReminderCheck::Due);
    assert_eq!(tick.visit(&mut reminders, 1, now), ReminderCheck::Waiting);
    assert_eq!(tick.visit(&mut reminders, 2, now), ReminderCheck::Due);
    assert_eq!(tick.to_remove, vec![0, 2]);
    assert!(tick.finish(&mut reminders));
    assert_eq!(reminders, vec![Reminder::Once(at(2025, 1, 2, 10, 0, 0), no_media(), None)]);
}

#[test]
fn server_round_without_change() {
    let mut reminders = vec![Reminder::Once(at(2025, 1, 2, 10, 0, 0), no_media(), None)];
    let mut tick = Tick::new(&reminders);
    assert_eq!(tick.visit(&mut reminders, 0, at(2025, 1, 1, 0, 0, 0)), ReminderCheck::Waiting);
    assert!(!tick.finish(&mut reminders));
    assert_eq!(reminders.len(), 1);
}

#[test]
fn law_daily_once_a_day() {
    // Thursday 2025-08-14, Thursdays marked.
    let now = at(2025, 8, 14, 12, 0, 0);
    let mut reminders = vec![Reminder::Daily(
        TimeOfDay { secs: 11 * 3600, nanos: 0 },
        [false, false, false, true, false, false, false],
        Date { days: now.date().days - 1 },
        no_media(),
        None,
    )];
    let mut tick = Tick::new(&reminders);
    assert_eq!(tick.visit(&mut reminders, 0, at(2025, 8, 14, 10, 0, 0)), ReminderCheck::Waiting);
    let mut tick = Tick::new(&reminders);
    assert_eq!(tick.visit(&mut reminders, 0, now), ReminderCheck::Due);
    let Reminder::Daily(_, _, last_day, _, _) = &reminders[0] else { panic!() };
    assert_eq!(*last_day, now.date());
    let mut tick = Tick::new(&reminders);
    assert_eq!(tick.visit(&mut reminders, 0, at(2025, 8, 14, 23, 59, 59)), ReminderCheck::Waiting);
    // The next Thursday it goes off again; on Friday it does not.
    let mut tick = Tick::new(&reminders);
    assert_eq!(tick.visit(&mut reminders, 0, at(2025, 8, 15, 12, 0, 0)), ReminderCheck::Waiting);
    let mut tick = Tick::new(&reminders);
    assert_eq!(tick.visit(&mut reminders, 0, at(2025, 8, 21, 12, 0, 0)), ReminderCheck::Due);
}

#[test]
fn law_interval_moves_on() {
    let start = at(2025, 1, 1, 0, 0, 0);
    let mut reminders = vec![Reminder::SpecificInterval(start, Duration { secs: 5400 }, no_media(), None)];
    let mut tick = Tick::new(&reminders);
    assert_eq!(tick.visit(&mut reminders, 0, at(2025, 1, 1, 0, 30, 0)), ReminderCheck::Due);
    assert_eq!(
        reminders[0],
        Reminder::SpecificInterval(DateTime { secs: start.secs + 5400, nanos: 0 }, Duration { secs: 5400 }, no_media(), None)
    );
    assert!(tick.finish(&mut reminders));
    assert_eq!(reminders.len(), 1);
    let mut tick = Tick::new(&reminders);
    assert_eq!(tick.visit(&mut reminders, 0, at(2025, 1, 1, 1, 0, 0)), ReminderCheck::Waiting);
    assert!(!tick.finish(&mut reminders));
}

#[test]
fn interval_beyond_range() {
    let start = DateTime { secs: MAX_TIMESTAMP - 10, nanos: 0 };
    let mut reminders = vec![Reminder::SpecificInterval(start, Duration { secs: 3600 }, no_media(), None)];
    let mut tick = Tick::new(&reminders);
    assert_eq!(tick.visit(&mut reminders, 0, start), ReminderCheck::DueOutOfRange);
    assert!(tick.changed);
}

fn leap(y: i32, mo: u32, d: u32) -> DateTime {
    DateTime { secs: at(y, mo, d, 23, 59, 59).secs, nanos: 1_000_000_000 }
}

#[test]
fn leap_seconds() {
    let l = leap(2016, 12, 31);
    assert_eq!(l.time(), TimeOfDay { secs: 86399, nanos: 1_000_000_000 });
    assert_eq!(l.date(), at(2016, 12, 31, 0, 0, 0).date());
    // Moving on from a leap second starts from the second before it, moving
    // back from the second after it; moving by nothing keeps it.
    assert_eq!(l.checked_add(Duration { secs: 1 }), Some(at(2017, 1, 1, 0, 0, 0)));
    assert_eq!(l.checked_add(Duration { secs: -1 }), Some(at(2016, 12, 31, 23, 59, 59)));
    assert_eq!(l.checked_add(Duration { secs: 0 }), Some(l));
    let chrono_leap = NaiveDate::from_ymd_opt(2016, 12, 31).unwrap().and_hms_milli_opt(23, 59, 59, 1000).unwrap();
    assert_eq!(
        (chrono_leap + TimeDelta::seconds(1)).and_utc().timestamp(),
        at(2017, 1, 1, 0, 0, 0).secs
    );
    assert_eq!(
        (chrono_leap - TimeDelta::seconds(1)).and_utc().timestamp(),
        at(2016, 12, 31, 23, 59, 59).secs
    );
    let once = Reminder::Once(l, no_media(), None);
    assert_eq!(once.text(), "Remind on 2016-12-31 23:59:60");
    let half = TimeOfDay { secs: 6 * 3600 + 59 * 60 + 59, nanos: 1_500_000_000 };
    let daily = Reminder::Daily(half, [true; 7], Date { days: 0 }, no_media(), None);
    assert_eq!(
        daily.text(),
        "Remind at 06:59:60.500 on Tuesday,Wednesday,Thursday,Friday,Saturday,Sunday,\u{8}"
    );
    let fine = TimeOfDay { secs: 1, nanos: 2000 };
    let daily = Reminder::Daily(fine, [false; 7], Date { days: 0 }, no_media(), None);
    assert_eq!(daily.text(), "Remind at 00:00:01.000002 on \u{8}");
}

#[test]
fn a_daily_reminder_at_a_leap_second_waits_through_the_second_before() {
    let now = at(2025, 8, 14, 23, 59, 59);
    let mut reminders = vec![Reminder::Daily(
        TimeOfDay { secs: 86399, nanos: 1_000_000_000 },
        [true; 7],
        Date { days: now.date().days - 1 },
        no_media(),
        None,
    )];
    let mut tick = Tick::new(&reminders);
    assert_eq!(tick.visit(&mut reminders, 0, now), ReminderCheck::Waiting);
    assert!(!tick.finish(&mut reminders));
    let mut tick = Tick::new(&reminders);
    assert_eq!(tick.visit(&mut reminders, 0, leap(2025, 8, 14)), ReminderCheck::Due);
    let once = vec![Reminder::Once(leap(2016, 12, 31), no_media(), None)];
    let mut reminders = once.clone();
    let mut tick = Tick::new(&reminders);
    assert_eq!(tick.visit(&mut reminders, 0, at(2016, 12, 31, 23, 59, 59)), ReminderCheck::Waiting);
}

#[test]
fn law_round() {
    // Thursday 2025-08-14 at noon.
    let now = at(2025, 8, 14, 12, 0, 0);
    let daily = Reminder::Daily(
        TimeOfDay { secs: 11 * 3600, nanos: 0 },
        [true; 7],
        Date { days: now.date().days - 1 },
        no_media(),
        Some("d".to_string()),
    );
    let interval = Reminder::SpecificInterval(at(2025, 8, 14, 11, 0, 0), Duration { secs: 3600 }, no_media(), None);
    let waiting = Reminder::Once(at(2025, 8, 15, 0, 0, 0), no_media(), None);
    let mut reminders = vec![
        Reminder::Once(at(2025, 8, 14, 0, 0, 0), no_media(), None),
        daily.clone(),
        waiting.clone(),
        interval,
        Reminder::Once(at(2025, 8, 13, 0, 0, 0), no_media(), None),
    ];
    let mut tick = Tick::new(&reminders);
    for i in 0..reminders.len() {
        tick.visit(&mut reminders, i, now);
    }
    assert_eq!(tick.to_remove, vec![0, 4]);
    assert!(tick.finish(&mut reminders));
    let Reminder::Daily(time, days, _, media, description) = daily else { panic!() };
    assert_eq!(
        reminders,
        vec![
            Reminder::Daily(time, days, now.date(), media, description),
            waiting,
            Reminder::SpecificInterval(at(2025, 8, 14, 12, 0, 0), Duration { secs: 3600 }, no_media(), None),
        ]
    );
}

#[test]
fn law_new_daily_reminder_goes_off_today() {
    let today_noon = at(2025, 8, 14, 12, 0, 0);
    let args: Vec<String> = ["apifs", "notify", "daily", "-w", "11:00:00", "-d", "4"]
        .iter()
        .map(|s| s.to_string())
        .collect();
    let Ok(apifs::command::Command::Remind(r)) =
        apifs::options::parse_options_at(args, today_noon.date())
    else {
        panic!("refused");
    };
    let mut reminders = vec![r];
    let mut tick = Tick::new(&reminders);
    assert_eq!(tick.visit(&mut reminders, 0, today_noon), ReminderCheck::Due);
}

fn lcg(seed: &mut u64) -> u64 {
    *seed = seed.wrapping_mul(6364136223846793005).wrapping_add(1442695040888963407);
    *seed >> 33
}

fn random_text(seed: &mut u64, alphabet: &[char], max_len: u64) -> String {
    let len = lcg(seed) % (max_len + 1);
    (0..len).map(|_| alphabet[(lcg(seed) % alphabet.len() as u64) as usize]).collect()
}

#[test]
fn days_grammar_agrees_with_regex() {
    let basic = regex::Regex::new(r"^[1-7]{1,7}$").unwrap();
    let compact = regex::Regex::new(r"^[1-7]-[1-7]$").unwrap();
    let alphabet = ['1', '2', '3', '4', '5', '6', '7', '8', '0', '-', 'x'];
    let mut seed = 7u64;
    let mut tried = vec!["1-5".to_string(), "13".to_string(), "1234567".to_string(), "".to_string(), "5-2".to_string()];
    for _ in 0..5000 {
        tried.push(random_text(&mut seed, &alphabet, 9));
    }
    for s in tried {
        let expected: [bool; 7] = if basic.is_match(&s) {
            let mut days = [false; 7];
            for c in s.chars() {
                days[c as usize - '1' as usize] = true;
            }
            days
        } else if compact.is_match(&s) {
            let b = s.as_bytes();
            let lo = b[0].min(b[2]) - b'1';
            let hi = b[0].max(b[2]) - b'1';
            let mut days = [false; 7];
            for j in lo..=hi {
                days[j as usize] = true;
            }
            days
        } else {
            [true; 7]
        };
        assert_eq!(parse_days(&s), expected, "days of {:?}", s);
    }
}

#[test]
fn span_grammar_agrees_with_regex() {
    let span = regex::Regex::new(r"^([1-9][0-9]{0,8}[dhmsDHMS]){1,4}$").unwrap();
    let alphabet = ['0', '1', '2', '9', 'd', 'h', 'm', 's', 'D', 'S', 'x'];
    let mut seed = 11u64;
    let mut tried = vec![
        "12h2m1s".to_string(),
        "1h30m".to_string(),
        "999999999d".to_string(),
        "1000000000d".to_string(),
        "1d1d1d1d".to_string(),
        "1d1d1d1d1d".to_string(),
        "".to_string(),
    ];
    for _ in 0..20000 {
        tried.push(random_text(&mut seed, &alphabet, 14));
    }
    for s in tried {
        let groups = span_groups(&s);
        let ours = matches!(&groups, Some(g) if (1..=4).contains(&g.len()));
        assert_eq!(ours, span.is_match(&s), "span {:?}", s);
        if ours {
            let units: String = groups.unwrap().iter().map(|g| g.1).collect();
            let from_regex: String = s.chars().filter(|c| "dhmsDHMS".contains(*c)).collect();
            assert_eq!(units, from_regex);
        }
    }
}
