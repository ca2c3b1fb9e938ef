use apifs::command::Command;
use apifs::media::Media;
use apifs::options::{
    parse_options, parse_options_at, parse_options_with, read_arguments, NotifyKind, OptionsError,
    Readings,
};
use apifs::reminder::Reminder;
use apifs::time::{Date, DateTime, Duration, TimeOfDay};
use chrono::{NaiveDate, NaiveDateTime, NaiveTime, Timelike};

fn strings(v: &[&str]) -> Vec<String> {
    v.iter().map(|s| s.to_string()).collect()
}

fn secs_of(dt: NaiveDateTime) -> i64 {
    dt.and_utc().timestamp()
}

fn day_of(d: NaiveDate) -> Date {
    Date { days: d.and_hms_opt(0, 0, 0).unwrap().and_utc().timestamp().div_euclid(86400) }
}

#[test]
fn test_empty() {
    let v: Vec<String> = vec![];
    assert!(parse_options(v).is_err());
}

#[test]
fn test_start() {
    let Ok(res) = parse_options(vec![String::new(), String::from("start")]) else {
        panic!("error");
    };
    match res {
        Command::Start => {}
        _ => {
            panic!("wrong command returned");
        }
    }
}

#[test]
fn test_stop() {
    let Ok(res) = parse_options(vec![String::new(), String::from("stop")]) else {
        panic!("error");
    };
    match res {
        Command::Stop => {}
        _ => {
            panic!("wrong command returned");
        }
    }
}

#[test]
fn test_help() {
    let Ok(res) = parse_options(vec![String::new(), String::from("help")]) else {
        panic!("error");
    };
    match res {
        Command::Help => {}
        _ => {
            panic!("wrong command returned");
        }
    }
}

#[test]
fn test_notify() {
    let sound = String::from("s");
    let picture = String::from("p");
    let media = Media {
        sound: Some(sound.clone()),
        picture: Some(picture.clone()),
    };
    let datetime_str = "2020-11-27 5:12:4";
    let datetime = NaiveDateTime::parse_from_str(datetime_str, "%Y-%m-%d %H:%M:%S")
        .expect("datetime conversion failed");
    let datetime_string = String::from(datetime_str);
    let time_str = "3:15:3";
    let time = NaiveTime::parse_from_str(time_str, "%H:%M:%S").expect("time conversion failed");
    let time_string = String::from(time_str);
    let description1 = String::from("usefull description");
    let description2 = String::from("useless description");
    let notify = String::from("notify");
    let opt_w = String::from("-w");
    let opt_s = String::from("-s");
    let opt_p = String::from("-p");
    let opt_desc = String::from("--desc");

    #[allow(unused_assignments)]
    let mut res = Command::NoCommand;
    match parse_options(vec![
        String::new(),
        notify.clone(),
        String::from("once"),
        opt_w.clone(),
        String::from(&datetime_string[0..10]),
        String::from(&datetime_string[11..]),
        opt_s.clone(),
        sound.clone(),
        opt_p.clone(),
        picture.clone(),
        opt_desc.clone(),
        description1.clone(),
        description2.clone(),
    ]) {
        Ok(command) => {
            res = command;
        }
        Err(err) => {
            panic!("{:?}", err);
        }
    };
    let Command::Remind(Reminder::Once(datetime_res, media_res, description_res)) = res else {
        panic!("wrong command returned");
    };
    if datetime_res.secs != secs_of(datetime)
        || datetime_res.nanos != datetime.and_utc().timestamp_subsec_nanos()
        || media_res != media
        || description_res.unwrap() != description1.clone() + " " + &description2
    {
        panic!("once test failed");
    }

    let Ok(res) = parse_options(vec![
        String::new(),
        notify.clone(),
        String::from("daily"),
        opt_w.clone(),
        time_string.clone(),
        String::from("-d"),
        String::from("25"),
        opt_s.clone(),
        sound.clone(),
        opt_p.clone(),
        picture.clone(),
        opt_desc.clone(),
        description1.clone(),
    ]) else {
        panic!("error");
    };

    let Command::Remind(Reminder::Daily(time_res, days, _last_day, media_res, description_res)) =
        res
    else {
        panic!("wrong command returned");
    };
    if time_res.secs != time.num_seconds_from_midnight()
        || time_res.nanos != time.nanosecond()
        || media_res != media
        || description_res.unwrap() != description1
        || days != [false, true, false, false, true, false, false]
    {
        panic!("daily test failed");
    }

    let Ok(res) = parse_options(vec![
        String::new(),
        notify.clone(),
        String::from("interval"),
        opt_w.clone(),
        String::from(&datetime_string[0..10]),
        String::from(&datetime_string[11..]),
        String::from("-i"),
        String::from("12h2m1s"),
        opt_s.clone(),
        sound.clone(),
        opt_p.clone(),
        picture.clone(),
        opt_desc.clone(),
        description1.clone(),
    ]) else {
        panic!("error");
    };
    let Command::Remind(Reminder::SpecificInterval(
        datetime_res,
        duration_res,
        media_res,
        description_res,
    )) = res
    else {
        panic!("wrong command returned");
    };
    if datetime_res.secs != secs_of(datetime)
        || datetime_res.nanos != datetime.and_utc().timestamp_subsec_nanos()
        || duration_res != (Duration { secs: 1 + 60 * 2 + 12 * 3600 })
        || media_res != media
        || description_res.unwrap() != description1
    {
        panic!("interval test failed");
    }
}

#[test]
fn test_note() {
    let Ok(res) = parse_options(vec![
        String::new(),
        String::from("note"),
        String::from("-n"),
        String::from("Jhon"),
        String::from("--desc"),
        String::from("cool"),
        String::from("not"),
    ]) else {
        panic!("error");
    };
    let Command::Note(note) = res else {
        panic!("wrong command returned");
    };
    if note.name != String::from("Jhon") || note.text != String::from("cool not") {
        panic!("note test failed");
    }
}

#[test]
fn option_test() {
    let _ = parse_options(strings(&["fuc"]));
}

fn today() -> Date {
    day_of(NaiveDate::from_ymd_opt(2025, 8, 14).unwrap())
}

fn parse(v: &[&str]) -> Result<Command, OptionsError> {
    parse_options_at(strings(v), today())
}

#[test]
fn commands_without_options() {
    assert_eq!(parse(&["apifs", "-h"]), Ok(Command::Help));
    assert_eq!(parse(&["apifs", "add"]), Ok(Command::NoCommand));
    assert_eq!(parse(&["apifs", "show"]), Ok(Command::NoCommand));
    assert_eq!(parse(&["apifs", "delete"]), Ok(Command::NoCommand));
    assert_eq!(parse(&["apifs", "notify", "custom"]), Ok(Command::NoCommand));
}

#[test]
fn refused_command_lines() {
    assert_eq!(parse(&["apifs"]), Err(OptionsError::TooFewArguments));
    assert_eq!(parse(&["apifs", "remind"]), Err(OptionsError::InvalidCommand("remind".to_string())));
    assert_eq!(parse(&["apifs", "notify"]), Err(OptionsError::NotifyNeedsType));
    assert_eq!(
        parse(&["apifs", "notify", "weekly"]),
        Err(OptionsError::NoSuchNotificationType("weekly".to_string()))
    );
    assert_eq!(parse(&["apifs", "note"]), Err(OptionsError::NoteNeedsArguments));
    assert_eq!(
        parse(&["apifs", "note", "-n"]),
        Err(OptionsError::MissingParameter("-n".to_string()))
    );
    assert_eq!(
        parse(&["apifs", "note", "-x", "y"]),
        Err(OptionsError::NoSuchOption("-x".to_string()))
    );
    assert_eq!(parse(&["apifs", "note", "-n", "a"]), Err(OptionsError::MissingNameOrDescription));
    assert_eq!(parse(&["apifs", "notify", "once", "-p", "pic"]), Err(OptionsError::MissingOnceDate));
    assert_eq!(parse(&["apifs", "notify", "daily", "-d", "12"]), Err(OptionsError::MissingDailyTime));
    assert_eq!(
        parse(&["apifs", "notify", "interval", "-i", "1h"]),
        Err(OptionsError::MissingIntervalDate)
    );
    assert_eq!(
        parse(&["apifs", "notify", "once", "-w", "yesterday"]),
        Err(OptionsError::InvalidDate("yesterday".to_string(), NotifyKind::Once))
    );
    assert_eq!(
        parse(&["apifs", "notify", "interval", "-w", "soon"]),
        Err(OptionsError::InvalidDate("soon".to_string(), NotifyKind::Interval))
    );
    assert_eq!(
        parse(&["apifs", "notify", "daily", "-w", "noon"]),
        Err(OptionsError::InvalidTime("noon".to_string()))
    );
    // An unknown option of `once` is named itself, of `daily` and `interval` by its parameter.
    assert_eq!(
        parse(&["apifs", "notify", "once", "-q", "x"]),
        Err(OptionsError::NoSuchOption("-q".to_string()))
    );
    assert_eq!(
        parse(&["apifs", "notify", "daily", "-q", "x"]),
        Err(OptionsError::NoSuchOption("x".to_string()))
    );
    assert_eq!(
        parse(&["apifs", "notify", "interval", "-d", "12"]),
        Err(OptionsError::NoSuchOption("12".to_string()))
    );
    assert_eq!(
        parse(&["apifs", "notify", "interval", "-i", "0h"]),
        Err(OptionsError::InvalidSpan("0h".to_string()))
    );
    assert_eq!(
        parse(&["apifs", "notify", "interval", "-i", "1h2m3s4d5s"]),
        Err(OptionsError::InvalidSpan("1h2m3s4d5s".to_string()))
    );
    assert_eq!(
        parse(&["apifs", "notify", "interval", "-i", "1h30M"]),
        Err(OptionsError::InvalidTimeType("M".to_string()))
    );
}

#[test]
fn span_overflow_is_reported() {
    let mut args = strings(&["apifs", "notify", "interval", "-w", "2025-11-11"]);
    for _ in 0..30 {
        args.push("-i".to_string());
        args.push("999999999d999999999d999999999d999999999d".to_string());
    }
    assert_eq!(parse_options_at(args, today()), Err(OptionsError::SpanOverflow));
}

#[test]
fn readme_examples() {
    // notify once -w 2025-08-14 9:31:42 --desc Do your homework
    let Ok(Command::Remind(Reminder::Once(at, media, desc))) = parse(&[
        "apifs", "notify", "once", "-w", "2025-08-14", "9:31:42", "--desc", "Do", "your", "homework",
    ]) else {
        panic!("once example refused");
    };
    let expected = NaiveDate::from_ymd_opt(2025, 8, 14).unwrap().and_hms_opt(9, 31, 42).unwrap();
    assert_eq!(at.secs, secs_of(expected));
    assert_eq!(media, Media { picture: None, sound: None });
    assert_eq!(desc, Some("Do your homework".to_string()));

    // notify daily -w 12:00:00 -d 1-5: noon on weekdays
    let Ok(Command::Remind(Reminder::Daily(time, days, last_day, _, None))) =
        parse(&["apifs", "notify", "daily", "-w", "12:00:00", "-d", "1-5"])
    else {
        panic!("daily example refused");
    };
    assert_eq!(time.secs, 12 * 3600);
    assert_eq!(days, [true, true, true, true, true, false, false]);
    assert_eq!(last_day.days, today().days - 1);

    // ... or with 13 only on Mondays and Wednesdays
    let Ok(Command::Remind(Reminder::Daily(_, days, _, _, _))) =
        parse(&["apifs", "notify", "daily", "-w", "12:00:00", "-d", "13"])
    else {
        panic!("daily example refused");
    };
    assert_eq!(days, [true, false, true, false, false, false, false]);

    // notify interval -w 2025-11-11 -i 1h30m
    let Ok(Command::Remind(Reminder::SpecificInterval(at, every, _, _))) =
        parse(&["apifs", "notify", "interval", "-w", "2025-11-11", "-i", "1h30m"])
    else {
        panic!("interval example refused");
    };
    let expected = NaiveDate::from_ymd_opt(2025, 11, 11).unwrap().and_hms_opt(0, 0, 0).unwrap();
    assert_eq!(at.secs, secs_of(expected));
    assert_eq!(every, Duration { secs: 5400 });

    // note -n <note name> --desc <some_description>
    assert_eq!(
        parse(&["apifs", "note", "-n", "shopping", "--desc", "milk", "and", "bread"]),
        Ok(Command::Note(apifs::note::Note {
            name: "shopping".to_string(),
            text: "milk and bread".to_string()
        }))
    );
}

#[test]
fn date_alone_at_the_end() {
    let Ok(Command::Remind(Reminder::Once(at, _, _))) =
        parse(&["apifs", "notify", "once", "-w", "2025-08-14"])
    else {
        panic!("date alone refused");
    };
    let expected = NaiveDate::from_ymd_opt(2025, 8, 14).unwrap().and_hms_opt(0, 0, 0).unwrap();
    assert_eq!(at.secs, secs_of(expected));
}

#[test]
fn later_options_override_earlier_ones() {
    let Ok(Command::Remind(Reminder::Once(at, media, _))) = parse(&[
        "apifs", "notify", "once", "-w", "2025-08-14", "1:00:00", "-p", "a", "-w", "2025-08-15",
        "2:00:00", "-p", "b",
    ]) else {
        panic!("refused");
    };
    let expected = NaiveDate::from_ymd_opt(2025, 8, 15).unwrap().and_hms_opt(2, 0, 0).unwrap();
    assert_eq!(at.secs, secs_of(expected));
    assert_eq!(media.picture, Some("b".to_string()));
}

#[test]
fn spans_of_several_options_add_up() {
    let Ok(Command::Remind(Reminder::SpecificInterval(_, every, _, _))) = parse(&[
        "apifs", "notify", "interval", "-i", "1d", "-w", "2025-11-11", "0:00:00", "-i", "2h3s",
    ]) else {
        panic!("refused");
    };
    assert_eq!(every, Duration { secs: 86400 + 7200 + 3 });
}

#[test]
fn days_that_are_neither_list_nor_range_mean_every_day() {
    let Ok(Command::Remind(Reminder::Daily(_, days, _, _, _))) =
        parse(&["apifs", "notify", "daily", "-w", "7:00:00", "-d", "8"])
    else {
        panic!("refused");
    };
    assert_eq!(days, [true; 7]);
    let Ok(Command::Remind(Reminder::Daily(_, days, _, _, _))) =
        parse(&["apifs", "notify", "daily", "-w", "7:00:00", "-d", "6-2"])
    else {
        panic!("refused");
    };
    assert_eq!(days, [false, true, true, true, true, true, false]);
}

#[test]
fn daily_on_the_first_day_is_out_of_range() {
    let args = strings(&["apifs", "notify", "daily", "-w", "7:00:00"]);
    let first = Date { days: apifs::time::MIN_DAY };
    assert_eq!(parse_options_at(args, first), Err(OptionsError::DateOutOfRange));
}

#[test]
fn daily_counts_yesterday_by_the_local_clock() {
    let before = chrono::Local::now().date_naive();
    let Ok(Command::Remind(Reminder::Daily(_, _, last_day, _, _))) =
        parse_options(strings(&["apifs", "notify", "daily", "-w", "8:00:00"]))
    else {
        panic!("refused");
    };
    let after = chrono::Local::now().date_naive();
    let yesterday_before = day_of(before.pred_opt().unwrap());
    let yesterday_after = day_of(after.pred_opt().unwrap());
    assert!(last_day == yesterday_before || last_day == yesterday_after);
}

#[test]
fn messages_of_refused_command_lines() {
    let message = |v: &[&str]| parse(v).unwrap_err().message();
    assert_eq!(message(&["apifs"]), "Too few arguments");
    assert_eq!(message(&["apifs", "notify"]), "Notify command needs a type!");
    assert_eq!(message(&["apifs", "note", "-n"]), "-n was not provided with a parameter!");
    assert_eq!(
        message(&["apifs", "notify", "once", "-w", "x"]),
        "x is not a valid date!\nValid dates should be in the format of %Y-%m-%d %H:%M:%S."
    );
    assert_eq!(
        message(&["apifs", "notify", "interval", "-w", "x"]),
        "x is not a valid date! Valid dates should be in the format of %Y-%m-%d %H:%M:%S."
    );
    assert_eq!(
        message(&["apifs", "notify", "daily", "-w", "x"]),
        "x is not a valid time! Valid time should be in the format of %H:%M:%S."
    );
    assert_eq!(message(&["apifs", "note", "-x", "y"]), "-x: no such option");
    assert_eq!(
        message(&["apifs", "notify", "interval", "-i", "0h"]),
        "0h is not a valid time identifier! Valid time identifiers should be in the format of ([1-9][0-9]{0,8}[dhmsDHMS]){1,4}."
    );
    assert_eq!(
        message(&["apifs", "notify", "interval", "-i", "1H"]),
        "H is not a valid time type! Valid time types are: d, h, m, s"
    );
    assert_eq!(OptionsError::SpanOverflow.message(), "`TimeDelta + TimeDelta` overflowed");
    assert_eq!(
        message(&["apifs", "notify", "once"]),
        "No date and time provided to notification! notify once needs the -w field to be set"
    );
    assert_eq!(
        message(&["apifs", "notify", "daily"]),
        "No date and time provided to notification! notify daily needs the -w field to be set"
    );
    assert_eq!(
        message(&["apifs", "notify", "interval"]),
        "No date and time provided to notification! notify daily needs the -w field to be set"
    );
    assert_eq!(OptionsError::DateOutOfRange.message(), "`NaiveDate - TimeDelta` overflowed");
    assert_eq!(message(&["apifs", "notify", "weekly"]), "weekly: no such type of notification!");
    assert_eq!(message(&["apifs", "note"]), "Note command needs something to note!");
    assert_eq!(
        message(&["apifs", "note", "-n", "a"]),
        "No name or descriptions provided to note! note needs the -n and the --desc fields to be set"
    );
    assert_eq!(
        message(&["apifs", "remind"]),
        "remind is not a valid argument! Valid arguments are start, stop, remind, note, help, show, add, delete."
    );
}

#[test]
fn a_leap_second_is_kept() {
    let Ok(Command::Remind(Reminder::Once(at, _, _))) =
        parse(&["apifs", "notify", "once", "-w", "2016-12-31", "23:59:60"])
    else {
        panic!("leap second refused");
    };
    let expected = NaiveDate::from_ymd_opt(2016, 12, 31).unwrap().and_hms_opt(23, 59, 59).unwrap();
    assert_eq!(at.secs, secs_of(expected));
    assert_eq!(at.nanos, 1_000_000_000);
    let Ok(Command::Remind(Reminder::Daily(time, _, _, _, _))) =
        parse(&["apifs", "notify", "daily", "-w", "23:59:60"])
    else {
        panic!("leap second refused");
    };
    assert_eq!((time.secs, time.nanos), (86399, 1_000_000_000));
}

#[test]
fn commands_other_than_daily_do_not_depend_on_the_day() {
    let v = ["apifs", "notify", "once", "-w", "2025-08-14", "9:00:00"];
    assert_eq!(parse_options(strings(&v)), parse(&v));
    assert_eq!(
        parse_options_at(strings(&v), Date { days: apifs::time::MIN_DAY }),
        parse(&v)
    );
}

fn no_readings(n: usize) -> Readings {
    Readings {
        joined: vec![None; n],
        joined_midnight: vec![None; n],
        alone_midnight: vec![None; n],
        time: vec![None; n],
        dated_time: vec![None; n],
    }
}

#[test]
fn readings_decide_the_date_and_the_positions() {
    let args = strings(&["apifs", "notify", "once", "-w", "a", "b", "-p", "pic"]);
    let moment = DateTime { secs: 1000, nanos: 0 };
    // Read together, the two texts give the date and time; `-p` follows.
    let mut rd = no_readings(args.len());
    rd.joined[4] = Some(moment);
    assert_eq!(
        parse_options_with(args.clone(), &rd, today()),
        Ok(Command::Remind(Reminder::Once(
            moment,
            Media { picture: Some("pic".to_string()), sound: None },
            None
        )))
    );
    // Read together with midnight appended: the same positions.
    let mut rd = no_readings(args.len());
    rd.joined_midnight[4] = Some(moment);
    assert!(matches!(
        parse_options_with(args.clone(), &rd, today()),
        Ok(Command::Remind(Reminder::Once(m, _, _))) if m == moment
    ));
    // The first text alone: the second is then taken for an option.
    let mut rd = no_readings(args.len());
    rd.alone_midnight[4] = Some(moment);
    assert_eq!(
        parse_options_with(args.clone(), &rd, today()),
        Err(OptionsError::NoSuchOption("b".to_string()))
    );
    // Nothing read: the date is refused.
    assert_eq!(
        parse_options_with(args.clone(), &no_readings(args.len()), today()),
        Err(OptionsError::InvalidDate("a".to_string(), NotifyKind::Once))
    );
}

#[test]
fn readings_decide_the_time_of_day() {
    let args = strings(&["apifs", "notify", "daily", "-w", "t"]);
    let noon = TimeOfDay { secs: 12 * 3600, nanos: 0 };
    let mut rd = no_readings(args.len());
    rd.dated_time[4] = Some(noon);
    let Ok(Command::Remind(Reminder::Daily(time, days, last_day, _, _))) =
        parse_options_with(args.clone(), &rd, today())
    else {
        panic!("refused");
    };
    assert_eq!((time, days, last_day.days), (noon, [true; 7], today().days - 1));
    let mut rd = no_readings(args.len());
    rd.time[4] = Some(noon);
    rd.dated_time[4] = Some(TimeOfDay { secs: 0, nanos: 0 });
    assert!(matches!(
        parse_options_with(args.clone(), &rd, today()),
        Ok(Command::Remind(Reminder::Daily(t, _, _, _, _))) if t == noon
    ));
    assert_eq!(
        parse_options_with(args.clone(), &no_readings(args.len()), today()),
        Err(OptionsError::InvalidTime("t".to_string()))
    );
}

#[test]
fn arguments_are_read_by_chrono() {
    let args = strings(&["2025-08-14", "9:31:42", "10:00:00"]);
    let rd = read_arguments(&args);
    let at = NaiveDate::from_ymd_opt(2025, 8, 14).unwrap().and_hms_opt(9, 31, 42).unwrap();
    let midnight = NaiveDate::from_ymd_opt(2025, 8, 14).unwrap().and_hms_opt(0, 0, 0).unwrap();
    assert_eq!(rd.joined[0], Some(DateTime { secs: secs_of(at), nanos: 0 }));
    assert_eq!(rd.joined[2], None);
    assert_eq!(rd.joined_midnight[0], None);
    assert_eq!(rd.alone_midnight[0], Some(DateTime { secs: secs_of(midnight), nanos: 0 }));
    assert_eq!(rd.alone_midnight[1], None);
    assert_eq!(rd.time[2], Some(TimeOfDay { secs: 10 * 3600, nanos: 0 }));
    assert_eq!(rd.time[0], None);
    assert_eq!(rd.dated_time[0], Some(TimeOfDay { secs: 0, nanos: 0 }));
}
