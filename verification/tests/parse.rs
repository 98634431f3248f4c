use valheim_log_parser::parser::{
    connection, group_text, read_location, save_event, spawn_event, timestamp_from,
};
use valheim_log_parser::{
    parse, ConnectionData, Event, ParseError, SaveData, SpawnData, Timestamp,
};

fn at(hour: u32, minute: u32, second: u32) -> Timestamp {
    Timestamp { year: 2021, month: 3, day: 11, hour, minute, second, nanosecond: 0 }
}

#[test]
fn test_date_parse() {
    let test_str = "03/11/2021 19:36:10: Starting to load scene:start";
    parse(test_str).unwrap();
}

#[test]
fn test_parse_connection() {
    let test_str = "03/11/2021 19:47:02: Got connection SteamID 76561199036446150";
    assert!(parse(test_str).ok().is_some());
}

#[test]
fn test_invalid_password() {
    let logstr = "03/16/2021 13:45:19: Peer 76561197969472572 has wrong password";
    let res = parse(&logstr);

    if let Ok(Some(Event::IncorrectPasswordGiven(_))) = res {
        //
    } else {
        panic!("Didn't get incorrect password event from parse");
    }
}

#[test]
fn line_without_event_is_no_event() {
    let res = parse("03/11/2021 19:36:10: Starting to load scene:start");
    assert_eq!(res, Ok(None));
}

#[test]
fn line_without_date_is_no_event() {
    assert_eq!(parse(""), Ok(None));
    assert_eq!(parse("Got connection SteamID 76561199036446150"), Ok(None));
    assert_eq!(parse("(Filename: ./Runtime/Export/Debug/Debug.bindings.h Line: 35)"), Ok(None));
    assert_eq!(parse("3/11/2021 19:47:02: Got connection SteamID 1"), Ok(None));
    assert_eq!(parse("03/11/2021 19:47:02 Got connection SteamID 1"), Ok(None));
    assert_eq!(parse("03-11-2021 19:47:02: Got connection SteamID 1"), Ok(None));
    assert_eq!(parse("World saved ( 12ms )"), Ok(None));
}

#[test]
fn connection_is_read_with_its_time() {
    let res = parse("03/11/2021 19:47:02: Got connection SteamID 76561199036446150");
    assert_eq!(
        res,
        Ok(Some(Event::UserConnected(ConnectionData {
            timestamp: at(19, 47, 2),
            steam_id: 76561199036446150,
        })))
    );
}

#[test]
fn date_is_read_month_first() {
    let res = parse("12/31/1999 00:00:59: Closing socket 7");
    assert_eq!(
        res,
        Ok(Some(Event::UserDisconnected(ConnectionData {
            timestamp: Timestamp {
                year: 1999,
                month: 12,
                day: 31,
                hour: 0,
                minute: 0,
                second: 59,
                nanosecond: 0,
            },
            steam_id: 7,
        })))
    );
}

#[test]
fn disconnection_is_read() {
    let res = parse("03/11/2021 20:01:44: Closing socket 76561199036446150");
    assert_eq!(
        res,
        Ok(Some(Event::UserDisconnected(ConnectionData {
            timestamp: at(20, 1, 44),
            steam_id: 76561199036446150,
        })))
    );
}

#[test]
fn wrong_password_is_read() {
    let res = parse("03/16/2021 13:45:19: Peer 76561197969472572 has wrong password");
    let timestamp = Timestamp {
        year: 2021,
        month: 3,
        day: 16,
        hour: 13,
        minute: 45,
        second: 19,
        nanosecond: 0,
    };
    assert_eq!(
        res,
        Ok(Some(Event::IncorrectPasswordGiven(ConnectionData {
            timestamp,
            steam_id: 76561197969472572,
        })))
    );
}

#[test]
fn spawn_is_read() {
    let res = parse("03/11/2021 19:47:10: Got character ZDOID from Bjorn : 120:45");
    assert_eq!(
        res,
        Ok(Some(Event::CharacterSpawned(SpawnData {
            timestamp: at(19, 47, 10),
            character: "Bjorn".to_string(),
            location: (120, 45),
        })))
    );
}

#[test]
fn negative_place_is_read() {
    let res = parse("03/11/2021 19:47:10: Got character ZDOID from Bjorn : -1994206165:3");
    assert_eq!(
        res,
        Ok(Some(Event::CharacterSpawned(SpawnData {
            timestamp: at(19, 47, 10),
            character: "Bjorn".to_string(),
            location: (-1994206165, 3),
        })))
    );
}

#[test]
fn death_is_the_place_zero_zero() {
    let res = parse("03/11/2021 19:55:31: Got character ZDOID from Bjorn : 0:0");
    assert_eq!(
        res,
        Ok(Some(Event::CharacterDied(SpawnData {
            timestamp: at(19, 55, 31),
            character: "Bjorn".to_string(),
            location: (0, 0),
        })))
    );
}

#[test]
fn one_zero_coordinate_is_no_death() {
    let t = at(1, 2, 3);
    for (text, place) in [("0:1", (0, 1)), ("1:0", (1, 0)), ("0:-1", (0, -1)), ("-7:0", (-7, 0))] {
        let res = spawn_event(t, "Sigrid", text);
        assert_eq!(
            res,
            Ok(Event::CharacterSpawned(SpawnData {
                timestamp: t,
                character: "Sigrid".to_string(),
                location: place,
            }))
        );
    }
}

#[test]
fn zero_in_any_writing_is_a_death() {
    let t = at(1, 2, 3);
    for text in ["0:0", "-0:0", "+0:00", "000:-0", "0:0:17"] {
        let res = spawn_event(t, "Sigrid", text);
        assert_eq!(
            res,
            Ok(Event::CharacterDied(SpawnData {
                timestamp: t,
                character: "Sigrid".to_string(),
                location: (0, 0),
            }))
        );
    }
}

#[test]
fn name_may_hold_blanks_and_colons() {
    let res = parse("03/11/2021 19:47:10: Got character ZDOID from Olaf the : Bold : 5:6");
    assert_eq!(
        res,
        Ok(Some(Event::CharacterSpawned(SpawnData {
            timestamp: at(19, 47, 10),
            character: "Olaf the : Bold".to_string(),
            location: (5, 6),
        })))
    );
}

#[test]
fn place_is_two_numbers() {
    assert_eq!(read_location("120:45"), Some((120, 45)));
    assert_eq!(read_location("-3:+4"), Some((-3, 4)));
    assert_eq!(read_location("1:2:3"), Some((1, 2)));
    assert_eq!(read_location("1:2:"), Some((1, 2)));
    assert_eq!(
        read_location("9223372036854775807:-9223372036854775808"),
        Some((i64::MAX, i64::MIN))
    );
    assert_eq!(read_location(""), None);
    assert_eq!(read_location("12"), None);
    assert_eq!(read_location("12:"), None);
    assert_eq!(read_location(":12"), None);
    assert_eq!(read_location("1 :2"), None);
    assert_eq!(read_location("1: 2"), None);
    assert_eq!(read_location("a:b"), None);
    assert_eq!(read_location("1.5:2"), None);
    assert_eq!(read_location("9223372036854775808:0"), None);
    assert_eq!(read_location("0:-9223372036854775809"), None);
}

#[test]
fn place_that_is_no_number_is_an_integer_failure() {
    let res = parse("03/11/2021 19:47:10: Got character ZDOID from Bjorn : north:south");
    assert_eq!(res, Err(ParseError::Integer));
    let res = parse("03/11/2021 19:47:10: Got character ZDOID from Bjorn : 12");
    assert_eq!(res, Err(ParseError::Integer));
    let res = parse("03/11/2021 19:47:10: Got character ZDOID from Bjorn : 12:");
    assert_eq!(res, Err(ParseError::Integer));
}

#[test]
fn identifier_out_of_range_is_an_integer_failure() {
    let res = parse("03/11/2021 19:47:02: Got connection SteamID 18446744073709551616");
    assert_eq!(res, Err(ParseError::Integer));
    let res = parse("03/11/2021 19:47:02: Closing socket 99999999999999999999999");
    assert_eq!(res, Err(ParseError::Integer));
    let res = parse("03/11/2021 19:47:02: Peer 18446744073709551616 has wrong password");
    assert_eq!(res, Err(ParseError::Integer));
    let res = parse("03/11/2021 19:47:02: Got connection SteamID 18446744073709551615");
    assert_eq!(
        res,
        Ok(Some(Event::UserConnected(ConnectionData {
            timestamp: at(19, 47, 2),
            steam_id: u64::MAX,
        })))
    );
}

#[test]
fn digits_of_another_script_are_an_integer_failure() {
    let res = parse("03/11/2021 19:47:02: Got connection SteamID \u{0661}\u{0662}\u{0663}");
    assert_eq!(res, Err(ParseError::Integer));
}

#[test]
fn save_is_read() {
    let res = parse("03/11/2021 19:50:00: World saved ( 123.456ms )");
    assert_eq!(
        res,
        Ok(Some(Event::WorldSaved(SaveData {
            timestamp: at(19, 50, 0),
            time_spent: "123.456".to_string(),
        })))
    );
    if let Ok(Some(Event::WorldSaved(data))) = res {
        assert_eq!(data.time_spent.parse::<f64>(), Ok(123.456));
    }
}

#[test]
fn save_that_took_no_number_is_a_float_failure() {
    let res = parse("03/11/2021 19:50:00: World saved ( fastms )");
    assert_eq!(res, Err(ParseError::Float));
    let res = parse("03/11/2021 19:50:00: World saved ( 12,5ms )");
    assert_eq!(res, Err(ParseError::Float));
    let res = parse("03/11/2021 19:50:00: World saved (  12ms )");
    assert_eq!(res, Err(ParseError::Float));
}

#[test]
fn malformed_date_is_a_date_failure() {
    let res = parse("99/99/9999 00:00:00: World saved ( 12ms )");
    assert_eq!(res, Err(ParseError::DateTime));
}

#[test]
fn day_that_the_month_lacks_is_a_date_failure() {
    assert_eq!(parse("02/30/2021 10:00:00: Closing socket 1"), Err(ParseError::DateTime));
    assert_eq!(parse("02/29/2021 10:00:00: Closing socket 1"), Err(ParseError::DateTime));
    assert_eq!(parse("00/10/2021 10:00:00: Closing socket 1"), Err(ParseError::DateTime));
    assert!(parse("02/29/2020 10:00:00: Closing socket 1").is_ok());
}

#[test]
fn time_that_the_clock_lacks_is_a_date_failure() {
    assert_eq!(parse("03/11/2021 24:00:00: Closing socket 1"), Err(ParseError::DateTime));
    assert_eq!(parse("03/11/2021 10:60:00: Closing socket 1"), Err(ParseError::DateTime));
    assert_eq!(parse("03/11/2021 10:00:61: Closing socket 1"), Err(ParseError::DateTime));
}

#[test]
fn date_failure_comes_before_the_rest_is_read() {
    let res = parse("99/99/9999 00:00:00: Got connection SteamID 99999999999999999999999");
    assert_eq!(res, Err(ParseError::DateTime));
    let res = parse("99/99/9999 00:00:00: nothing of interest");
    assert_eq!(res, Err(ParseError::DateTime));
}

#[test]
fn leap_second_is_kept() {
    let res = parse("06/30/2015 23:59:60: Closing socket 1");
    assert_eq!(
        res,
        Ok(Some(Event::UserDisconnected(ConnectionData {
            timestamp: Timestamp {
                year: 2015,
                month: 6,
                day: 30,
                hour: 23,
                minute: 59,
                second: 59,
                nanosecond: 1_000_000_000,
            },
            steam_id: 1,
        })))
    );
}

#[test]
fn character_pattern_comes_first() {
    let line = "03/11/2021 19:47:10: Got character ZDOID from A : Got connection SteamID 5";
    assert_eq!(parse(line), Err(ParseError::Integer));
    let line = "03/11/2021 19:47:10: Got character ZDOID from World saved ( 1ms ) : 1:2";
    assert_eq!(
        parse(line),
        Ok(Some(Event::CharacterSpawned(SpawnData {
            timestamp: at(19, 47, 10),
            character: "World saved ( 1ms )".to_string(),
            location: (1, 2),
        })))
    );
}

#[test]
fn save_pattern_comes_before_connection() {
    let line = "03/11/2021 19:47:10: World saved ( 2ms ) Got connection SteamID 5";
    assert_eq!(
        parse(line),
        Ok(Some(Event::WorldSaved(SaveData {
            timestamp: at(19, 47, 10),
            time_spent: "2".to_string(),
        })))
    );
}

#[test]
fn pattern_may_start_anywhere_in_the_line() {
    let line = "[Info] 03/11/2021 19:47:02: Server: Got connection SteamID 42";
    assert_eq!(
        parse(line),
        Ok(Some(Event::UserConnected(ConnectionData { timestamp: at(19, 47, 2), steam_id: 42 })))
    );
}

#[test]
fn identifier_must_end_the_line() {
    assert_eq!(parse("03/11/2021 19:47:02: Got connection SteamID 42 again"), Ok(None));
    assert_eq!(parse("03/11/2021 19:47:02: Closing socket"), Ok(None));
    assert_eq!(parse("03/11/2021 19:47:02: Peer 42 has wrong password!"), Ok(None));
}

#[test]
fn group_is_picked_by_its_number() {
    let found = Some(vec![Some("a:b".to_string()), Some("a".to_string()), None]);
    assert_eq!(group_text(&found, 0), Some("a:b"));
    assert_eq!(group_text(&found, 1), Some("a"));
    assert_eq!(group_text(&found, 2), None);
    assert_eq!(group_text(&found, 3), None);
    assert_eq!(group_text(&None, 0), None);
}

#[test]
fn timestamp_needs_date_and_time() {
    assert_eq!(timestamp_from(Some((2021, 3, 11)), Some((19, 47, 2, 0))), Ok(at(19, 47, 2)));
    assert_eq!(timestamp_from(None, Some((19, 47, 2, 0))), Err(ParseError::DateTime));
    assert_eq!(timestamp_from(Some((2021, 3, 11)), None), Err(ParseError::DateTime));
    assert_eq!(timestamp_from(None, None), Err(ParseError::DateTime));
}

#[test]
fn save_event_keeps_the_text() {
    let t = at(4, 5, 6);
    assert_eq!(
        save_event(t, "1e3"),
        Ok(Event::WorldSaved(SaveData { timestamp: t, time_spent: "1e3".to_string() }))
    );
    assert_eq!(save_event(t, ""), Err(ParseError::Float));
    assert_eq!(save_event(t, "12 "), Err(ParseError::Float));
}

#[test]
fn connection_reads_the_identifier() {
    let t = at(4, 5, 6);
    assert_eq!(connection(t, "42"), Ok(ConnectionData { timestamp: t, steam_id: 42 }));
    assert_eq!(connection(t, "+42"), Ok(ConnectionData { timestamp: t, steam_id: 42 }));
    assert_eq!(connection(t, "-42"), Err(ParseError::Integer));
    assert_eq!(connection(t, ""), Err(ParseError::Integer));
    assert_eq!(connection(t, "4 2"), Err(ParseError::Integer));
}

#[test]
fn failure_has_a_message() {
    assert_eq!(ParseError::DateTime.message(), "Unable to parse date/time");
    assert_eq!(ParseError::Integer.message(), "Unable to parse expected integer value");
    assert_eq!(ParseError::Float.message(), "Unable to parse expected float value");
}

#[test]
fn lines_of_a_session_are_read() {
    let lines = [
        "03/11/2021 19:36:10: Starting to load scene:start",
        "03/11/2021 19:47:02: Got connection SteamID 76561199036446150",
        "03/11/2021 19:47:02: Got handshake from client 76561199036446150",
        "03/11/2021 19:47:10: Got character ZDOID from Bjorn : 120:45",
        "03/11/2021 19:50:00: World saved ( 123.456ms )",
        "03/11/2021 19:55:31: Got character ZDOID from Bjorn : 0:0",
        "03/11/2021 20:01:44: Closing socket 76561199036446150",
        "",
    ];
    let events: Vec<Event> = lines.iter().filter_map(|line| parse(line).unwrap()).collect();
    assert_eq!(events.len(), 5);
    assert!(matches!(events[0], Event::UserConnected(_)));
    assert!(matches!(events[1], Event::CharacterSpawned(_)));
    assert!(matches!(events[2], Event::WorldSaved(_)));
    assert!(matches!(events[3], Event::CharacterDied(_)));
    assert!(matches!(events[4], Event::UserDisconnected(_)));
}

#[test]
fn timestamps_are_ordered_by_time() {
    let early = at(19, 47, 2);
    let late = at(19, 47, 10);
    assert!(early < late);
    assert!(Timestamp { year: 2020, ..late } < early);
    assert!(Timestamp { month: 4, day: 1, hour: 0, ..early } > late);
    assert!(Timestamp { nanosecond: 1_000_000_000, ..early } > early);
    assert_eq!(early, at(19, 47, 2));
}
