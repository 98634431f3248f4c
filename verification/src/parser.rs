//! From one line of the log to at most one event.
//!
//! A line that reports an event starts with a date and a time, as in
//! `03/11/2021 19:47:02: Got connection SteamID 76561199036446150`. What
//! follows them is held against five patterns in a fixed order, and the
//! first that matches decides the event. Any other line reports nothing.

use crate::clock::{date_read, read_date, read_time, time_read};
use crate::decimal::{i64_read, read_i64_in, read_u64, u64_read};
use crate::event::{
    ConnectionData, Event, EventView, SaveData, SaveView, SpawnData, SpawnView, Timestamp,
};
use crate::floating::{float_text, is_float_text};
use crate::pattern::{captured, captures};
use crate::text::{field_end, scan_field, to_chars};
use vstd::prelude::*;

verus! {

/// A line that may report an event: date, time, and the rest.
pub const LOG_LINE_REGEX: &'static str =
    r#"(?P<day>\d{2}/\d{2}/\d{4})\s(?P<time>\d{2}:\d{2}:\d{2}):\s(?P<loginfo>.*)"#;

/// A character and its place.
pub const CHARACTER_LOCATION_REGEX: &'static str =
    r#"Got\scharacter\sZDOID\sfrom\s(?P<charname>.*)\s:\s(?P<location>.*)$"#;

/// A save of the world and the milliseconds it took.
pub const WORLD_SAVE_REGEX: &'static str = r#"World\ssaved\s\(\s(?P<timing>.+)ms\s\)"#;

/// An accepted connection.
pub const USER_CONNECTED_REGEX: &'static str = r#"Got\sconnection\sSteamID\s(?P<steamid>\d+)$"#;

/// A closed connection.
pub const USER_DISCONNECTED_REGEX: &'static str = r#"Closing\ssocket\s(?P<steamid>\d+)$"#;

/// A player refused for a wrong password.
pub const WRONG_PASSWORD_REGEX: &'static str = r#"Peer\s(?P<steamid>\d+)\shas\swrong\spassword$"#;

/// How a line writes its date: month, day, year.
pub const DATE_FORMAT: &'static str = "%m/%d/%Y";

/// How a line writes its time: hour, minute, second.
pub const TIME_FORMAT: &'static str = "%T";

/// Why a line that matched a pattern gave no event.
#[derive(Debug, Clone, Copy, PartialEq, Eq, Structural)]
pub enum ParseError {
    /// The date or the time is none that the calendar or the clock has.
    DateTime,
    /// A coordinate or a Steam identifier is no number, or one out of range.
    Integer,
    /// The duration of a save is not the written form of a number.
    Float,
}

impl ParseError {
    /// The sentence that `message` returns.
    pub open spec fn message_text(self) -> Seq<char> {
        match self {
            ParseError::DateTime => "Unable to parse date/time"@,
            ParseError::Integer => "Unable to parse expected integer value"@,
            ParseError::Float => "Unable to parse expected float value"@,
        }
    }

    /// A sentence for a person to read.
    pub fn message(&self) -> (text: &'static str)
        ensures
            text@ == self.message_text(),
    {
        match self {
            ParseError::DateTime => "Unable to parse date/time",
            ParseError::Integer => "Unable to parse expected integer value",
            ParseError::Float => "Unable to parse expected float value",
        }
    }
}

/// The text that group `index` of a search captured: `None` where the search
/// found nothing, has no such group, or the group took no part in the match.
pub open spec fn group(found: Option<Seq<Option<Seq<char>>>>, index: int) -> Option<Seq<char>> {
    match found {
        Some(groups) => if 0 <= index < groups.len() {
            groups[index]
        } else {
            None
        },
        None => None,
    }
}

/// The timestamp made of a date and a time that were read, or the failure
/// where either was not.
pub open spec fn timestamp_of(
    date: Option<(i32, u32, u32)>,
    time: Option<(u32, u32, u32, u32)>,
) -> Result<Timestamp, ParseError> {
    match (date, time) {
        (Some((year, month, day)), Some((hour, minute, second, nanosecond))) => Ok(
            Timestamp { year, month, day, hour, minute, second, nanosecond },
        ),
        _ => Err(ParseError::DateTime),
    }
}

/// The pair of coordinates that `s` writes: two signed numbers with a `:`
/// between them. What follows a second `:` is not read.
pub open spec fn location_read(s: Seq<char>) -> Option<(i64, i64)> {
    let x_end = field_end(s, 0);
    if x_end >= s.len() {
        None
    } else {
        let y_end = field_end(s, x_end + 1);
        match (i64_read(s.subrange(0, x_end)), i64_read(s.subrange(x_end + 1, y_end))) {
            (Some(x), Some(y)) => Some((x, y)),
            _ => None,
        }
    }
}

/// What a character seen at `(x, y)` means: the place (0, 0) stands for no
/// place at all, which is how the server reports a death.
pub open spec fn sighting(timestamp: Timestamp, character: Seq<char>, x: i64, y: i64) -> EventView {
    let data = SpawnView { timestamp, character, location: (x, y) };
    if x == 0 && y == 0 {
        EventView::CharacterDied(data)
    } else {
        EventView::CharacterSpawned(data)
    }
}

/// The event of a line that names a character and a place.
pub open spec fn spawn_of(timestamp: Timestamp, character: Seq<char>, location: Seq<char>) -> Result<
    EventView,
    ParseError,
> {
    match location_read(location) {
        Some((x, y)) => Ok(sighting(timestamp, character, x, y)),
        None => Err(ParseError::Integer),
    }
}

/// The event of a line that reports a save.
pub open spec fn save_of(timestamp: Timestamp, timing: Seq<char>) -> Result<EventView, ParseError> {
    if float_text(timing) {
        Ok(EventView::WorldSaved(SaveView { timestamp, time_spent: timing }))
    } else {
        Err(ParseError::Float)
    }
}

/// The connection of a line that names a Steam identifier.
pub open spec fn connection_of(timestamp: Timestamp, steam_id: Seq<char>) -> Result<
    ConnectionData,
    ParseError,
> {
    match u64_read(steam_id) {
        Some(steam_id) => Ok(ConnectionData { timestamp, steam_id }),
        None => Err(ParseError::Integer),
    }
}

/// The event that the rest of a line reports, after its date and time. The
/// patterns are tried in this order: character and place, save, connection,
/// disconnection, wrong password.
pub open spec fn info_parsed(timestamp: Timestamp, info: Seq<char>) -> Result<
    Option<EventView>,
    ParseError,
> {
    let spawn = captured(CHARACTER_LOCATION_REGEX@, info);
    let save = captured(WORLD_SAVE_REGEX@, info);
    let connected = captured(USER_CONNECTED_REGEX@, info);
    let disconnected = captured(USER_DISCONNECTED_REGEX@, info);
    let refused = captured(WRONG_PASSWORD_REGEX@, info);
    if group(spawn, 1) is Some && group(spawn, 2) is Some {
        match spawn_of(timestamp, group(spawn, 1)->0, group(spawn, 2)->0) {
            Ok(event) => Ok(Some(event)),
            Err(e) => Err(e),
        }
    } else if group(save, 1) is Some {
        match save_of(timestamp, group(save, 1)->0) {
            Ok(event) => Ok(Some(event)),
            Err(e) => Err(e),
        }
    } else if group(connected, 1) is Some {
        match connection_of(timestamp, group(connected, 1)->0) {
            Ok(data) => Ok(Some(EventView::UserConnected(data))),
            Err(e) => Err(e),
        }
    } else if group(disconnected, 1) is Some {
        match connection_of(timestamp, group(disconnected, 1)->0) {
            Ok(data) => Ok(Some(EventView::UserDisconnected(data))),
            Err(e) => Err(e),
        }
    } else if group(refused, 1) is Some {
        match connection_of(timestamp, group(refused, 1)->0) {
            Ok(data) => Ok(Some(EventView::IncorrectPasswordGiven(data))),
            Err(e) => Err(e),
        }
    } else {
        Ok(None)
    }
}

/// What a line reports: an event, nothing, or a failure.
pub open spec fn parsed(line: Seq<char>) -> Result<Option<EventView>, ParseError> {
    let envelope = captured(LOG_LINE_REGEX@, line);
    if group(envelope, 1) is Some && group(envelope, 2) is Some && group(envelope, 3) is Some {
        match timestamp_of(
            date_read(group(envelope, 1)->0, DATE_FORMAT@),
            time_read(group(envelope, 2)->0, TIME_FORMAT@),
        ) {
            Ok(timestamp) => info_parsed(timestamp, group(envelope, 3)->0),
            Err(e) => Err(e),
        }
    } else {
        Ok(None)
    }
}

/// The outcome of `parse`, with the event as its view.
pub open spec fn outcome_view(outcome: Result<Option<Event>, ParseError>) -> Result<
    Option<EventView>,
    ParseError,
> {
    match outcome {
        Ok(Some(event)) => Ok(Some(event@)),
        Ok(None) => Ok(None),
        Err(e) => Err(e),
    }
}

/// Picks the text of group `index` out of what a search captured.
pub fn group_text(found: &Option<Vec<Option<String>>>, index: usize) -> (text: Option<&str>)
    ensures
        text.deep_view() == group(found.deep_view(), index as int),
{
    match found {
        Some(groups) => {
            if index < groups.len() {
                match &groups[index] {
                    Some(text) => Some(text.as_str()),
                    None => None,
                }
            } else {
                None
            }
        },
        None => None,
    }
}

/// Puts a date and a time that were read together.
pub fn timestamp_from(date: Option<(i32, u32, u32)>, time: Option<(u32, u32, u32, u32)>) -> (r:
    Result<Timestamp, ParseError>)
    ensures
        r == timestamp_of(date, time),
{
    match (date, time) {
        (Some((year, month, day)), Some((hour, minute, second, nanosecond))) => Ok(
            Timestamp { year, month, day, hour, minute, second, nanosecond },
        ),
        _ => Err(ParseError::DateTime),
    }
}

/// Reads a pair of coordinates written as `x:y`.
pub fn read_location(location: &str) -> (r: Option<(i64, i64)>)
    ensures
        r == location_read(location@),
{
    let chars = to_chars(location);
    let x_end = scan_field(&chars, 0);
    if x_end >= chars.len() {
        return None;
    }
    let y_end = scan_field(&chars, x_end + 1);
    match (read_i64_in(&chars, 0, x_end), read_i64_in(&chars, x_end + 1, y_end)) {
        (Some(x), Some(y)) => Some((x, y)),
        _ => None,
    }
}

/// Makes the event of a line that names a character and a place: a death
/// where the place is (0, 0), a spawn anywhere else.
pub fn spawn_event(timestamp: Timestamp, character: &str, location: &str) -> (r: Result<
    Event,
    ParseError,
>)
    ensures
        match r {
            Ok(event) => spawn_of(timestamp, character@, location@) == Ok::<EventView, ParseError>(
                event@,
            ),
            Err(e) => spawn_of(timestamp, character@, location@) == Err::<EventView, ParseError>(e),
        },
        r is Ok <==> location_read(location@) is Some,
        r matches Ok(event) ==> (event is CharacterDied <==> location_read(location@) == Some(
            (0i64, 0i64),
        )),
        r matches Ok(event) ==> (event is CharacterSpawned <==> location_read(location@) != Some(
            (0i64, 0i64),
        )),
{
    match read_location(location) {
        Some((x, y)) => {
            let data = SpawnData { timestamp, character: character.to_owned(), location: (x, y) };
            if x == 0 && y == 0 {
                Ok(Event::CharacterDied(data))
            } else {
                Ok(Event::CharacterSpawned(data))
            }
        },
        None => Err(ParseError::Integer),
    }
}

/// Makes the event of a line that reports a save, which took `timing`
/// milliseconds.
pub fn save_event(timestamp: Timestamp, timing: &str) -> (r: Result<Event, ParseError>)
    ensures
        match r {
            Ok(event) => save_of(timestamp, timing@) == Ok::<EventView, ParseError>(event@),
            Err(e) => save_of(timestamp, timing@) == Err::<EventView, ParseError>(e),
        },
{
    if is_float_text(timing) {
        Ok(Event::WorldSaved(SaveData { timestamp, time_spent: timing.to_owned() }))
    } else {
        Err(ParseError::Float)
    }
}

/// Reads the Steam identifier of a line about a connection.
pub fn connection(timestamp: Timestamp, steam_id: &str) -> (r: Result<ConnectionData, ParseError>)
    ensures
        r == connection_of(timestamp, steam_id@),
{
    match read_u64(steam_id) {
        Some(steam_id) => Ok(ConnectionData { timestamp, steam_id }),
        None => Err(ParseError::Integer),
    }
}

/// Reads what follows the date and time of a line.
fn parse_info(timestamp: Timestamp, info: &str) -> (r: Result<Option<Event>, ParseError>)
    ensures
        outcome_view(r) == info_parsed(timestamp, info@),
{
    let spawn = captures(CHARACTER_LOCATION_REGEX, info);
    match (group_text(&spawn, 1), group_text(&spawn, 2)) {
        (Some(character), Some(location)) => {
            return match spawn_event(timestamp, character, location) {
                Ok(event) => Ok(Some(event)),
                Err(e) => Err(e),
            };
        },
        _ => {},
    }
    let save = captures(WORLD_SAVE_REGEX, info);
    match group_text(&save, 1) {
        Some(timing) => {
            return match save_event(timestamp, timing) {
                Ok(event) => Ok(Some(event)),
                Err(e) => Err(e),
            };
        },
        None => {},
    }
    let connected = captures(USER_CONNECTED_REGEX, info);
    match group_text(&connected, 1) {
        Some(steam_id) => {
            return match connection(timestamp, steam_id) {
                Ok(data) => Ok(Some(Event::UserConnected(data))),
                Err(e) => Err(e),
            };
        },
        None => {},
    }
    let disconnected = captures(USER_DISCONNECTED_REGEX, info);
    match group_text(&disconnected, 1) {
        Some(steam_id) => {
            return match connection(timestamp, steam_id) {
                Ok(data) => Ok(Some(Event::UserDisconnected(data))),
                Err(e) => Err(e),
            };
        },
        None => {},
    }
    let refused = captures(WRONG_PASSWORD_REGEX, info);
    match group_text(&refused, 1) {
        Some(steam_id) => {
            return match connection(timestamp, steam_id) {
                Ok(data) => Ok(Some(Event::IncorrectPasswordGiven(data))),
                Err(e) => Err(e),
            };
        },
        None => {},
    }
    Ok(None)
}

/// Reads one line of the log.
///
/// A line that does not start with a date and a time, or whose rest matches
/// no pattern, gives `Ok(None)`. A line that matches gives its event, or the
/// failure to read one of its fields. Nothing else is touched: the next line
/// can be read whatever this one gave.
pub fn parse(line: &str) -> (r: Result<Option<Event>, ParseError>)
    ensures
        outcome_view(r) == parsed(line@),
        captured(LOG_LINE_REGEX@, line@) is None ==> r == Ok::<Option<Event>, ParseError>(None),
{
    let envelope = captures(LOG_LINE_REGEX, line);
    match (group_text(&envelope, 1), group_text(&envelope, 2), group_text(&envelope, 3)) {
        (Some(day), Some(time), Some(info)) => {
            match timestamp_from(read_date(day, DATE_FORMAT), read_time(time, TIME_FORMAT)) {
                Ok(timestamp) => parse_info(timestamp, info),
                Err(e) => Err(e),
            }
        },
        _ => Ok(None),
    }
}

/// A line that does not start with a date and a time reports nothing, and
/// fails in nothing.
pub proof fn lemma_unmatched_line_reports_nothing(line: Seq<char>)
    requires
        captured(LOG_LINE_REGEX@, line) is None,
    ensures
        parsed(line) == Ok::<Option<EventView>, ParseError>(None),
{
}

/// Whether a character seen at a place died or spawned depends on one thing
/// only: whether the place is (0, 0). The time and the name make no
/// difference, and either way they are handed on with the place.
pub proof fn lemma_death_is_the_origin(timestamp: Timestamp, character: Seq<char>, x: i64, y: i64)
    ensures
        sighting(timestamp, character, x, y) is CharacterDied <==> x == 0 && y == 0,
        sighting(timestamp, character, x, y) is CharacterSpawned <==> !(x == 0 && y == 0),
        x == 0 && y == 0 ==> sighting(timestamp, character, x, y) == EventView::CharacterDied(
            SpawnView { timestamp, character, location: (x, y) },
        ),
        !(x == 0 && y == 0) ==> sighting(timestamp, character, x, y)
            == EventView::CharacterSpawned(SpawnView { timestamp, character, location: (x, y) }),
{
}

/// A line about a character gives a death exactly where its place reads as
/// (0, 0), a spawn where it reads as any other place, and a failure where
/// it does not read as a place.
pub proof fn lemma_spawn_or_death(timestamp: Timestamp, character: Seq<char>, location: Seq<char>)
    ensures
        spawn_of(timestamp, character, location) is Ok <==> location_read(location) is Some,
        spawn_of(timestamp, character, location) matches Ok(event) ==> (event is CharacterDied
            <==> location_read(location) == Some((0i64, 0i64))) && (event is CharacterSpawned
            <==> location_read(location) != Some((0i64, 0i64))),
        spawn_of(timestamp, character, location) matches Err(e) ==> e == ParseError::Integer,
{
}

} // verus!
