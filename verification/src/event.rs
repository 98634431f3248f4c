//! The events that a server log reports.

use vstd::prelude::*;

verus! {

/// Calendar date and time of day at the start of a log line.
///
/// The fields are what the line wrote, read as numbers. A second that the
/// log wrote as `60` is kept as second 59 with `nanosecond` at one thousand
/// million. The fields stand from the longest span of time to the shortest,
/// so that the derived order is the order of time.
#[derive(Debug, Clone, Copy, PartialEq, Eq, PartialOrd, Ord, Hash, Structural)]
pub struct Timestamp {
    pub year: i32,
    pub month: u32,
    pub day: u32,
    pub hour: u32,
    pub minute: u32,
    pub second: u32,
    pub nanosecond: u32,
}

/// An event that carries nothing yet.
#[derive(Debug, Clone, Copy, PartialEq, Eq, Structural)]
pub struct EventData;

/// A player's connection, by Steam identifier.
#[derive(Debug, Clone, Copy, PartialEq, Eq, Structural)]
pub struct ConnectionData {
    pub timestamp: Timestamp,
    pub steam_id: u64,
}

/// A character and the place where the server put it.
#[derive(Debug, PartialEq, Eq)]
pub struct SpawnData {
    pub timestamp: Timestamp,
    pub character: String,
    pub location: (i64, i64),
}

/// A save of the world. `time_spent` is the number of milliseconds that it
/// took, in the written form of a floating-point number.
#[derive(Debug, PartialEq, Eq)]
pub struct SaveData {
    pub timestamp: Timestamp,
    pub time_spent: String,
}

/// What one line of the log reports.
#[derive(Debug, PartialEq, Eq)]
pub enum Event {
    /// The server accepted a connection.
    UserConnected(ConnectionData),
    /// The server closed a connection.
    UserDisconnected(ConnectionData),
    /// The server saved the world.
    WorldSaved(SaveData),
    /// A character was removed: the server placed it at (0, 0).
    CharacterDied(SpawnData),
    /// A character was placed anywhere else.
    CharacterSpawned(SpawnData),
    /// The server refused a player who gave a wrong password.
    IncorrectPasswordGiven(ConnectionData),
}

impl Clone for SpawnData {
    fn clone(&self) -> (copy: Self)
        ensures
            copy == *self,
    {
        SpawnData {
            timestamp: self.timestamp,
            character: self.character.clone(),
            location: self.location,
        }
    }
}

impl Clone for SaveData {
    fn clone(&self) -> (copy: Self)
        ensures
            copy == *self,
    {
        SaveData { timestamp: self.timestamp, time_spent: self.time_spent.clone() }
    }
}

impl Clone for Event {
    fn clone(&self) -> (copy: Self)
        ensures
            copy == *self,
    {
        match self {
            Event::UserConnected(data) => Event::UserConnected(*data),
            Event::UserDisconnected(data) => Event::UserDisconnected(*data),
            Event::WorldSaved(data) => Event::WorldSaved(data.clone()),
            Event::CharacterDied(data) => Event::CharacterDied(data.clone()),
            Event::CharacterSpawned(data) => Event::CharacterSpawned(data.clone()),
            Event::IncorrectPasswordGiven(data) => Event::IncorrectPasswordGiven(*data),
        }
    }
}

/// What a [`SpawnData`] holds, with the name as a sequence of characters.
pub struct SpawnView {
    pub timestamp: Timestamp,
    pub character: Seq<char>,
    pub location: (i64, i64),
}

/// What a [`SaveData`] holds, with the duration as a sequence of characters.
pub struct SaveView {
    pub timestamp: Timestamp,
    pub time_spent: Seq<char>,
}

/// What an [`Event`] holds, with text as sequences of characters.
pub enum EventView {
    UserConnected(ConnectionData),
    UserDisconnected(ConnectionData),
    WorldSaved(SaveView),
    CharacterDied(SpawnView),
    CharacterSpawned(SpawnView),
    IncorrectPasswordGiven(ConnectionData),
}

impl View for SpawnData {
    type V = SpawnView;

    open spec fn view(&self) -> SpawnView {
        SpawnView {
            timestamp: self.timestamp,
            character: self.character@,
            location: self.location,
        }
    }
}

impl View for SaveData {
    type V = SaveView;

    open spec fn view(&self) -> SaveView {
        SaveView { timestamp: self.timestamp, time_spent: self.time_spent@ }
    }
}

impl View for Event {
    type V = EventView;

    open spec fn view(&self) -> EventView {
        match self {
            Event::UserConnected(data) => EventView::UserConnected(*data),
            Event::UserDisconnected(data) => EventView::UserDisconnected(*data),
            Event::WorldSaved(data) => EventView::WorldSaved(data@),
            Event::CharacterDied(data) => EventView::CharacterDied(data@),
            Event::CharacterSpawned(data) => EventView::CharacterSpawned(data@),
            Event::IncorrectPasswordGiven(data) => EventView::IncorrectPasswordGiven(*data),
        }
    }
}

} // verus!
