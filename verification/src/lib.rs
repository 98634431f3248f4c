//! Typed events from the log of a Valheim dedicated server, and the table of
//! connected players that those events build up.
//!
//! [`parse`] reads one line of the log and gives the [`Event`] that it
//! reports, if any. A [`Correlator`] takes the events in the order of their
//! lines, pairs each connection with the character that comes with it, keeps
//! the table of who plays whom in its [`State`], and answers each event with
//! the [`Notification`]s that are to be passed on.
//!
//! Searching for patterns is left to the `regex` crate and reading dates to
//! `chrono`; the contracts name what those return and say exactly what is
//! made of it. Everything else is proved: reading numbers, telling a death
//! from a spawn, the order in which the patterns are tried, and every
//! change to the queues and the table.

pub mod clock;
pub mod config;
pub mod correlator;
pub mod decimal;
pub mod event;
pub mod floating;
pub mod parser;
pub mod pattern;
pub mod state;
pub mod text;

pub use config::Config;
pub use correlator::{Correlator, Notification};
pub use event::{ConnectionData, Event, EventData, SaveData, SpawnData, Timestamp};
pub use parser::{parse, ParseError};
pub use state::{State, STEAM_COMMUNITY};
