//! What the watcher needs to know before it starts.

use crate::decimal::{read_u64, u64_read};
use vstd::prelude::*;

verus! {

/// The settings of a watcher.
#[derive(Debug)]
pub struct Config {
    /// The path of the script that starts the server.
    pub start_script: String,
    /// The key that the chat service gave the bot.
    pub bot_key: String,
    /// The channel that the bot writes to.
    pub channel_id: u64,
}

impl Clone for Config {
    fn clone(&self) -> (copy: Self)
        ensures
            copy == *self,
    {
        Config {
            start_script: self.start_script.clone(),
            bot_key: self.bot_key.clone(),
            channel_id: self.channel_id,
        }
    }
}

impl Config {
    /// The settings made of their three parts.
    pub fn new(path: &str, bot_key: String, channel_id: u64) -> (config: Config)
        ensures
            config.start_script@ == path@,
            config.bot_key == bot_key,
            config.channel_id == channel_id,
    {
        Config { start_script: path.to_owned(), bot_key, channel_id }
    }

    /// Makes the settings out of three values as the environment holds
    /// them, all text. The channel has to be written as a number.
    pub fn from_values(start_script: &str, bot_key: String, channel_id: &str) -> (config: Option<
        Config,
    >)
        ensures
            config is Some <==> u64_read(channel_id@) is Some,
            config matches Some(c) ==> c.start_script@ == start_script@ && c.bot_key == bot_key
                && Some(c.channel_id) == u64_read(channel_id@),
    {
        match read_u64(channel_id) {
            Some(channel_id) => Some(Config::new(start_script, bot_key, channel_id)),
            None => None,
        }
    }
}

} // verus!
