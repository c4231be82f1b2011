//! The scheduler's state: the plugins, constructed once from
//! configuration. The unbounded tick loop itself — run each plugin in this
//! fixed order, then sleep — is wall-clock and network plumbing and lives
//! with the caller; each plugin's own gate (see `schedule`) makes a tick
//! of a not-yet-due plugin a no-op, and no plugin error reaches the loop.

use vstd::prelude::*;

use crate::config::Plugins;
use crate::mod_log::ModLog;
use crate::private_message::PrivateMessage;

verus! {

/// The bot: its plugins, ticked in fixed order, forever.
pub struct Bot {
    pub mod_log: ModLog,
    pub private_message: PrivateMessage,
}

impl Bot {
    /// A bot whose plugins' markers start at the given time.
    pub fn new_at(config: Plugins, now: i64) -> (r: Self)
        ensures
            r.mod_log.config == config.mod_log,
            r.mod_log.last_run == now,
            r.private_message.config == config.private_message,
            r.private_message.last_run == now,
    {
        Bot {
            mod_log: ModLog::new_at(config.mod_log, now),
            private_message: PrivateMessage::new_at(config.private_message, now),
        }
    }

    /// A bot whose plugins' markers start at the current wall-clock time:
    /// nothing that predates startup is acted on.
    pub fn new(config: Plugins) -> (r: Self)
        ensures
            r.mod_log.config == config.mod_log,
            r.mod_log.last_run >= 0,
            r.private_message.config == config.private_message,
            r.private_message.last_run >= 0,
    {
        Bot {
            mod_log: ModLog::new(config.mod_log),
            private_message: PrivateMessage::new(config.private_message),
        }
    }
}

} // verus!
