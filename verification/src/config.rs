//! Configuration surface of the engine: connection settings and the
//! per-plugin options. Absent options default to disabled with a
//! 60-second interval.

use vstd::prelude::*;

verus! {

/// Connection settings of the bot account.
pub struct Lemmy {
    pub username: String,
    pub password: String,
    pub host: String,
}

/// The options of the moderation-log plugin.
pub struct ModLogConfig {
    pub enabled: bool,
    pub interval: i64,
    pub notify_bans: bool,
    pub notify_federated_bans: bool,
    pub notify_removals: bool,
    /// Trusted remote instance hostnames whose moderators' site bans are
    /// replayed locally. The sole authorization boundary of federation
    /// replay: security-sensitive.
    pub allowlist_federated_actions: Vec<String>,
}

impl Default for ModLogConfig {
    fn default() -> (r: Self)
        ensures
            r.enabled == false,
            r.interval == 60,
            r.notify_bans == false,
            r.notify_federated_bans == false,
            r.notify_removals == false,
            r.allowlist_federated_actions@ == Seq::<String>::empty(),
    {
        ModLogConfig {
            enabled: false,
            interval: 60,
            notify_bans: false,
            notify_federated_bans: false,
            notify_removals: false,
            allowlist_federated_actions: Vec::new(),
        }
    }
}

/// The options of the private-message plugin.
pub struct PrivateMessageConfig {
    pub enabled: bool,
    pub interval: i64,
    pub prune_messages: bool,
    pub forward_messages: bool,
    pub allow_message_commands: bool,
    pub audit_message_commands: bool,
}

impl Default for PrivateMessageConfig {
    fn default() -> (r: Self)
        ensures
            r.enabled == false,
            r.interval == 60,
            r.prune_messages == false,
            r.forward_messages == false,
            r.allow_message_commands == false,
            r.audit_message_commands == false,
    {
        PrivateMessageConfig {
            enabled: false,
            interval: 60,
            prune_messages: false,
            forward_messages: false,
            allow_message_commands: false,
            audit_message_commands: false,
        }
    }
}

/// The configuration of every plugin the scheduler owns.
pub struct Plugins {
    pub mod_log: ModLogConfig,
    pub private_message: PrivateMessageConfig,
}

} // verus!
