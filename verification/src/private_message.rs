//! The private-message plugin: pruning of the bot's own stale outbound
//! messages, and intake of unread messages — each routed to command
//! execution (local admins only) or forwarded to the admins. The caller
//! fetches messages, marks them read and resolves senders; every decision
//! in between is made here.

use vstd::prelude::*;

use crate::clock::now_seconds;
use crate::commands::Commands;
use crate::commands::command_text;
use crate::commands::parse_spec;
use crate::commands::trim_spaces;
use crate::commands::trimmed;
use crate::config::PrivateMessageConfig;
use crate::model::ClientError;
use crate::model::Person;
use crate::model::is_admin;
use crate::model::is_admin_spec;
use crate::notify::Notification;
use crate::notify::fan_out;
use crate::notify::notification_plan;
use crate::notify::notifications_view;
use crate::render::client_error_text;
use crate::render::person_text;
use crate::render::render_client_error;
use crate::render::render_person;

verus! {

/// How long the bot's own messages are kept before pruning: seven days,
/// in seconds.
pub const PRUNE_AGE_SECONDS: i64 = 604800;

/// A message is pruned exactly when the bot itself sent it and it is
/// strictly older than seven days; messages from others, and younger
/// messages, are never deleted.
pub open spec fn prune_due(m: crate::model::PrivateMessage, self_id: i32, now: i64) -> bool {
    m.sender_id == self_id && now - m.created > PRUNE_AGE_SECONDS
}

/// Decides whether one message is due for pruning. The age is computed in
/// a width no pair of timestamps can overflow.
pub fn should_prune(m: &crate::model::PrivateMessage, self_id: i32, now: i64) -> (r: bool)
    ensures
        r == prune_due(*m, self_id, now),
{
    m.sender_id == self_id && (now as i128) - (m.created as i128) > (PRUNE_AGE_SECONDS as i128)
}

/// The ids of the messages due for pruning, in message order.
pub open spec fn prune_ids_spec(
    msgs: Seq<crate::model::PrivateMessage>,
    self_id: i32,
    now: i64,
) -> Seq<i32>
    decreases msgs.len(),
{
    if msgs.len() == 0 {
        Seq::<i32>::empty()
    } else {
        let rest = prune_ids_spec(msgs.drop_first(), self_id, now);
        if prune_due(msgs[0], self_id, now) {
            seq![msgs[0].id] + rest
        } else {
            rest
        }
    }
}

/// Plans pruning: the ids of exactly the messages the bot sent more than
/// seven days ago, in order.
pub fn prune_plan(msgs: &Vec<crate::model::PrivateMessage>, self_id: i32, now: i64) -> (r: Vec<i32>)
    ensures
        r@ == prune_ids_spec(msgs@, self_id, now),
{
    let mut r: Vec<i32> = Vec::new();
    let mut i: usize = 0;
    proof {
        assert(msgs@.skip(0) =~= msgs@);
        assert(r@ + prune_ids_spec(msgs@, self_id, now) =~= prune_ids_spec(msgs@, self_id, now));
    }
    while i < msgs.len()
        invariant
            0 <= i <= msgs@.len(),
            r@ + prune_ids_spec(msgs@.skip(i as int), self_id, now) == prune_ids_spec(
                msgs@,
                self_id,
                now,
            ),
        decreases msgs@.len() - i,
    {
        proof {
            assert(msgs@.skip(i as int).drop_first() =~= msgs@.skip(i + 1 as int));
            assert(msgs@.skip(i as int)[0] == msgs@[i as int]);
        }
        if should_prune(&msgs[i], self_id, now) {
            r.push(msgs[i].id);
            proof {
                assert(r@ + prune_ids_spec(msgs@.skip(i + 1 as int), self_id, now)
                    =~= prune_ids_spec(msgs@, self_id, now));
            }
        }
        i = i + 1;
    }
    proof {
        assert(msgs@.skip(msgs@.len() as int) =~= Seq::<crate::model::PrivateMessage>::empty());
        assert(r@ =~= prune_ids_spec(msgs@, self_id, now));
    }
    r
}

/// A message is pruned if and only if it is due: every due message's id is
/// planned, and every planned id belongs to a due message.
pub proof fn lemma_prune_exact(msgs: Seq<crate::model::PrivateMessage>, self_id: i32, now: i64)
    ensures
        forall|k: int|
            0 <= k < msgs.len() && prune_due(#[trigger] msgs[k], self_id, now) ==> prune_ids_spec(
                msgs,
                self_id,
                now,
            ).contains(msgs[k].id),
        forall|id: i32|
            prune_ids_spec(msgs, self_id, now).contains(id) ==> exists|k: int|
                0 <= k < msgs.len() && prune_due(#[trigger] msgs[k], self_id, now) && msgs[k].id
                    == id,
    decreases msgs.len(),
{
    if msgs.len() > 0 {
        lemma_prune_exact(msgs.drop_first(), self_id, now);
        let rest = prune_ids_spec(msgs.drop_first(), self_id, now);
        assert forall|k: int|
            0 <= k < msgs.len() && prune_due(#[trigger] msgs[k], self_id, now) implies prune_ids_spec(
            msgs,
            self_id,
            now,
        ).contains(msgs[k].id) by {
            if k == 0 {
                assert(prune_ids_spec(msgs, self_id, now)[0] == msgs[0].id);
            } else {
                assert(msgs.drop_first()[k - 1] == msgs[k]);
                assert(rest.contains(msgs[k].id));
                let j = choose|j: int| 0 <= j < rest.len() && rest[j] == msgs[k].id;
                if prune_due(msgs[0], self_id, now) {
                    assert(prune_ids_spec(msgs, self_id, now)[j + 1] == msgs[k].id);
                } else {
                    assert(prune_ids_spec(msgs, self_id, now)[j] == msgs[k].id);
                }
            }
        }
        assert forall|id: i32| prune_ids_spec(msgs, self_id, now).contains(id) implies exists|k: int|
            0 <= k < msgs.len() && prune_due(#[trigger] msgs[k], self_id, now) && msgs[k].id
                == id by {
            let j = choose|j: int|
                0 <= j < prune_ids_spec(msgs, self_id, now).len() && prune_ids_spec(
                    msgs,
                    self_id,
                    now,
                )[j] == id;
            if prune_due(msgs[0], self_id, now) {
                if j == 0 {
                    assert(prune_due(msgs[0], self_id, now) && msgs[0].id == id);
                } else {
                    assert(rest[j - 1] == id);
                    assert(rest.contains(id));
                    let k = choose|k: int|
                        0 <= k < msgs.drop_first().len() && prune_due(
                            #[trigger] msgs.drop_first()[k],
                            self_id,
                            now,
                        ) && msgs.drop_first()[k].id == id;
                    assert(msgs[k + 1] == msgs.drop_first()[k]);
                }
            } else {
                assert(rest[j] == id);
                assert(rest.contains(id));
                let k = choose|k: int|
                    0 <= k < msgs.drop_first().len() && prune_due(
                        #[trigger] msgs.drop_first()[k],
                        self_id,
                        now,
                    ) && msgs.drop_first()[k].id == id;
                assert(msgs[k + 1] == msgs.drop_first()[k]);
            }
        }
    }
}

/// Where an unread message goes once its sender is resolved.
pub enum Route {
    /// The sender is a verified-local, verified-admin account and command
    /// execution is enabled: the message body is a command.
    ExecuteCommand,
    /// Anyone else, with forwarding enabled: the message is forwarded to
    /// every admin.
    Forward,
    /// Neither applies: the message stays marked read and is ignored.
    Ignore,
}

/// The routing rule. Only a sender who is local and on the current
/// admin list may reach command execution; the admin check is made
/// against the list fetched in the same tick, so revoked rights are never
/// honoured from a cache.
pub open spec fn route_spec(
    cfg: PrivateMessageConfig,
    sender: Person,
    admins: Seq<Person>,
) -> Route {
    if sender.is_local && is_admin_spec(admins, sender.id) {
        if cfg.allow_message_commands {
            Route::ExecuteCommand
        } else {
            Route::Ignore
        }
    } else if cfg.forward_messages {
        Route::Forward
    } else {
        Route::Ignore
    }
}

/// Routes one unread message by its resolved sender.
pub fn route_message(cfg: &PrivateMessageConfig, sender: &Person, admins: &Vec<Person>) -> (r:
    Route)
    ensures
        r == route_spec(*cfg, *sender, admins@),
{
    if sender.is_local && is_admin(admins, sender.id) {
        if cfg.allow_message_commands {
            Route::ExecuteCommand
        } else {
            Route::Ignore
        }
    } else if cfg.forward_messages {
        Route::Forward
    } else {
        Route::Ignore
    }
}

/// True when the bot itself sent the message; such messages are skipped
/// before anything else is done with them.
pub fn is_own_message(m: &crate::model::PrivateMessage, self_id: i32) -> (r: bool)
    ensures
        r == (m.sender_id == self_id),
{
    m.sender_id == self_id
}

/// The reply sent for a message that is not a valid command.
pub open spec fn invalid_command_text(content: Seq<char>) -> Seq<char> {
    "invalid or unsupported command: `"@ + content + "`"@
}

/// The reply sent when a command's execution failed.
pub open spec fn command_failed_text(e: ClientError) -> Seq<char> {
    "command failed: `"@ + client_error_text(e) + "`"@
}

/// The audit notice sent to admins after a successful command.
pub open spec fn audit_text(sender_name: Seq<char>, cmd: Commands) -> Seq<char> {
    "`"@ + sender_name + "` performed a message command:\r\n"@ + command_text(cmd)
}

/// A forwarded message: the sender and the content, verbatim.
pub open spec fn forward_text(sender: Person, m: crate::model::PrivateMessage) -> Seq<char> {
    "* user = "@ + person_text(sender) + "\r\n* message = `"@ + m.content@ + "`"@
}

/// Parses a message body as a command after trimming. A body that is no
/// command yields the reply owed to the sender instead, naming the
/// trimmed content; no partial command is ever produced.
pub fn parse_message_command(m: &crate::model::PrivateMessage) -> (r: Result<Commands, Notification>)
    ensures
        match r {
            Ok(cmd) => parse_spec(trimmed(m.content@)) == Some(cmd@),
            Err(n) => parse_spec(trimmed(m.content@)) is None && n.recipient_id == m.sender_id
                && n.body@ == invalid_command_text(trimmed(m.content@)),
        },
{
    let content = trim_spaces(m.content.as_str());
    match Commands::parse(content) {
        Some(cmd) => Ok(cmd),
        None => {
            let mut body = String::from_str("invalid or unsupported command: `");
            body.append(content);
            body.append("`");
            proof {
                assert(body@ =~= invalid_command_text(trimmed(m.content@)));
            }
            Err(Notification { recipient_id: m.sender_id, body })
        },
    }
}

/// What executing a command amounts to on the platform.
pub enum CommandAction {
    /// The resolved target is a current admin or the bot itself: success
    /// without any side effect.
    Noop,
    /// Purge the person, with the command's reason.
    Purge { person_id: i32, reason: String },
    /// Ban the person site-wide (no expiry), with the command's reason,
    /// removing their content exactly when `remove_content` holds.
    Ban { person_id: i32, remove_content: bool, reason: String },
}

/// The mathematical shape of a command's action.
pub ghost enum CommandActionV {
    Noop,
    Purge { person_id: i32, reason: Seq<char> },
    Ban { person_id: i32, remove_content: bool, reason: Seq<char> },
}

impl View for CommandAction {
    type V = CommandActionV;

    open spec fn view(&self) -> CommandActionV {
        match self {
            CommandAction::Noop => CommandActionV::Noop,
            CommandAction::Purge { person_id, reason } => CommandActionV::Purge {
                person_id: *person_id,
                reason: reason@,
            },
            CommandAction::Ban { person_id, remove_content, reason } => CommandActionV::Ban {
                person_id: *person_id,
                remove_content: *remove_content,
                reason: reason@,
            },
        }
    }
}

/// The execution rule: a command against a current admin or the bot
/// itself is a silent no-op; otherwise the purge or ban it names, against
/// the resolved target, with its reason.
pub open spec fn command_action_spec(
    cmd: Commands,
    target: Person,
    admins: Seq<Person>,
    self_id: i32,
) -> CommandActionV {
    if is_admin_spec(admins, target.id) || target.id == self_id {
        CommandActionV::Noop
    } else {
        match cmd {
            Commands::PurgeUser(_, reason) => CommandActionV::Purge {
                person_id: target.id,
                reason: reason@,
            },
            Commands::SiteBan(_, reason) => CommandActionV::Ban {
                person_id: target.id,
                remove_content: false,
                reason: reason@,
            },
            Commands::SiteBanRemove(_, reason) => CommandActionV::Ban {
                person_id: target.id,
                remove_content: true,
                reason: reason@,
            },
        }
    }
}

/// Plans the execution of a command against its resolved target.
pub fn plan_command(cmd: &Commands, target: &Person, admins: &Vec<Person>, self_id: i32) -> (r:
    CommandAction)
    ensures
        r@ == command_action_spec(*cmd, *target, admins@, self_id),
{
    if is_admin(admins, target.id) || target.id == self_id {
        CommandAction::Noop
    } else {
        match cmd {
            Commands::PurgeUser(_, reason) => CommandAction::Purge {
                person_id: target.id,
                reason: reason.clone(),
            },
            Commands::SiteBan(_, reason) => CommandAction::Ban {
                person_id: target.id,
                remove_content: false,
                reason: reason.clone(),
            },
            Commands::SiteBanRemove(_, reason) => CommandAction::Ban {
                person_id: target.id,
                remove_content: true,
                reason: reason.clone(),
            },
        }
    }
}

/// A command against a current admin or the bot's own account is a no-op:
/// success, and no side effect, whatever the command said.
pub proof fn lemma_command_spares_admins_and_self(
    cmd: Commands,
    target: Person,
    admins: Seq<Person>,
    self_id: i32,
)
    requires
        is_admin_spec(admins, target.id) || target.id == self_id,
    ensures
        command_action_spec(cmd, target, admins, self_id) is Noop,
{
}

/// The audit notices owed after a successful command: one per admin when
/// auditing is on, none otherwise.
pub fn command_success_notices(
    audit: bool,
    sender: &Person,
    cmd: &Commands,
    admins: &Vec<Person>,
) -> (r: Vec<Notification>)
    ensures
        notifications_view(r@) == (if audit {
            fan_out(admins@, audit_text(sender.name@, *cmd))
        } else {
            Seq::<crate::notify::NotificationV>::empty()
        }),
{
    if audit {
        let mut body = String::from_str("`");
        body.append(sender.name.as_str());
        body.append("` performed a message command:\r\n");
        let rendered = cmd.render();
        body.append(rendered.as_str());
        proof {
            assert(body@ =~= audit_text(sender.name@, *cmd));
        }
        notification_plan(admins, &body)
    } else {
        let r: Vec<Notification> = Vec::new();
        proof {
            assert(notifications_view(r@) =~= Seq::<crate::notify::NotificationV>::empty());
        }
        r
    }
}

/// The reply owed to the sender when a command's execution failed.
pub fn command_failure_reply(sender_id: i32, err: &ClientError) -> (r: Notification)
    ensures
        r.recipient_id == sender_id,
        r.body@ == command_failed_text(*err),
{
    let mut body = String::from_str("command failed: `");
    let rendered = render_client_error(err);
    body.append(rendered.as_str());
    body.append("`");
    proof {
        assert(body@ =~= command_failed_text(*err));
    }
    Notification { recipient_id: sender_id, body }
}

/// Plans the forwarding of a message: exactly one notification per
/// current admin, carrying the sender and the content verbatim.
pub fn forward_plan(
    sender: &Person,
    m: &crate::model::PrivateMessage,
    admins: &Vec<Person>,
) -> (r: Vec<Notification>)
    ensures
        notifications_view(r@) == fan_out(admins@, forward_text(*sender, *m)),
{
    let mut body = String::from_str("* user = ");
    let rendered = render_person(sender);
    body.append(rendered.as_str());
    body.append("\r\n* message = `");
    body.append(m.content.as_str());
    body.append("`");
    proof {
        assert(body@ =~= forward_text(*sender, *m));
    }
    notification_plan(admins, &body)
}

/// A forwarded message reaches every current admin exactly once, with the
/// sender and content in the body.
pub proof fn lemma_forward_fanout(
    admins: Seq<Person>,
    sender: Person,
    m: crate::model::PrivateMessage,
)
    ensures
        fan_out(admins, forward_text(sender, m)).len() == admins.len(),
        forall|k: int|
            0 <= k < admins.len() ==> #[trigger] fan_out(admins, forward_text(sender, m))[k]
                == (crate::notify::NotificationV {
                recipient_id: admins[k].id,
                body: forward_text(sender, m),
            }),
{
}

/// The private-message plugin: its options and its last-run marker.
pub struct PrivateMessage {
    pub config: PrivateMessageConfig,
    pub last_run: i64,
}

impl PrivateMessage {
    /// A fresh plugin whose marker starts at the given time.
    pub fn new_at(config: PrivateMessageConfig, now: i64) -> (r: Self)
        ensures
            r.config == config,
            r.last_run == now,
    {
        PrivateMessage { config, last_run: now }
    }

    /// A fresh plugin whose marker starts at the current wall-clock time.
    pub fn new(config: PrivateMessageConfig) -> (r: Self)
        ensures
            r.config == config,
            r.last_run >= 0,
    {
        let now = now_seconds();
        PrivateMessage { config, last_run: now }
    }

    /// Gates one tick at `now`. When the plugin is due, the marker is
    /// advanced to `now` before any processing; when it is not due, the
    /// plugin is left untouched and nothing else of the tick may happen.
    pub fn begin_tick_at(&mut self, now: i64) -> (r: bool)
        ensures
            r == crate::schedule::due_spec(
                old(self).config.enabled,
                old(self).config.interval,
                old(self).last_run,
                now,
            ),
            final(self).config == old(self).config,
            r ==> final(self).last_run == now,
            !r ==> final(self).last_run == old(self).last_run,
    {
        if crate::schedule::due(self.config.enabled, self.config.interval, self.last_run, now) {
            self.last_run = now;
            true
        } else {
            false
        }
    }

    /// Gates one tick at the current wall-clock time, returning the
    /// decision and the time that was read.
    pub fn begin_tick(&mut self) -> (r: (bool, i64))
        ensures
            r.0 == crate::schedule::due_spec(
                old(self).config.enabled,
                old(self).config.interval,
                old(self).last_run,
                r.1,
            ),
            final(self).config == old(self).config,
            r.0 ==> final(self).last_run == r.1,
            !r.0 ==> final(self).last_run == old(self).last_run,
            r.1 >= 0,
    {
        let now = now_seconds();
        let run = self.begin_tick_at(now);
        (run, now)
    }
}

} // verus!
