use automod::config::ModLogConfig;
use automod::mod_log::BanRequest;
use automod::mod_log::ModLog;
use automod::mod_log::ModLogStep;
use automod::mod_log::RawDetail;
use automod::mod_log::RawModEntry;
use automod::mod_log::RawPostRemoval;
use automod::mod_log::allowlist_contains;
use automod::mod_log::assemble_actions;
use automod::mod_log::attach_post_creators;
use automod::mod_log::needed_creators;
use automod::mod_log::needed_moderators;
use automod::mod_log::plan_mod_log;
use automod::model::ModlogActions;
use automod::model::ModlogBan;
use automod::model::ModlogRemoval;
use automod::model::Person;
use automod::model::Post;

fn person(id: i32, name: &str, instance: &str, is_local: bool) -> Person {
    Person {
        id,
        name: String::from(name),
        instance: String::from(instance),
        url: format!("https://{instance}/u/{name}"),
        is_local,
    }
}

fn site_ban_entry(when: i64, moderator_id: i32, affected: Person, banned: bool) -> RawModEntry {
    RawModEntry {
        when,
        moderator_id,
        affected,
        detail: RawDetail::SiteBan { is_banned: banned, reason: Some(String::from("spam")), expires: None },
    }
}

fn config(allowlist: Vec<&str>) -> ModLogConfig {
    ModLogConfig {
        enabled: true,
        interval: 60,
        notify_bans: false,
        notify_federated_bans: false,
        notify_removals: false,
        allowlist_federated_actions: allowlist.into_iter().map(String::from).collect(),
    }
}

#[test]
fn stale_entries_need_no_moderator() {
    // an entry older than the capture point is never acted on; one exactly
    // at the capture point is included
    let entries = vec![
        site_ban_entry(99, 11, person(1, "a", "local.example", true), true),
        site_ban_entry(100, 12, person(2, "b", "local.example", true), true),
        site_ban_entry(101, 13, person(3, "c", "local.example", true), true),
    ];
    assert_eq!(needed_moderators(&entries, 100), vec![12, 13]);
}

#[test]
fn remote_affected_entries_need_no_moderator() {
    let entries = vec![
        site_ban_entry(100, 11, person(1, "a", "remote.example", false), true),
        site_ban_entry(100, 12, person(2, "b", "local.example", true), true),
    ];
    assert_eq!(needed_moderators(&entries, 50), vec![12]);
}

#[test]
fn assembly_drops_local_moderators() {
    let entries = vec![
        site_ban_entry(100, 11, person(1, "a", "local.example", true), true),
        site_ban_entry(101, 12, person(2, "b", "local.example", true), false),
    ];
    let mods = vec![
        person(11, "localmod", "local.example", true),
        person(12, "remotemod", "far.example", false),
    ];
    let actions = assemble_actions(&entries, 50, &mods);
    assert_eq!(actions.bans.len(), 1);
    assert_eq!(actions.removals.len(), 0);
    match &actions.bans[0] {
        ModlogBan::Site { moderator, user, is_banned, .. } => {
            assert_eq!(moderator.id, 12);
            assert_eq!(user.id, 2);
            assert!(!is_banned);
        }
        _ => panic!("expected a site ban"),
    }
}

#[test]
fn assembly_keeps_kinds_apart_in_order() {
    let alice = person(1, "alice", "local.example", true);
    let bob = person(2, "bob", "local.example", true);
    let entries = vec![
        site_ban_entry(100, 11, alice.clone(), true),
        RawModEntry {
            when: 100,
            moderator_id: 12,
            affected: bob.clone(),
            detail: RawDetail::CommentRemoval {
                comment: automod::model::Comment {
                    id: 5,
                    content: String::from("x"),
                    url: String::from("https://local.example/comment/5"),
                },
                is_removed: true,
                reason: None,
            },
        },
        RawModEntry {
            when: 100,
            moderator_id: 13,
            affected: alice.clone(),
            detail: RawDetail::CommunityBan {
                community: automod::model::Community {
                    name: String::from("news"),
                    instance: String::from("far.example"),
                    url: String::from("https://far.example/c/news"),
                },
                is_banned: true,
                reason: None,
                expires: Some(7),
            },
        },
    ];
    let mods = vec![
        person(11, "m1", "far.example", false),
        person(12, "m2", "far.example", false),
        person(13, "m3", "far.example", false),
    ];
    let actions = assemble_actions(&entries, 100, &mods);
    assert_eq!(actions.bans.len(), 2);
    assert_eq!(actions.removals.len(), 1);
    assert!(matches!(&actions.bans[0], ModlogBan::Site { .. }));
    assert!(matches!(&actions.bans[1], ModlogBan::Community { .. }));
    assert!(matches!(&actions.removals[0], ModlogRemoval::Comment(_)));
}

#[test]
fn post_removals_resolve_creators_first() {
    let posts = vec![
        RawPostRemoval {
            when: 99,
            moderator_id: 11,
            creator_id: 21,
            post: Post { id: 1, name: String::from("old"), url: String::from("u1") },
            is_removed: true,
            reason: None,
        },
        RawPostRemoval {
            when: 100,
            moderator_id: 12,
            creator_id: 22,
            post: Post { id: 2, name: String::from("new"), url: String::from("u2") },
            is_removed: true,
            reason: None,
        },
    ];
    assert_eq!(needed_creators(&posts, 100), vec![22]);
    let creators = vec![person(22, "alice", "local.example", true)];
    let entries = attach_post_creators(&posts, 100, &creators);
    assert_eq!(entries.len(), 1);
    assert_eq!(entries[0].moderator_id, 12);
    assert_eq!(entries[0].affected.id, 22);
    assert_eq!(needed_moderators(&entries, 100), vec![12]);
}

#[test]
fn allowlist_match_is_exact_and_case_sensitive() {
    let list = vec![String::from("trusted.example")];
    assert!(allowlist_contains(&list, &String::from("trusted.example")));
    assert!(!allowlist_contains(&list, &String::from("Trusted.example")));
    assert!(!allowlist_contains(&list, &String::from("sub.trusted.example")));
    assert!(!allowlist_contains(&list, &String::from("trusted.example.evil")));
    assert!(!allowlist_contains(&Vec::new(), &String::from("trusted.example")));
}

fn replay_requests(steps: &[ModLogStep]) -> Vec<&BanRequest> {
    steps
        .iter()
        .filter_map(|s| match s {
            ModLogStep::Replay { request, .. } => Some(request),
            ModLogStep::Send(_) => None,
        })
        .collect()
}

fn site_ban_action(moderator: Person, user: Person) -> ModlogBan {
    ModlogBan::Site {
        moderator,
        user,
        is_banned: true,
        reason: Some(String::from("spam")),
        expires: Some(60),
    }
}

#[test]
fn replay_triggers_only_for_allowlisted_instances() {
    let admins = vec![person(50, "admin", "local.example", true)];
    let target = person(3, "alice", "local.example", true);
    let actions = ModlogActions {
        bans: vec![
            site_ban_action(person(9, "mod", "trusted.example", false), target.clone()),
            site_ban_action(person(10, "mod2", "other.example", false), target.clone()),
        ],
        removals: Vec::new(),
    };
    let steps = plan_mod_log(&actions, &admins, 1, &config(vec!["trusted.example"]));
    let replays = replay_requests(&steps);
    assert_eq!(replays.len(), 1);
    assert_eq!(replays[0].person_id, 3);
    assert!(replays[0].banned);
    assert_eq!(replays[0].expires, Some(60));
    assert_eq!(replays[0].remove_content, None);
    assert_eq!(
        replays[0].reason.as_deref(),
        Some("Federated ban from trusted.example")
    );
}

#[test]
fn replay_spares_admins_and_self() {
    let admins = vec![person(50, "admin", "local.example", true)];
    let moderator = person(9, "mod", "trusted.example", false);
    let actions = ModlogActions {
        bans: vec![
            // the bot's own account
            site_ban_action(moderator.clone(), person(1, "bot", "local.example", true)),
            // a current admin
            site_ban_action(moderator.clone(), person(50, "admin", "local.example", true)),
            // a remote person
            site_ban_action(moderator.clone(), person(7, "rem", "far.example", false)),
        ],
        removals: Vec::new(),
    };
    let steps = plan_mod_log(&actions, &admins, 1, &config(vec!["trusted.example"]));
    assert!(replay_requests(&steps).is_empty());
}

#[test]
fn community_bans_are_not_replayed() {
    let admins = vec![person(50, "admin", "local.example", true)];
    let actions = ModlogActions {
        bans: vec![ModlogBan::Community {
            moderator: person(9, "mod", "trusted.example", false),
            user: person(3, "alice", "local.example", true),
            community: automod::model::Community {
                name: String::from("news"),
                instance: String::from("far.example"),
                url: String::from("https://far.example/c/news"),
            },
            is_banned: true,
            reason: None,
            expires: None,
        }],
        removals: Vec::new(),
    };
    let steps = plan_mod_log(&actions, &admins, 1, &config(vec!["trusted.example"]));
    assert!(replay_requests(&steps).is_empty());
}

#[test]
fn plan_notifies_every_admin_of_bans_and_removals() {
    let admins = vec![
        person(50, "admin", "local.example", true),
        person(51, "admin2", "local.example", true),
    ];
    let actions = ModlogActions {
        bans: vec![site_ban_action(
            person(9, "mod", "other.example", false),
            person(3, "alice", "local.example", true),
        )],
        removals: Vec::new(),
    };
    let mut cfg = config(vec![]);
    cfg.notify_bans = true;
    let steps = plan_mod_log(&actions, &admins, 1, &cfg);
    assert_eq!(steps.len(), 2);
    let recipients: Vec<i32> = steps
        .iter()
        .map(|s| match s {
            ModLogStep::Send(n) => n.recipient_id,
            _ => panic!("expected only notices"),
        })
        .collect();
    assert_eq!(recipients, vec![50, 51]);
}

#[test]
fn replay_notices_follow_the_request_only_when_enabled() {
    let admins = vec![person(50, "admin", "local.example", true)];
    let actions = ModlogActions {
        bans: vec![site_ban_action(
            person(9, "mod", "trusted.example", false),
            person(3, "alice", "local.example", true),
        )],
        removals: Vec::new(),
    };
    let mut cfg = config(vec!["trusted.example"]);
    cfg.notify_federated_bans = true;
    let steps = plan_mod_log(&actions, &admins, 1, &cfg);
    assert_eq!(steps.len(), 1);
    match &steps[0] {
        ModLogStep::Replay { notices, .. } => {
            assert_eq!(notices.len(), 1);
            assert_eq!(notices[0].recipient_id, 50);
            assert!(notices[0].body.starts_with("Federated ban:\r\n* site_ban = `true`"));
        }
        _ => panic!("expected a replay step"),
    }

    let quiet = plan_mod_log(&actions, &admins, 1, &config(vec!["trusted.example"]));
    match &quiet[0] {
        ModLogStep::Replay { notices, .. } => assert!(notices.is_empty()),
        _ => panic!("expected a replay step"),
    }
}

#[test]
fn full_tick_pipeline_scenario() {
    // four raw entries: one stale, one against a remote person, one issued
    // by a local moderator, and one fully qualifying
    let entries = vec![
        site_ban_entry(99, 11, person(1, "old", "local.example", true), true),
        site_ban_entry(100, 12, person(2, "rem", "far.example", false), true),
        site_ban_entry(100, 13, person(3, "a", "local.example", true), true),
        site_ban_entry(101, 14, person(4, "b", "local.example", true), true),
    ];
    // only the two fresh, locally-affected entries need their moderator
    let needed = needed_moderators(&entries, 100);
    assert_eq!(needed, vec![13, 14]);
    let mods = vec![
        person(13, "localmod", "local.example", true),
        person(14, "remotemod", "trusted.example", false),
    ];
    let actions = assemble_actions(&entries, 100, &mods);
    // the local moderator's entry is dropped; one action survives
    assert_eq!(actions.bans.len(), 1);

    let admins = vec![person(50, "admin", "local.example", true)];
    let mut cfg = config(vec!["trusted.example"]);
    cfg.notify_bans = true;
    let steps = plan_mod_log(&actions, &admins, 1, &cfg);
    // one notice to the admin, then the replay of the qualifying ban
    assert_eq!(steps.len(), 2);
    assert!(matches!(&steps[0], ModLogStep::Send(n) if n.recipient_id == 50));
    match &steps[1] {
        ModLogStep::Replay { request, notices } => {
            assert_eq!(request.person_id, 4);
            assert_eq!(
                request.reason.as_deref(),
                Some("Federated ban from trusted.example")
            );
            assert!(notices.is_empty());
        }
        _ => panic!("expected a replay step"),
    }
}

#[test]
fn disabled_or_early_tick_leaves_plugin_untouched() {
    let mut plugin = ModLog::new_at(config(vec![]), 1000);
    // not due: only 59 of 60 seconds elapsed
    assert!(!plugin.begin_tick_at(1059));
    assert_eq!(plugin.last_run, 1000);
    // due at exactly the interval, and the marker advances first
    assert!(plugin.begin_tick_at(1060));
    assert_eq!(plugin.last_run, 1060);
    // a disabled plugin is never due
    let mut cfg = config(vec![]);
    cfg.enabled = false;
    let mut disabled = ModLog::new_at(cfg, 1000);
    assert!(!disabled.begin_tick_at(5000));
    assert_eq!(disabled.last_run, 1000);
}
