//! The moderation-log plugin: ingestion of moderation-log entries since
//! the last tick, the locality filter, federated-ban replay, and the plan
//! of notifications and local bans that one tick issues.
//!
//! The platform hands back raw log entries with the affected person
//! embedded and the acting moderator as an id. The caller resolves the
//! moderator ids this module asks for (in order, all of them or none, as
//! one failed lookup ends the tick) and hands the resolved persons back;
//! everything between the fetches — selection, classification, assembly
//! and planning — is decided here.

use vstd::prelude::*;

use crate::clock::now_seconds;
use crate::config::ModLogConfig;
use crate::model::Comment;
use crate::model::Community;
use crate::model::ModlogActions;
use crate::model::ModlogBan;
use crate::model::ModlogCommentRemoval;
use crate::model::ModlogPostRemoval;
use crate::model::ModlogRemoval;
use crate::model::Person;
use crate::model::Post;
use crate::model::is_admin;
use crate::model::is_admin_spec;
use crate::notify::Notification;
use crate::notify::NotificationV;
use crate::notify::fan_out;
use crate::notify::notification_plan;
use crate::notify::notifications_view;
use crate::render::ban_text;
use crate::render::removal_text;
use crate::render::render_ban;
use crate::render::render_removal;

verus! {

/// One raw moderation-log entry: when it happened, who acted (by id, not
/// yet resolved), whom it affected, and what kind of action it was.
pub struct RawModEntry {
    pub when: i64,
    pub moderator_id: i32,
    pub affected: Person,
    pub detail: RawDetail,
}

/// The kind-specific payload of a raw moderation-log entry.
pub enum RawDetail {
    SiteBan { is_banned: bool, reason: Option<String>, expires: Option<i64> },
    CommunityBan {
        community: Community,
        is_banned: bool,
        reason: Option<String>,
        expires: Option<i64>,
    },
    CommentRemoval { comment: Comment, is_removed: bool, reason: Option<String> },
    PostRemoval { post: Post, is_removed: bool, reason: Option<String> },
}

/// A raw post-removal entry as the platform returns it: the affected
/// person is only a creator id and must be resolved first.
pub struct RawPostRemoval {
    pub when: i64,
    pub moderator_id: i32,
    pub creator_id: i32,
    pub post: Post,
    pub is_removed: bool,
    pub reason: Option<String>,
}

/// An entry is selected when it is no older than the capture point
/// (an entry stamped exactly at `since` is included) and it affects a
/// local person. Only selected entries have their moderator resolved.
pub open spec fn entry_selected(e: RawModEntry, since: i64) -> bool {
    e.when >= since && e.affected.is_local
}

/// The moderator ids of the selected entries, in entry order.
pub open spec fn needed_moderators_spec(entries: Seq<RawModEntry>, since: i64) -> Seq<i32>
    decreases entries.len(),
{
    if entries.len() == 0 {
        Seq::<i32>::empty()
    } else {
        let rest = needed_moderators_spec(entries.drop_first(), since);
        if entry_selected(entries[0], since) {
            seq![entries[0].moderator_id] + rest
        } else {
            rest
        }
    }
}

/// Lists the moderator ids the caller must resolve, in order, one per
/// selected entry (an id looked up once per entry, as the platform is
/// queried afresh each time).
pub fn needed_moderators(entries: &Vec<RawModEntry>, since: i64) -> (r: Vec<i32>)
    ensures
        r@ == needed_moderators_spec(entries@, since),
{
    let mut r: Vec<i32> = Vec::new();
    let mut i: usize = 0;
    proof {
        assert(entries@.skip(0) =~= entries@);
        assert(r@ + needed_moderators_spec(entries@, since) =~= needed_moderators_spec(
            entries@,
            since,
        ));
    }
    while i < entries.len()
        invariant
            0 <= i <= entries@.len(),
            r@ + needed_moderators_spec(entries@.skip(i as int), since) == needed_moderators_spec(
                entries@,
                since,
            ),
        decreases entries@.len() - i,
    {
        proof {
            assert(entries@.skip(i as int).drop_first() =~= entries@.skip(i + 1 as int));
            assert(entries@.skip(i as int)[0] == entries@[i as int]);
        }
        if entries[i].when >= since && entries[i].affected.is_local {
            r.push(entries[i].moderator_id);
            proof {
                assert(r@ + needed_moderators_spec(entries@.skip(i + 1 as int), since)
                    =~= needed_moderators_spec(entries@, since));
            }
        }
        i = i + 1;
    }
    proof {
        assert(entries@.skip(entries@.len() as int) =~= Seq::<RawModEntry>::empty());
        assert(r@ =~= needed_moderators_spec(entries@, since));
    }
    r
}

/// The bans and removals assembled from one tick's entries.
pub ghost struct AssembledV {
    pub bans: Seq<ModlogBan>,
    pub removals: Seq<ModlogRemoval>,
}

/// What assembly yields: each selected entry is paired, in order, with
/// the next resolved moderator; entries whose moderator is local are
/// discarded (local moderation needs no automation), the rest become
/// actions, bans and removals kept apart in entry order.
pub open spec fn assemble_spec(entries: Seq<RawModEntry>, since: i64, mods: Seq<Person>) -> AssembledV
    decreases entries.len(),
{
    if entries.len() == 0 {
        AssembledV { bans: Seq::<ModlogBan>::empty(), removals: Seq::<ModlogRemoval>::empty() }
    } else {
        let e = entries[0];
        if entry_selected(e, since) {
            if mods.len() == 0 {
                AssembledV {
                    bans: Seq::<ModlogBan>::empty(),
                    removals: Seq::<ModlogRemoval>::empty(),
                }
            } else {
                let m = mods[0];
                let rest = assemble_spec(entries.drop_first(), since, mods.drop_first());
                if m.is_local {
                    rest
                } else {
                    match e.detail {
                        RawDetail::SiteBan { is_banned, reason, expires } => AssembledV {
                            bans: seq![
                                ModlogBan::Site {
                                    moderator: m,
                                    user: e.affected,
                                    is_banned,
                                    reason,
                                    expires,
                                },
                            ] + rest.bans,
                            removals: rest.removals,
                        },
                        RawDetail::CommunityBan { community, is_banned, reason, expires } => AssembledV {
                            bans: seq![
                                ModlogBan::Community {
                                    moderator: m,
                                    user: e.affected,
                                    community,
                                    is_banned,
                                    reason,
                                    expires,
                                },
                            ] + rest.bans,
                            removals: rest.removals,
                        },
                        RawDetail::CommentRemoval { comment, is_removed, reason } => AssembledV {
                            bans: rest.bans,
                            removals: seq![
                                ModlogRemoval::Comment(
                                    ModlogCommentRemoval {
                                        moderator: m,
                                        user: e.affected,
                                        comment,
                                        is_removed,
                                        reason,
                                    },
                                ),
                            ] + rest.removals,
                        },
                        RawDetail::PostRemoval { post, is_removed, reason } => AssembledV {
                            bans: rest.bans,
                            removals: seq![
                                ModlogRemoval::Post(
                                    ModlogPostRemoval {
                                        moderator: m,
                                        user: e.affected,
                                        post,
                                        is_removed,
                                        reason,
                                    },
                                ),
                            ] + rest.removals,
                        },
                    }
                }
            }
        } else {
            assemble_spec(entries.drop_first(), since, mods)
        }
    }
}

fn clone_opt_string(o: &Option<String>) -> (r: Option<String>)
    ensures
        r == *o,
{
    match o {
        Some(s) => Some(s.clone()),
        None => None,
    }
}

/// Assembles the surviving actions of one tick from the raw entries and
/// the resolved moderators, one moderator per selected entry in order.
pub fn assemble_actions(entries: &Vec<RawModEntry>, since: i64, moderators: &Vec<Person>) -> (r:
    ModlogActions)
    requires
        moderators@.len() == needed_moderators_spec(entries@, since).len(),
    ensures
        r.bans@ == assemble_spec(entries@, since, moderators@).bans,
        r.removals@ == assemble_spec(entries@, since, moderators@).removals,
{
    let mut bans: Vec<ModlogBan> = Vec::new();
    let mut removals: Vec<ModlogRemoval> = Vec::new();
    let mlen: usize = moderators.len();
    let mut i: usize = 0;
    let mut j: usize = 0;
    proof {
        assert(entries@.skip(0) =~= entries@);
        assert(moderators@.skip(0) =~= moderators@);
        assert(bans@ + assemble_spec(entries@, since, moderators@).bans =~= assemble_spec(
            entries@,
            since,
            moderators@,
        ).bans);
        assert(removals@ + assemble_spec(entries@, since, moderators@).removals =~= assemble_spec(
            entries@,
            since,
            moderators@,
        ).removals);
    }
    while i < entries.len()
        invariant
            0 <= i <= entries@.len(),
            0 <= j <= moderators@.len(),
            mlen == moderators@.len(),
            moderators@.len() - j == needed_moderators_spec(entries@.skip(i as int), since).len(),
            bans@ + assemble_spec(entries@.skip(i as int), since, moderators@.skip(j as int)).bans
                == assemble_spec(entries@, since, moderators@).bans,
            removals@ + assemble_spec(
                entries@.skip(i as int),
                since,
                moderators@.skip(j as int),
            ).removals == assemble_spec(entries@, since, moderators@).removals,
        decreases entries@.len() - i,
    {
        proof {
            assert(entries@.skip(i as int).drop_first() =~= entries@.skip(i + 1 as int));
            assert(entries@.skip(i as int)[0] == entries@[i as int]);
        }
        let e = &entries[i];
        if e.when >= since && e.affected.is_local {
            proof {
                assert(needed_moderators_spec(entries@.skip(i as int), since).len() >= 1);
                assert(moderators@.skip(j as int).drop_first() =~= moderators@.skip(j + 1 as int));
                assert(moderators@.skip(j as int)[0] == moderators@[j as int]);
            }
            let m = &moderators[j];
            if !m.is_local {
                match &e.detail {
                    RawDetail::SiteBan { is_banned, reason, expires } => {
                        bans.push(
                            ModlogBan::Site {
                                moderator: m.clone(),
                                user: e.affected.clone(),
                                is_banned: *is_banned,
                                reason: clone_opt_string(reason),
                                expires: *expires,
                            },
                        );
                    },
                    RawDetail::CommunityBan { community, is_banned, reason, expires } => {
                        bans.push(
                            ModlogBan::Community {
                                moderator: m.clone(),
                                user: e.affected.clone(),
                                community: community.clone(),
                                is_banned: *is_banned,
                                reason: clone_opt_string(reason),
                                expires: *expires,
                            },
                        );
                    },
                    RawDetail::CommentRemoval { comment, is_removed, reason } => {
                        removals.push(
                            ModlogRemoval::Comment(
                                ModlogCommentRemoval {
                                    moderator: m.clone(),
                                    user: e.affected.clone(),
                                    comment: comment.clone(),
                                    is_removed: *is_removed,
                                    reason: clone_opt_string(reason),
                                },
                            ),
                        );
                    },
                    RawDetail::PostRemoval { post, is_removed, reason } => {
                        removals.push(
                            ModlogRemoval::Post(
                                ModlogPostRemoval {
                                    moderator: m.clone(),
                                    user: e.affected.clone(),
                                    post: post.clone(),
                                    is_removed: *is_removed,
                                    reason: clone_opt_string(reason),
                                },
                            ),
                        );
                    },
                }
            }
            j = j + 1;
            proof {
                assert(bans@ + assemble_spec(
                    entries@.skip(i + 1 as int),
                    since,
                    moderators@.skip(j as int),
                ).bans =~= assemble_spec(entries@, since, moderators@).bans);
                assert(removals@ + assemble_spec(
                    entries@.skip(i + 1 as int),
                    since,
                    moderators@.skip(j as int),
                ).removals =~= assemble_spec(entries@, since, moderators@).removals);
            }
        }
        i = i + 1;
    }
    proof {
        assert(entries@.skip(entries@.len() as int) =~= Seq::<RawModEntry>::empty());
        assert(bans@ =~= assemble_spec(entries@, since, moderators@).bans);
        assert(removals@ =~= assemble_spec(entries@, since, moderators@).removals);
    }
    ModlogActions { bans, removals }
}

/// The creator ids of the post removals no older than `since`, in order.
/// A post removal names its affected person only by id, so the person is
/// resolved before the entry can join the common pipeline.
pub open spec fn needed_creators_spec(posts: Seq<RawPostRemoval>, since: i64) -> Seq<i32>
    decreases posts.len(),
{
    if posts.len() == 0 {
        Seq::<i32>::empty()
    } else {
        let rest = needed_creators_spec(posts.drop_first(), since);
        if posts[0].when >= since {
            seq![posts[0].creator_id] + rest
        } else {
            rest
        }
    }
}

/// Lists the post creators the caller must resolve, in order, one per
/// post removal no older than `since`.
pub fn needed_creators(posts: &Vec<RawPostRemoval>, since: i64) -> (r: Vec<i32>)
    ensures
        r@ == needed_creators_spec(posts@, since),
{
    let mut r: Vec<i32> = Vec::new();
    let mut i: usize = 0;
    proof {
        assert(posts@.skip(0) =~= posts@);
        assert(r@ + needed_creators_spec(posts@, since) =~= needed_creators_spec(posts@, since));
    }
    while i < posts.len()
        invariant
            0 <= i <= posts@.len(),
            r@ + needed_creators_spec(posts@.skip(i as int), since) == needed_creators_spec(
                posts@,
                since,
            ),
        decreases posts@.len() - i,
    {
        proof {
            assert(posts@.skip(i as int).drop_first() =~= posts@.skip(i + 1 as int));
            assert(posts@.skip(i as int)[0] == posts@[i as int]);
        }
        if posts[i].when >= since {
            r.push(posts[i].creator_id);
            proof {
                assert(r@ + needed_creators_spec(posts@.skip(i + 1 as int), since)
                    =~= needed_creators_spec(posts@, since));
            }
        }
        i = i + 1;
    }
    proof {
        assert(posts@.skip(posts@.len() as int) =~= Seq::<RawPostRemoval>::empty());
        assert(r@ =~= needed_creators_spec(posts@, since));
    }
    r
}

/// The post removals no older than `since`, each paired in order with its
/// resolved creator, as entries of the common pipeline.
pub open spec fn attached_spec(posts: Seq<RawPostRemoval>, since: i64, creators: Seq<Person>) -> Seq<
    RawModEntry,
>
    decreases posts.len(),
{
    if posts.len() == 0 {
        Seq::<RawModEntry>::empty()
    } else {
        let p = posts[0];
        if p.when >= since {
            if creators.len() == 0 {
                Seq::<RawModEntry>::empty()
            } else {
                seq![
                    RawModEntry {
                        when: p.when,
                        moderator_id: p.moderator_id,
                        affected: creators[0],
                        detail: RawDetail::PostRemoval {
                            post: p.post,
                            is_removed: p.is_removed,
                            reason: p.reason,
                        },
                    },
                ] + attached_spec(posts.drop_first(), since, creators.drop_first())
            }
        } else {
            attached_spec(posts.drop_first(), since, creators)
        }
    }
}

/// Pairs each post removal no older than `since` with its resolved
/// creator, one creator per such removal in order.
pub fn attach_post_creators(posts: &Vec<RawPostRemoval>, since: i64, creators: &Vec<Person>) -> (r:
    Vec<RawModEntry>)
    requires
        creators@.len() == needed_creators_spec(posts@, since).len(),
    ensures
        r@ == attached_spec(posts@, since, creators@),
{
    let mut r: Vec<RawModEntry> = Vec::new();
    let clen: usize = creators.len();
    let mut i: usize = 0;
    let mut j: usize = 0;
    proof {
        assert(posts@.skip(0) =~= posts@);
        assert(creators@.skip(0) =~= creators@);
        assert(r@ + attached_spec(posts@, since, creators@) =~= attached_spec(
            posts@,
            since,
            creators@,
        ));
    }
    while i < posts.len()
        invariant
            0 <= i <= posts@.len(),
            0 <= j <= creators@.len(),
            clen == creators@.len(),
            creators@.len() - j == needed_creators_spec(posts@.skip(i as int), since).len(),
            r@ + attached_spec(posts@.skip(i as int), since, creators@.skip(j as int))
                == attached_spec(posts@, since, creators@),
        decreases posts@.len() - i,
    {
        proof {
            assert(posts@.skip(i as int).drop_first() =~= posts@.skip(i + 1 as int));
            assert(posts@.skip(i as int)[0] == posts@[i as int]);
        }
        let p = &posts[i];
        if p.when >= since {
            proof {
                assert(needed_creators_spec(posts@.skip(i as int), since).len() >= 1);
                assert(creators@.skip(j as int).drop_first() =~= creators@.skip(j + 1 as int));
                assert(creators@.skip(j as int)[0] == creators@[j as int]);
            }
            r.push(
                RawModEntry {
                    when: p.when,
                    moderator_id: p.moderator_id,
                    affected: creators[j].clone(),
                    detail: RawDetail::PostRemoval {
                        post: p.post.clone(),
                        is_removed: p.is_removed,
                        reason: clone_opt_string(&p.reason),
                    },
                },
            );
            j = j + 1;
            proof {
                assert(r@ + attached_spec(posts@.skip(i + 1 as int), since, creators@.skip(j as int))
                    =~= attached_spec(posts@, since, creators@));
            }
        }
        i = i + 1;
    }
    proof {
        assert(posts@.skip(posts@.len() as int) =~= Seq::<RawPostRemoval>::empty());
        assert(r@ =~= attached_spec(posts@, since, creators@));
    }
    r
}

/// A local ban to issue against a person, with the platform's ban
/// parameters.
pub struct BanRequest {
    pub person_id: i32,
    pub banned: bool,
    pub remove_content: Option<bool>,
    pub reason: Option<String>,
    pub expires: Option<i64>,
}

/// The mathematical shape of a ban request.
pub ghost struct BanRequestV {
    pub person_id: i32,
    pub banned: bool,
    pub remove_content: Option<bool>,
    pub reason: Option<Seq<char>>,
    pub expires: Option<i64>,
}

impl View for BanRequest {
    type V = BanRequestV;

    open spec fn view(&self) -> BanRequestV {
        BanRequestV {
            person_id: self.person_id,
            banned: self.banned,
            remove_content: self.remove_content,
            reason: match self.reason {
                Some(s) => Some(s@),
                None => None,
            },
            expires: self.expires,
        }
    }
}

/// One step of a moderation-log tick's plan: a notice to send, or a
/// federated ban to replay locally followed — only if the ban succeeded —
/// by its notices.
pub enum ModLogStep {
    Send(Notification),
    Replay { request: BanRequest, notices: Vec<Notification> },
}

/// The mathematical shape of a plan step.
pub ghost enum ModLogStepV {
    Send(NotificationV),
    Replay { request: BanRequestV, notices: Seq<NotificationV> },
}

impl View for ModLogStep {
    type V = ModLogStepV;

    open spec fn view(&self) -> ModLogStepV {
        match self {
            ModLogStep::Send(n) => ModLogStepV::Send(n@),
            ModLogStep::Replay { request, notices } => ModLogStepV::Replay {
                request: request@,
                notices: notifications_view(notices@),
            },
        }
    }
}

pub open spec fn steps_view(v: Seq<ModLogStep>) -> Seq<ModLogStepV> {
    v.map_values(|s: ModLogStep| s@)
}

/// True when the allowlist holds the hostname, character for character.
pub open spec fn contains_host(allowlist: Seq<String>, host: Seq<char>) -> bool {
    exists|i: int| 0 <= i < allowlist.len() && allowlist[i]@ == host
}

/// Decides allowlist membership: an exact, case-sensitive hostname match.
pub fn allowlist_contains(allowlist: &Vec<String>, host: &String) -> (r: bool)
    ensures
        r == contains_host(allowlist@, host@),
{
    let mut i: usize = 0;
    while i < allowlist.len()
        invariant
            0 <= i <= allowlist@.len(),
            forall|k: int| 0 <= k < i ==> allowlist@[k]@ != host@,
        decreases allowlist@.len() - i,
    {
        if allowlist[i] == *host {
            return true;
        }
        i = i + 1;
    }
    false
}

/// The synthesized reason a replayed ban carries.
pub open spec fn federated_reason_text(instance: Seq<char>) -> Seq<char> {
    "Federated ban from "@ + instance
}

/// The notice sent to admins when a replay is reported.
pub open spec fn federated_notice_text(b: ModlogBan) -> Seq<char> {
    "Federated ban:\r\n"@ + ban_text(b)
}

/// Whether a ban is replayed locally, and as what request. Only site bans
/// are replayed, only against local persons who are neither a current
/// admin nor the bot itself, and only when the issuing moderator's
/// instance hostname is an exact, case-sensitive allowlist entry — the
/// allowlist is the sole authorization boundary. The replay carries the
/// same ban flag and expiry and a synthesized reason naming the instance.
pub open spec fn federation_request(
    b: ModlogBan,
    admins: Seq<Person>,
    self_id: i32,
    allowlist: Seq<String>,
) -> Option<BanRequestV> {
    match b {
        ModlogBan::Site { moderator, user, is_banned, reason, expires } => {
            if user.is_local && !is_admin_spec(admins, user.id) && user.id != self_id
                && contains_host(allowlist, moderator.instance@) {
                Some(
                    BanRequestV {
                        person_id: user.id,
                        banned: is_banned,
                        remove_content: None,
                        reason: Some(federated_reason_text(moderator.instance@)),
                        expires,
                    },
                )
            } else {
                None
            }
        },
        ModlogBan::Community { .. } => None,
    }
}

/// The steps one surviving ban contributes: a notice to every admin when
/// ban notification is on, then — when an allowlist is configured and the
/// ban qualifies — its local replay, whose own notices go out only when
/// federated-ban notification is on.
pub open spec fn ban_steps(b: ModlogBan, admins: Seq<Person>, self_id: i32, cfg: ModLogConfig) -> Seq<
    ModLogStepV,
> {
    (if cfg.notify_bans {
        fan_out(admins, ban_text(b)).map_values(|n: NotificationV| ModLogStepV::Send(n))
    } else {
        Seq::<ModLogStepV>::empty()
    }) + (if cfg.allowlist_federated_actions@.len() > 0 {
        match federation_request(b, admins, self_id, cfg.allowlist_federated_actions@) {
            Some(req) => seq![
                ModLogStepV::Replay {
                    request: req,
                    notices: if cfg.notify_federated_bans {
                        fan_out(admins, federated_notice_text(b))
                    } else {
                        Seq::<NotificationV>::empty()
                    },
                },
            ],
            None => Seq::<ModLogStepV>::empty(),
        }
    } else {
        Seq::<ModLogStepV>::empty()
    })
}

pub open spec fn bans_steps(
    bans: Seq<ModlogBan>,
    admins: Seq<Person>,
    self_id: i32,
    cfg: ModLogConfig,
) -> Seq<ModLogStepV>
    decreases bans.len(),
{
    if bans.len() == 0 {
        Seq::<ModLogStepV>::empty()
    } else {
        ban_steps(bans[0], admins, self_id, cfg) + bans_steps(
            bans.drop_first(),
            admins,
            self_id,
            cfg,
        )
    }
}

pub open spec fn removals_steps(
    removals: Seq<ModlogRemoval>,
    admins: Seq<Person>,
    cfg: ModLogConfig,
) -> Seq<ModLogStepV>
    decreases removals.len(),
{
    if removals.len() == 0 {
        Seq::<ModLogStepV>::empty()
    } else {
        (if cfg.notify_removals {
            fan_out(admins, removal_text(removals[0])).map_values(
                |n: NotificationV| ModLogStepV::Send(n),
            )
        } else {
            Seq::<ModLogStepV>::empty()
        }) + removals_steps(removals.drop_first(), admins, cfg)
    }
}

/// The whole plan of one moderation-log tick: every ban's steps in order,
/// then every removal's notices.
pub open spec fn mod_log_plan_spec(
    bans: Seq<ModlogBan>,
    removals: Seq<ModlogRemoval>,
    admins: Seq<Person>,
    self_id: i32,
    cfg: ModLogConfig,
) -> Seq<ModLogStepV> {
    bans_steps(bans, admins, self_id, cfg) + removals_steps(removals, admins, cfg)
}

/// Fans `body` out to every admin as send steps.
fn send_steps(admins: &Vec<Person>, body: &String) -> (r: Vec<ModLogStep>)
    ensures
        steps_view(r@) == fan_out(admins@, body@).map_values(
            |n: NotificationV| ModLogStepV::Send(n),
        ),
{
    let mut r: Vec<ModLogStep> = Vec::new();
    let mut i: usize = 0;
    while i < admins.len()
        invariant
            0 <= i <= admins@.len(),
            steps_view(r@) == fan_out(admins@.take(i as int), body@).map_values(
                |n: NotificationV| ModLogStepV::Send(n),
            ),
        decreases admins@.len() - i,
    {
        let ghost r0 = r@;
        r.push(ModLogStep::Send(Notification { recipient_id: admins[i].id, body: body.clone() }));
        proof {
            let k = i as int;
            let note = NotificationV { recipient_id: admins@[k].id, body: body@ };
            assert(steps_view(r@) =~= steps_view(r0).push(ModLogStepV::Send(note)));
            assert(admins@.take(k + 1) =~= admins@.take(k).push(admins@[k]));
            assert(fan_out(admins@.take(k + 1), body@) =~= fan_out(admins@.take(k), body@).push(
                note,
            ));
            assert(fan_out(admins@.take(k + 1), body@).map_values(
                |n: NotificationV| ModLogStepV::Send(n),
            ) =~= fan_out(admins@.take(k), body@).map_values(
                |n: NotificationV| ModLogStepV::Send(n),
            ).push(ModLogStepV::Send(note)));
        }
        i = i + 1;
    }
    proof {
        assert(admins@.take(admins@.len() as int) =~= admins@);
    }
    r
}

/// The steps one surviving ban contributes to the tick's plan.
fn steps_for_ban(b: &ModlogBan, admins: &Vec<Person>, self_id: i32, cfg: &ModLogConfig) -> (r: Vec<
    ModLogStep,
>)
    ensures
        steps_view(r@) == ban_steps(*b, admins@, self_id, *cfg),
{
    let mut r: Vec<ModLogStep> = if cfg.notify_bans {
        let body = render_ban(b);
        send_steps(admins, &body)
    } else {
        Vec::new()
    };
    let ghost seg1 = steps_view(r@);
    proof {
        assert(seg1 =~= (if cfg.notify_bans {
            fan_out(admins@, ban_text(*b)).map_values(|n: NotificationV| ModLogStepV::Send(n))
        } else {
            Seq::<ModLogStepV>::empty()
        }));
    }
    if cfg.allowlist_federated_actions.len() > 0 {
        match b {
            ModlogBan::Site { moderator, user, is_banned, expires, .. } => {
                if user.is_local && !is_admin(admins, user.id) && user.id != self_id
                    && allowlist_contains(&cfg.allowlist_federated_actions, &moderator.instance) {
                    let mut reason = String::from_str("Federated ban from ");
                    reason.append(moderator.instance.as_str());
                    let request = BanRequest {
                        person_id: user.id,
                        banned: *is_banned,
                        remove_content: None,
                        reason: Some(reason),
                        expires: *expires,
                    };
                    let notices: Vec<Notification> = if cfg.notify_federated_bans {
                        let mut body = String::from_str("Federated ban:\r\n");
                        let rendered = render_ban(b);
                        body.append(rendered.as_str());
                        notification_plan(admins, &body)
                    } else {
                        Vec::new()
                    };
                    let ghost reqv = request@;
                    let ghost noticesv = notifications_view(notices@);
                    r.push(ModLogStep::Replay { request, notices });
                    proof {
                        assert(noticesv =~= (if cfg.notify_federated_bans {
                            fan_out(admins@, federated_notice_text(*b))
                        } else {
                            Seq::<NotificationV>::empty()
                        }));
                        assert(federation_request(
                            *b,
                            admins@,
                            self_id,
                            cfg.allowlist_federated_actions@,
                        ) == Some(reqv));
                        assert(steps_view(r@) =~= seg1.push(
                            ModLogStepV::Replay { request: reqv, notices: noticesv },
                        ));
                        assert(steps_view(r@) =~= ban_steps(*b, admins@, self_id, *cfg));
                    }
                } else {
                    proof {
                        assert(federation_request(
                            *b,
                            admins@,
                            self_id,
                            cfg.allowlist_federated_actions@,
                        ) is None);
                        assert(steps_view(r@) =~= ban_steps(*b, admins@, self_id, *cfg));
                    }
                }
            },
            ModlogBan::Community { .. } => {
                proof {
                    assert(steps_view(r@) =~= ban_steps(*b, admins@, self_id, *cfg));
                }
            },
        }
    } else {
        proof {
            assert(steps_view(r@) =~= ban_steps(*b, admins@, self_id, *cfg));
        }
    }
    r
}

/// Plans one moderation-log tick over the surviving actions, the current
/// admins, the bot's own id and the plugin's options.
pub fn plan_mod_log(
    actions: &ModlogActions,
    admins: &Vec<Person>,
    self_id: i32,
    cfg: &ModLogConfig,
) -> (r: Vec<ModLogStep>)
    ensures
        steps_view(r@) == mod_log_plan_spec(actions.bans@, actions.removals@, admins@, self_id, *cfg),
{
    let mut r: Vec<ModLogStep> = Vec::new();
    let mut i: usize = 0;
    proof {
        assert(actions.bans@.skip(0) =~= actions.bans@);
        assert(steps_view(r@) + bans_steps(actions.bans@, admins@, self_id, *cfg) =~= bans_steps(
            actions.bans@,
            admins@,
            self_id,
            *cfg,
        ));
    }
    while i < actions.bans.len()
        invariant
            0 <= i <= actions.bans@.len(),
            steps_view(r@) + bans_steps(actions.bans@.skip(i as int), admins@, self_id, *cfg)
                == bans_steps(actions.bans@, admins@, self_id, *cfg),
        decreases actions.bans@.len() - i,
    {
        proof {
            assert(actions.bans@.skip(i as int).drop_first() =~= actions.bans@.skip(i + 1 as int));
            assert(actions.bans@.skip(i as int)[0] == actions.bans@[i as int]);
        }
        let ghost r0 = r@;
        let mut steps = steps_for_ban(&actions.bans[i], admins, self_id, cfg);
        let ghost s0 = steps@;
        r.append(&mut steps);
        proof {
            assert(steps_view(r0 + s0) =~= steps_view(r0) + steps_view(s0));
            assert(steps_view(r@) + bans_steps(actions.bans@.skip(i + 1 as int), admins@, self_id, *cfg)
                =~= bans_steps(actions.bans@, admins@, self_id, *cfg));
        }
        i = i + 1;
    }
    let ghost all_ban_steps = steps_view(r@);
    proof {
        assert(actions.bans@.skip(actions.bans@.len() as int) =~= Seq::<ModlogBan>::empty());
        assert(all_ban_steps =~= bans_steps(actions.bans@, admins@, self_id, *cfg));
        assert(actions.removals@.skip(0) =~= actions.removals@);
    }
    let mut i: usize = 0;
    while i < actions.removals.len()
        invariant
            0 <= i <= actions.removals@.len(),
            steps_view(r@) == all_ban_steps + removals_steps(
                actions.removals@.take(i as int),
                admins@,
                *cfg,
            ),
            all_ban_steps + removals_steps(actions.removals@.take(i as int), admins@, *cfg)
                + removals_steps(actions.removals@.skip(i as int), admins@, *cfg) == all_ban_steps
                + removals_steps(actions.removals@, admins@, *cfg),
        decreases actions.removals@.len() - i,
    {
        proof {
            assert(actions.removals@.skip(i as int).drop_first() =~= actions.removals@.skip(
                i + 1 as int,
            ));
            assert(actions.removals@.skip(i as int)[0] == actions.removals@[i as int]);
            assert(actions.removals@.take(i + 1 as int) =~= actions.removals@.take(i as int).push(
                actions.removals@[i as int],
            ));
        }
        if cfg.notify_removals {
            let body = render_removal(&actions.removals[i]);
            let ghost r0 = r@;
            let mut steps = send_steps(admins, &body);
            let ghost s0 = steps@;
            r.append(&mut steps);
            proof {
                assert(steps_view(r0 + s0) =~= steps_view(r0) + steps_view(s0));
            }
        }
        proof {
            lemma_removals_steps_take_step(actions.removals@, admins@, *cfg, i as int);
            assert(steps_view(r@) =~= all_ban_steps + removals_steps(
                actions.removals@.take(i + 1 as int),
                admins@,
                *cfg,
            ));
        }
        i = i + 1;
    }
    proof {
        assert(actions.removals@.take(actions.removals@.len() as int) =~= actions.removals@);
        assert(steps_view(r@) =~= mod_log_plan_spec(
            actions.bans@,
            actions.removals@,
            admins@,
            self_id,
            *cfg,
        ));
    }
    r
}

/// The moderation-log plugin: its options and its last-run marker.
pub struct ModLog {
    pub config: ModLogConfig,
    pub last_run: i64,
}

impl ModLog {
    /// A fresh plugin whose marker starts at the given time; entries older
    /// than construction are never acted on.
    pub fn new_at(config: ModLogConfig, now: i64) -> (r: Self)
        ensures
            r.config == config,
            r.last_run == now,
    {
        ModLog { config, last_run: now }
    }

    /// A fresh plugin whose marker starts at the current wall-clock time.
    pub fn new(config: ModLogConfig) -> (r: Self)
        ensures
            r.config == config,
            r.last_run >= 0,
    {
        let now = now_seconds();
        ModLog { config, last_run: now }
    }

    /// Gates one tick at `now`. When the plugin is due, the marker is
    /// advanced to `now` before any processing, so a failing tick is not
    /// retried within the same interval; when it is not due, the plugin
    /// is left untouched and nothing else of the tick may happen.
    pub fn begin_tick_at(&mut self, now: i64) -> (r: bool)
        ensures
            r == crate::schedule::due_spec(
                old(self).config.enabled,
                old(self).config.interval,
                old(self).last_run,
                now,
            ),
            final(self).config == old(self).config,
            r ==> final(self).last_run == now,
            !r ==> final(self).last_run == old(self).last_run,
    {
        if crate::schedule::due(self.config.enabled, self.config.interval, self.last_run, now) {
            self.last_run = now;
            true
        } else {
            false
        }
    }

    /// Gates one tick at the current wall-clock time, returning the
    /// decision and the time that was read.
    pub fn begin_tick(&mut self) -> (r: (bool, i64))
        ensures
            r.0 == crate::schedule::due_spec(
                old(self).config.enabled,
                old(self).config.interval,
                old(self).last_run,
                r.1,
            ),
            final(self).config == old(self).config,
            r.0 ==> final(self).last_run == r.1,
            !r.0 ==> final(self).last_run == old(self).last_run,
            r.1 >= 0,
    {
        let now = now_seconds();
        let run = self.begin_tick_at(now);
        (run, now)
    }
}

/// A moderation-log entry older than the capture point is not acted on:
/// removing it changes neither the moderators to resolve nor the actions
/// assembled. An entry stamped exactly at the capture point is included.
pub proof fn lemma_stale_entry_excluded(
    entries: Seq<RawModEntry>,
    since: i64,
    mods: Seq<Person>,
    i: int,
)
    requires
        0 <= i < entries.len(),
        entries[i].when < since,
    ensures
        needed_moderators_spec(entries, since) == needed_moderators_spec(
            entries.remove(i),
            since,
        ),
        assemble_spec(entries, since, mods) == assemble_spec(entries.remove(i), since, mods),
    decreases entries.len(),
{
    if i == 0 {
        assert(entries.remove(0) =~= entries.drop_first());
    } else {
        let rest = entries.drop_first();
        assert(entries.remove(i).drop_first() =~= rest.remove(i - 1));
        assert(entries.remove(i)[0] == entries[0]);
        assert(rest[i - 1] == entries[i]);
        if entry_selected(entries[0], since) {
            if mods.len() == 0 {
                lemma_stale_entry_excluded(rest, since, mods, i - 1);
            } else {
                lemma_stale_entry_excluded(rest, since, mods.drop_first(), i - 1);
                lemma_stale_entry_excluded(rest, since, mods, i - 1);
            }
        } else {
            lemma_stale_entry_excluded(rest, since, mods, i - 1);
        }
    }
}

/// Every assembled action affects a local person and was issued by a
/// non-local moderator: an action against a remote person, or issued by
/// a local moderator, survives neither into notification nor into replay.
pub proof fn lemma_actions_local_user_remote_mod(
    entries: Seq<RawModEntry>,
    since: i64,
    mods: Seq<Person>,
)
    ensures
        forall|k: int|
            0 <= k < assemble_spec(entries, since, mods).bans.len() ==> {
                let b = #[trigger] assemble_spec(entries, since, mods).bans[k];
                crate::model::ban_user(b).is_local && !crate::model::ban_moderator(b).is_local
            },
        forall|k: int|
            0 <= k < assemble_spec(entries, since, mods).removals.len() ==> {
                let a = #[trigger] assemble_spec(entries, since, mods).removals[k];
                crate::model::removal_user(a).is_local && !crate::model::removal_moderator(
                    a,
                ).is_local
            },
    decreases entries.len(),
{
    if entries.len() > 0 {
        let e = entries[0];
        if entry_selected(e, since) {
            if mods.len() > 0 {
                lemma_actions_local_user_remote_mod(entries.drop_first(), since, mods.drop_first());
            }
        } else {
            lemma_actions_local_user_remote_mod(entries.drop_first(), since, mods);
        }
    }
}

/// Every assembled action is no older than the capture point.
pub proof fn lemma_actions_fresh(entries: Seq<RawModEntry>, since: i64, mods: Seq<Person>)
    ensures
        forall|k: int|
            0 <= k < entries.len() && #[trigger] entries[k].when < since ==> assemble_spec(
                entries,
                since,
                mods,
            ) == assemble_spec(entries.remove(k), since, mods),
{
    assert forall|k: int|
        0 <= k < entries.len() && #[trigger] entries[k].when < since implies assemble_spec(
        entries,
        since,
        mods,
    ) == assemble_spec(entries.remove(k), since, mods) by {
        lemma_stale_entry_excluded(entries, since, mods, k);
    }
}

/// Federation replay never targets a current admin or the bot's own
/// account, whatever the allowlist holds.
pub proof fn lemma_replay_spares_admins_and_self(
    b: ModlogBan,
    admins: Seq<Person>,
    self_id: i32,
    allowlist: Seq<String>,
)
    ensures
        federation_request(b, admins, self_id, allowlist) matches Some(req) ==> !is_admin_spec(
            admins,
            req.person_id,
        ) && req.person_id != self_id,
{
}

/// For a site ban against a local person who is neither an admin nor the
/// bot itself, replay triggers exactly when the moderator's instance
/// hostname is an exact, case-sensitive member of the allowlist — and the
/// replayed request then carries the target, the same ban flag and expiry,
/// and the synthesized reason naming the moderator's instance.
pub proof fn lemma_replay_iff_allowlisted(
    moderator: Person,
    user: Person,
    is_banned: bool,
    reason: Option<String>,
    expires: Option<i64>,
    admins: Seq<Person>,
    self_id: i32,
    allowlist: Seq<String>,
)
    requires
        user.is_local,
        !is_admin_spec(admins, user.id),
        user.id != self_id,
    ensures
        ({
            let b = ModlogBan::Site { moderator, user, is_banned, reason, expires };
            federation_request(b, admins, self_id, allowlist) == (if contains_host(
                allowlist,
                moderator.instance@,
            ) {
                Some(
                    BanRequestV {
                        person_id: user.id,
                        banned: is_banned,
                        remove_content: None,
                        reason: Some(federated_reason_text(moderator.instance@)),
                        expires,
                    },
                )
            } else {
                None::<BanRequestV>
            })
        }),
{
}

/// With no allowlist configured, a tick's plan replays nothing: every
/// step is a notice.
pub proof fn lemma_no_allowlist_no_replay(
    bans: Seq<ModlogBan>,
    removals: Seq<ModlogRemoval>,
    admins: Seq<Person>,
    self_id: i32,
    cfg: ModLogConfig,
)
    requires
        cfg.allowlist_federated_actions@.len() == 0,
    ensures
        forall|k: int|
            0 <= k < mod_log_plan_spec(bans, removals, admins, self_id, cfg).len()
                ==> #[trigger] mod_log_plan_spec(bans, removals, admins, self_id, cfg)[k] matches ModLogStepV::Send(_),
{
    lemma_bans_steps_all_send(bans, admins, self_id, cfg);
    lemma_removals_steps_all_send(removals, admins, cfg);
}

proof fn lemma_bans_steps_all_send(
    bans: Seq<ModlogBan>,
    admins: Seq<Person>,
    self_id: i32,
    cfg: ModLogConfig,
)
    requires
        cfg.allowlist_federated_actions@.len() == 0,
    ensures
        forall|k: int|
            0 <= k < bans_steps(bans, admins, self_id, cfg).len() ==> #[trigger] bans_steps(
                bans,
                admins,
                self_id,
                cfg,
            )[k] matches ModLogStepV::Send(_),
    decreases bans.len(),
{
    if bans.len() > 0 {
        lemma_bans_steps_all_send(bans.drop_first(), admins, self_id, cfg);
    }
}

proof fn lemma_removals_steps_all_send(
    removals: Seq<ModlogRemoval>,
    admins: Seq<Person>,
    cfg: ModLogConfig,
)
    ensures
        forall|k: int|
            0 <= k < removals_steps(removals, admins, cfg).len() ==> #[trigger] removals_steps(
                removals,
                admins,
                cfg,
            )[k] matches ModLogStepV::Send(_),
    decreases removals.len(),
{
    if removals.len() > 0 {
        lemma_removals_steps_all_send(removals.drop_first(), admins, cfg);
    }
}

/// With every notification option off and no allowlist, a tick's plan is
/// empty: nothing is sent and nothing is replayed.
pub proof fn lemma_all_off_plan_empty(
    bans: Seq<ModlogBan>,
    removals: Seq<ModlogRemoval>,
    admins: Seq<Person>,
    self_id: i32,
    cfg: ModLogConfig,
)
    requires
        !cfg.notify_bans,
        !cfg.notify_federated_bans,
        !cfg.notify_removals,
        cfg.allowlist_federated_actions@.len() == 0,
    ensures
        mod_log_plan_spec(bans, removals, admins, self_id, cfg) == Seq::<ModLogStepV>::empty(),
    decreases bans.len() + removals.len(),
{
    if bans.len() > 0 {
        lemma_all_off_plan_empty(bans.drop_first(), removals, admins, self_id, cfg);
        assert(ban_steps(bans[0], admins, self_id, cfg) =~= Seq::<ModLogStepV>::empty());
        assert(mod_log_plan_spec(bans, removals, admins, self_id, cfg) =~= Seq::<
            ModLogStepV,
        >::empty());
    } else if removals.len() > 0 {
        lemma_all_off_plan_empty(bans, removals.drop_first(), admins, self_id, cfg);
        assert(mod_log_plan_spec(bans, removals, admins, self_id, cfg) =~= Seq::<
            ModLogStepV,
        >::empty());
    } else {
        assert(mod_log_plan_spec(bans, removals, admins, self_id, cfg) =~= Seq::<
            ModLogStepV,
        >::empty());
    }
}

/// Community bans are never replayed.
pub proof fn lemma_community_bans_not_replayed(
    b: ModlogBan,
    admins: Seq<Person>,
    self_id: i32,
    allowlist: Seq<String>,
)
    requires
        b matches ModlogBan::Community { .. },
    ensures
        federation_request(b, admins, self_id, allowlist) is None,
{
}

proof fn lemma_removals_steps_take_step(
    removals: Seq<ModlogRemoval>,
    admins: Seq<Person>,
    cfg: ModLogConfig,
    i: int,
)
    requires
        0 <= i < removals.len(),
    ensures
        removals_steps(removals.take(i + 1), admins, cfg) == removals_steps(
            removals.take(i),
            admins,
            cfg,
        ) + (if cfg.notify_removals {
            fan_out(admins, removal_text(removals[i])).map_values(
                |n: NotificationV| ModLogStepV::Send(n),
            )
        } else {
            Seq::<ModLogStepV>::empty()
        }),
    decreases i,
{
    if i == 0 {
        assert(removals.take(1).drop_first() =~= Seq::<ModlogRemoval>::empty());
        assert(removals.take(0) =~= Seq::<ModlogRemoval>::empty());
        assert(removals_steps(removals.take(1), admins, cfg) =~= removals_steps(
            removals.take(0),
            admins,
            cfg,
        ) + (if cfg.notify_removals {
            fan_out(admins, removal_text(removals[0])).map_values(
                |n: NotificationV| ModLogStepV::Send(n),
            )
        } else {
            Seq::<ModLogStepV>::empty()
        }));
    } else {
        lemma_removals_steps_take_step(removals.drop_first(), admins, cfg, i - 1);
        assert(removals.take(i + 1).drop_first() =~= removals.drop_first().take(i));
        assert(removals.take(i).drop_first() =~= removals.drop_first().take(i - 1));
        assert(removals.drop_first()[i - 1] == removals[i]);
    }
}

} // verus!

