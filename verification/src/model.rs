//! Data model of the moderation engine: persons, communities, content
//! projections, private messages, moderation-log actions and the
//! authentication record, all held as plain values.

use vstd::prelude::*;

verus! {

/// A platform account, normalized from a platform person record.
/// `is_local` discriminates accounts of this deployment's own instance
/// from federated (remote) accounts.
pub struct Person {
    pub id: i32,
    pub name: String,
    pub instance: String,
    pub url: String,
    pub is_local: bool,
}

impl Clone for Person {
    fn clone(&self) -> (r: Self)
        ensures
            r == *self,
    {
        Person {
            id: self.id,
            name: self.name.clone(),
            instance: self.instance.clone(),
            url: self.url.clone(),
            is_local: self.is_local,
        }
    }
}

/// Federation context of a community-scoped ban.
pub struct Community {
    pub name: String,
    pub instance: String,
    pub url: String,
}

impl Clone for Community {
    fn clone(&self) -> (r: Self)
        ensures
            r == *self,
    {
        Community {
            name: self.name.clone(),
            instance: self.instance.clone(),
            url: self.url.clone(),
        }
    }
}

/// Minimal projection of a comment, used only for display.
pub struct Comment {
    pub id: i32,
    pub content: String,
    pub url: String,
}

impl Clone for Comment {
    fn clone(&self) -> (r: Self)
        ensures
            r == *self,
    {
        Comment { id: self.id, content: self.content.clone(), url: self.url.clone() }
    }
}

/// Minimal projection of a post, used only for display.
pub struct Post {
    pub id: i32,
    pub name: String,
    pub url: String,
}

impl Clone for Post {
    fn clone(&self) -> (r: Self)
        ensures
            r == *self,
    {
        Post { id: self.id, name: self.name.clone(), url: self.url.clone() }
    }
}

/// A private message, snapshot of one inbox or outbox entry.
/// `created` is a Unix timestamp in seconds.
pub struct PrivateMessage {
    pub id: i32,
    pub sender_id: i32,
    pub content: String,
    pub created: i64,
}

impl Clone for PrivateMessage {
    fn clone(&self) -> (r: Self)
        ensures
            r == *self,
    {
        PrivateMessage {
            id: self.id,
            sender_id: self.sender_id,
            content: self.content.clone(),
            created: self.created,
        }
    }
}

/// The bearer token and account id of the bot, immutable after login.
pub struct Authentication {
    pub jwt: String,
    pub user_id: i32,
}

impl Authentication {
    pub fn new(jwt: String, user_id: i32) -> (r: Self)
        ensures
            r.jwt == jwt,
            r.user_id == user_id,
    {
        Authentication { jwt, user_id }
    }

    pub fn empty() -> (r: Self)
        ensures
            r.jwt@ == Seq::<char>::empty(),
            r.user_id == -1,
    {
        Authentication { jwt: String::new(), user_id: -1 }
    }
}

/// A failed platform operation: the operation's path and a message.
pub struct ClientError {
    pub path: String,
    pub message: String,
}

impl ClientError {
    pub fn new(path: &str, message: String) -> (r: Self)
        ensures
            r.path@ == path@,
            r.message == message,
    {
        ClientError { path: String::from_str(path), message }
    }
}

impl Clone for ClientError {
    fn clone(&self) -> (r: Self)
        ensures
            r == *self,
    {
        ClientError { path: self.path.clone(), message: self.message.clone() }
    }
}

/// A way to refer to a person in a lookup: by id or by username.
pub enum PersonRef {
    Id(i32),
    Username(String),
}

/// One moderation-log ban entry, correlated with the resolved moderator
/// and affected person. `expires` is a Unix timestamp in seconds.
pub enum ModlogBan {
    Site {
        moderator: Person,
        user: Person,
        is_banned: bool,
        reason: Option<String>,
        expires: Option<i64>,
    },
    Community {
        moderator: Person,
        user: Person,
        community: Community,
        is_banned: bool,
        reason: Option<String>,
        expires: Option<i64>,
    },
}

/// One moderation-log removal entry, comment or post.
pub enum ModlogRemoval {
    Comment(ModlogCommentRemoval),
    Post(ModlogPostRemoval),
}

/// A comment removal with its resolved moderator and author.
pub struct ModlogCommentRemoval {
    pub moderator: Person,
    pub user: Person,
    pub comment: Comment,
    pub is_removed: bool,
    pub reason: Option<String>,
}

/// A post removal with its resolved moderator and author.
pub struct ModlogPostRemoval {
    pub moderator: Person,
    pub user: Person,
    pub post: Post,
    pub is_removed: bool,
    pub reason: Option<String>,
}

/// The surviving moderation-log actions of one tick, bans and removals
/// kept separate.
pub struct ModlogActions {
    pub bans: Vec<ModlogBan>,
    pub removals: Vec<ModlogRemoval>,
}

impl ModlogActions {
    pub fn new() -> (r: Self)
        ensures
            r.bans@ == Seq::<ModlogBan>::empty(),
            r.removals@ == Seq::<ModlogRemoval>::empty(),
    {
        ModlogActions { bans: Vec::new(), removals: Vec::new() }
    }
}

/// The person a ban affects.
pub open spec fn ban_user(b: ModlogBan) -> Person {
    match b {
        ModlogBan::Site { user, .. } => user,
        ModlogBan::Community { user, .. } => user,
    }
}

/// The moderator who issued a ban.
pub open spec fn ban_moderator(b: ModlogBan) -> Person {
    match b {
        ModlogBan::Site { moderator, .. } => moderator,
        ModlogBan::Community { moderator, .. } => moderator,
    }
}

/// The person a removal affects.
pub open spec fn removal_user(r: ModlogRemoval) -> Person {
    match r {
        ModlogRemoval::Comment(a) => a.user,
        ModlogRemoval::Post(a) => a.user,
    }
}

/// The moderator who issued a removal.
pub open spec fn removal_moderator(r: ModlogRemoval) -> Person {
    match r {
        ModlogRemoval::Comment(a) => a.moderator,
        ModlogRemoval::Post(a) => a.moderator,
    }
}

/// True when `admins` holds a person with the given id.
pub open spec fn is_admin_spec(admins: Seq<Person>, id: i32) -> bool {
    exists|i: int| 0 <= i < admins.len() && admins[i].id == id
}

/// Decides whether `id` belongs to a current admin. The check is made
/// against the admin list fetched in the same tick, never a cached one.
pub fn is_admin(admins: &Vec<Person>, id: i32) -> (r: bool)
    ensures
        r == is_admin_spec(admins@, id),
{
    let mut i: usize = 0;
    while i < admins.len()
        invariant
            0 <= i <= admins@.len(),
            forall|j: int| 0 <= j < i ==> admins@[j].id != id,
        decreases admins@.len() - i,
    {
        if admins[i].id == id {
            return true;
        }
        i = i + 1;
    }
    false
}

} // verus!
