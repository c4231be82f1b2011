//! Rendering of persons, content and moderation-log actions to the
//! human-readable notices sent to administrators. Every renderer's result
//! is pinned character for character by a spec function.

use vstd::prelude::*;

use crate::model::Comment;
use crate::model::Community;
use crate::model::ModlogBan;
use crate::model::ModlogCommentRemoval;
use crate::model::ModlogPostRemoval;
use crate::model::ModlogRemoval;
use crate::model::Person;
use crate::model::ClientError;

verus! {

/// The RFC 3339 rendering of a Unix timestamp in UTC, or nothing where
/// the timestamp lies outside the representable date range.
pub uninterp spec fn rfc3339_of(ts: int) -> Option<Seq<char>>;

/// Relies on chrono::DateTime::from_timestamp (with zero nanoseconds) and
/// chrono::DateTime::to_rfc3339: the RFC 3339 text of a Unix timestamp,
/// a function of the timestamp alone, and nothing for the timestamps whose
/// date falls outside chrono's range.
#[verifier::external_body]
fn rfc3339_utc(secs: i64) -> (r: Option<String>)
    ensures
        r is None <==> rfc3339_of(secs as int) is None,
        r matches Some(s) ==> rfc3339_of(secs as int) matches Some(v) && s@ == v,
{
    match chrono::DateTime::<chrono::Utc>::from_timestamp(secs, 0) {
        Some(d) => Some(d.to_rfc3339()),
        None => None,
    }
}

/// "true" or "false".
pub open spec fn bool_text(b: bool) -> Seq<char> {
    if b {
        "true"@
    } else {
        "false"@
    }
}

pub fn bool_str(b: bool) -> (r: &'static str)
    ensures
        r@ == bool_text(b),
{
    if b {
        "true"
    } else {
        "false"
    }
}

/// An optional free-text reason; absent reasons render as empty text.
pub open spec fn reason_text(r: Option<String>) -> Seq<char> {
    match r {
        Some(s) => s@,
        None => Seq::<char>::empty(),
    }
}

/// An optional expiry timestamp: its RFC 3339 text, or "N/A" where it is
/// absent or unrepresentable.
pub open spec fn expires_text(e: Option<i64>) -> Seq<char> {
    match e {
        Some(ts) => match rfc3339_of(ts as int) {
            Some(v) => v,
            None => "N/A"@,
        },
        None => "N/A"@,
    }
}

pub fn render_expires(e: &Option<i64>) -> (r: String)
    ensures
        r@ == expires_text(*e),
{
    match e {
        Some(ts) => match rfc3339_utc(*ts) {
            Some(s) => s,
            None => String::from_str("N/A"),
        },
        None => String::from_str("N/A"),
    }
}

/// A person as "[name@instance](profile-url)".
pub open spec fn person_text(p: Person) -> Seq<char> {
    "["@ + p.name@ + "@"@ + p.instance@ + "]("@ + p.url@ + ")"@
}

pub fn render_person(p: &Person) -> (r: String)
    ensures
        r@ == person_text(*p),
{
    let mut s = String::from_str("[");
    s.append(p.name.as_str());
    s.append("@");
    s.append(p.instance.as_str());
    s.append("](");
    s.append(p.url.as_str());
    s.append(")");
    proof {
        assert(s@ =~= person_text(*p));
    }
    s
}

/// A community as "[name@instance](community-url)".
pub open spec fn community_text(c: Community) -> Seq<char> {
    "["@ + c.name@ + "@"@ + c.instance@ + "]("@ + c.url@ + ")"@
}

pub fn render_community(c: &Community) -> (r: String)
    ensures
        r@ == community_text(*c),
{
    let mut s = String::from_str("[");
    s.append(c.name.as_str());
    s.append("@");
    s.append(c.instance.as_str());
    s.append("](");
    s.append(c.url.as_str());
    s.append(")");
    proof {
        assert(s@ =~= community_text(*c));
    }
    s
}

/// A moderation-log ban entry as a multi-line notice.
pub open spec fn ban_text(b: ModlogBan) -> Seq<char> {
    match b {
        ModlogBan::Site { moderator, user, is_banned, reason, expires } => "* site_ban = `"@
            + bool_text(is_banned) + "`\r\n* user = "@ + person_text(user) + "\r\n* mod = "@
            + person_text(moderator) + "\r\n* reason = `"@ + reason_text(reason)
            + "`\r\n* expires = `"@ + expires_text(expires) + "`"@,
        ModlogBan::Community { moderator, user, community, is_banned, reason, expires } => {
            "* community_ban = `"@ + bool_text(is_banned) + "`\r\n* user = "@ + person_text(user)
                + "\r\n* community = "@ + community_text(community) + "\r\n* mod = "@ + person_text(
                moderator,
            ) + "\r\n* reason = `"@ + reason_text(reason) + "`\r\n* expires = `"@ + expires_text(
                expires,
            ) + "`"@
        },
    }
}

fn append_reason(s: &mut String, reason: &Option<String>)
    ensures
        final(s)@ == old(s)@ + reason_text(*reason),
{
    match reason {
        Some(r) => s.append(r.as_str()),
        None => {
            proof {
                assert(s@ =~= s@ + reason_text(None::<String>));
            }
        },
    }
}

pub fn render_ban(b: &ModlogBan) -> (r: String)
    ensures
        r@ == ban_text(*b),
{
    match b {
        ModlogBan::Site { moderator, user, is_banned, reason, expires } => {
            let mut s = String::from_str("* site_ban = `");
            s.append(bool_str(*is_banned));
            s.append("`\r\n* user = ");
            let pu = render_person(user);
            s.append(pu.as_str());
            s.append("\r\n* mod = ");
            let pm = render_person(moderator);
            s.append(pm.as_str());
            s.append("\r\n* reason = `");
            append_reason(&mut s, reason);
            s.append("`\r\n* expires = `");
            let ex = render_expires(expires);
            s.append(ex.as_str());
            s.append("`");
            proof {
                assert(s@ =~= ban_text(*b));
            }
            s
        },
        ModlogBan::Community { moderator, user, community, is_banned, reason, expires } => {
            let mut s = String::from_str("* community_ban = `");
            s.append(bool_str(*is_banned));
            s.append("`\r\n* user = ");
            let pu = render_person(user);
            s.append(pu.as_str());
            s.append("\r\n* community = ");
            let co = render_community(community);
            s.append(co.as_str());
            s.append("\r\n* mod = ");
            let pm = render_person(moderator);
            s.append(pm.as_str());
            s.append("\r\n* reason = `");
            append_reason(&mut s, reason);
            s.append("`\r\n* expires = `");
            let ex = render_expires(expires);
            s.append(ex.as_str());
            s.append("`");
            proof {
                assert(s@ =~= ban_text(*b));
            }
            s
        },
    }
}

/// A comment removal as a multi-line notice; the comment stands as its URL.
pub open spec fn comment_removal_text(a: ModlogCommentRemoval) -> Seq<char> {
    "* comment_removed = `"@ + bool_text(a.is_removed) + "`\r\n* user = "@ + person_text(a.user)
        + "\r\n* comment = "@ + a.comment.url@ + "\r\n* mod = "@ + person_text(a.moderator)
        + "\r\n* reason = `"@ + reason_text(a.reason) + "`"@
}

pub fn render_comment_removal(a: &ModlogCommentRemoval) -> (r: String)
    ensures
        r@ == comment_removal_text(*a),
{
    let mut s = String::from_str("* comment_removed = `");
    s.append(bool_str(a.is_removed));
    s.append("`\r\n* user = ");
    let pu = render_person(&a.user);
    s.append(pu.as_str());
    s.append("\r\n* comment = ");
    s.append(a.comment.url.as_str());
    s.append("\r\n* mod = ");
    let pm = render_person(&a.moderator);
    s.append(pm.as_str());
    s.append("\r\n* reason = `");
    append_reason(&mut s, &a.reason);
    s.append("`");
    proof {
        assert(s@ =~= comment_removal_text(*a));
    }
    s
}

/// A post removal as a multi-line notice; the post stands as its URL.
pub open spec fn post_removal_text(a: ModlogPostRemoval) -> Seq<char> {
    "* post_removed = `"@ + bool_text(a.is_removed) + "`\r\n* user = "@ + person_text(a.user)
        + "\r\n* post = "@ + a.post.url@ + "\r\n* mod = "@ + person_text(a.moderator)
        + "\r\n* reason = `"@ + reason_text(a.reason) + "`"@
}

pub fn render_post_removal(a: &ModlogPostRemoval) -> (r: String)
    ensures
        r@ == post_removal_text(*a),
{
    let mut s = String::from_str("* post_removed = `");
    s.append(bool_str(a.is_removed));
    s.append("`\r\n* user = ");
    let pu = render_person(&a.user);
    s.append(pu.as_str());
    s.append("\r\n* post = ");
    s.append(a.post.url.as_str());
    s.append("\r\n* mod = ");
    let pm = render_person(&a.moderator);
    s.append(pm.as_str());
    s.append("\r\n* reason = `");
    append_reason(&mut s, &a.reason);
    s.append("`");
    proof {
        assert(s@ =~= post_removal_text(*a));
    }
    s
}

/// A removal of either kind.
pub open spec fn removal_text(r: ModlogRemoval) -> Seq<char> {
    match r {
        ModlogRemoval::Comment(a) => comment_removal_text(a),
        ModlogRemoval::Post(a) => post_removal_text(a),
    }
}

pub fn render_removal(r: &ModlogRemoval) -> (s: String)
    ensures
        s@ == removal_text(*r),
{
    match r {
        ModlogRemoval::Comment(a) => render_comment_removal(a),
        ModlogRemoval::Post(a) => render_post_removal(a),
    }
}

/// A failed platform operation as plain text.
pub open spec fn client_error_text(e: ClientError) -> Seq<char> {
    "Lemmy Client Error, path: '"@ + e.path@ + "', error: '"@ + e.message@ + "'"@
}

pub fn render_client_error(e: &ClientError) -> (r: String)
    ensures
        r@ == client_error_text(*e),
{
    let mut s = String::from_str("Lemmy Client Error, path: '");
    s.append(e.path.as_str());
    s.append("', error: '");
    s.append(e.message.as_str());
    s.append("'");
    proof {
        assert(s@ =~= client_error_text(*e));
    }
    s
}

} // verus!
