use automod::model::ClientError;
use automod::model::Comment;
use automod::model::Community;
use automod::model::ModlogBan;
use automod::model::ModlogCommentRemoval;
use automod::model::ModlogPostRemoval;
use automod::model::ModlogRemoval;
use automod::model::Person;
use automod::render::render_ban;
use automod::render::render_client_error;
use automod::render::render_community;
use automod::render::render_expires;
use automod::render::render_person;
use automod::render::render_removal;

fn person(id: i32, name: &str, instance: &str, is_local: bool) -> Person {
    Person {
        id,
        name: String::from(name),
        instance: String::from(instance),
        url: format!("https://{instance}/u/{name}"),
        is_local,
    }
}

#[test]
fn person_rendering() {
    let p = person(1, "alice", "local.example", true);
    assert_eq!(render_person(&p), "[alice@local.example](https://local.example/u/alice)");
}

#[test]
fn community_rendering() {
    let c = Community {
        name: String::from("news"),
        instance: String::from("far.example"),
        url: String::from("https://far.example/c/news"),
    };
    assert_eq!(render_community(&c), "[news@far.example](https://far.example/c/news)");
}

#[test]
fn expires_rendering() {
    assert_eq!(render_expires(&None), "N/A");
    assert_eq!(render_expires(&Some(1)), "1970-01-01T00:00:01+00:00");
    assert_eq!(render_expires(&Some(0)), "1970-01-01T00:00:00+00:00");
    // outside chrono's representable date range
    assert_eq!(render_expires(&Some(i64::MAX)), "N/A");
    assert_eq!(render_expires(&Some(i64::MIN)), "N/A");
}

#[test]
fn site_ban_rendering_exact() {
    let b = ModlogBan::Site {
        moderator: person(9, "mod", "other.example", false),
        user: person(3, "alice", "local.example", true),
        is_banned: true,
        reason: Some(String::from("spam")),
        expires: Some(1),
    };
    assert_eq!(
        render_ban(&b),
        "* site_ban = `true`\r\n\
         * user = [alice@local.example](https://local.example/u/alice)\r\n\
         * mod = [mod@other.example](https://other.example/u/mod)\r\n\
         * reason = `spam`\r\n\
         * expires = `1970-01-01T00:00:01+00:00`"
    );
}

#[test]
fn site_ban_rendering_defaults() {
    let b = ModlogBan::Site {
        moderator: person(9, "mod", "other.example", false),
        user: person(3, "alice", "local.example", true),
        is_banned: false,
        reason: None,
        expires: None,
    };
    assert_eq!(
        render_ban(&b),
        "* site_ban = `false`\r\n\
         * user = [alice@local.example](https://local.example/u/alice)\r\n\
         * mod = [mod@other.example](https://other.example/u/mod)\r\n\
         * reason = ``\r\n\
         * expires = `N/A`"
    );
}

#[test]
fn community_ban_rendering_exact() {
    let b = ModlogBan::Community {
        moderator: person(9, "mod", "other.example", false),
        user: person(3, "bob", "local.example", true),
        community: Community {
            name: String::from("news"),
            instance: String::from("far.example"),
            url: String::from("https://far.example/c/news"),
        },
        is_banned: true,
        reason: Some(String::from("rule 2")),
        expires: None,
    };
    assert_eq!(
        render_ban(&b),
        "* community_ban = `true`\r\n\
         * user = [bob@local.example](https://local.example/u/bob)\r\n\
         * community = [news@far.example](https://far.example/c/news)\r\n\
         * mod = [mod@other.example](https://other.example/u/mod)\r\n\
         * reason = `rule 2`\r\n\
         * expires = `N/A`"
    );
}

#[test]
fn comment_removal_rendering_exact() {
    let r = ModlogRemoval::Comment(ModlogCommentRemoval {
        moderator: person(9, "mod", "other.example", false),
        user: person(3, "alice", "local.example", true),
        comment: Comment {
            id: 7,
            content: String::from("hi"),
            url: String::from("https://local.example/comment/7"),
        },
        is_removed: true,
        reason: Some(String::from("off topic")),
    });
    assert_eq!(
        render_removal(&r),
        "* comment_removed = `true`\r\n\
         * user = [alice@local.example](https://local.example/u/alice)\r\n\
         * comment = https://local.example/comment/7\r\n\
         * mod = [mod@other.example](https://other.example/u/mod)\r\n\
         * reason = `off topic`"
    );
}

#[test]
fn post_removal_rendering_exact() {
    let r = ModlogRemoval::Post(ModlogPostRemoval {
        moderator: person(9, "mod", "other.example", false),
        user: person(3, "alice", "local.example", true),
        post: automod::model::Post {
            id: 8,
            name: String::from("title"),
            url: String::from("https://local.example/post/8"),
        },
        is_removed: false,
        reason: None,
    });
    assert_eq!(
        render_removal(&r),
        "* post_removed = `false`\r\n\
         * user = [alice@local.example](https://local.example/u/alice)\r\n\
         * post = https://local.example/post/8\r\n\
         * mod = [mod@other.example](https://other.example/u/mod)\r\n\
         * reason = ``"
    );
}

#[test]
fn client_error_rendering_exact() {
    let e = ClientError::new("/api/v3/user", String::from("404 Not Found"));
    assert_eq!(
        render_client_error(&e),
        "Lemmy Client Error, path: '/api/v3/user', error: '404 Not Found'"
    );
}
