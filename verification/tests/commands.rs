use automod::commands::Commands;
use automod::commands::trim_spaces;

fn parts(cmd: &Commands) -> (&str, &str, &str) {
    match cmd {
        Commands::SiteBan(u, r) => ("site_ban", u.as_str(), r.as_str()),
        Commands::SiteBanRemove(u, r) => ("site_ban_remove", u.as_str(), r.as_str()),
        Commands::PurgeUser(u, r) => ("purge_user", u.as_str(), r.as_str()),
    }
}

#[test]
fn parse_site_ban() {
    let cmd = Commands::parse("!site_ban alice spamming forever").unwrap();
    assert_eq!(parts(&cmd), ("site_ban", "alice", "spamming forever"));
}

#[test]
fn parse_purge_user() {
    let cmd = Commands::parse("!purge_user bob repeated spam posts").unwrap();
    assert_eq!(parts(&cmd), ("purge_user", "bob", "repeated spam posts"));
}

#[test]
fn parse_site_ban_remove() {
    let cmd = Commands::parse("!site_ban_remove carol cleanup").unwrap();
    assert_eq!(parts(&cmd), ("site_ban_remove", "carol", "cleanup"));
}

#[test]
fn parse_no_args_fails() {
    assert!(Commands::parse("!purge_user").is_none());
}

#[test]
fn parse_one_arg_fails() {
    assert!(Commands::parse("!site_ban alice").is_none());
}

#[test]
fn parse_no_prefix_fails() {
    assert!(Commands::parse("hello").is_none());
}

#[test]
fn parse_unknown_name_fails() {
    assert!(Commands::parse("!unknown a b").is_none());
}

#[test]
fn parse_empty_fails() {
    assert!(Commands::parse("").is_none());
    assert!(Commands::parse("!").is_none());
}

#[test]
fn parse_empty_reason_allowed() {
    let cmd = Commands::parse("!site_ban alice ").unwrap();
    assert_eq!(parts(&cmd), ("site_ban", "alice", ""));
}

#[test]
fn parse_double_space_gives_empty_username() {
    let cmd = Commands::parse("!site_ban  why").unwrap();
    assert_eq!(parts(&cmd), ("site_ban", "", "why"));
}

#[test]
fn parse_reason_absorbs_rest_of_line() {
    let cmd = Commands::parse("!purge_user dave a b c  d").unwrap();
    assert_eq!(parts(&cmd), ("purge_user", "dave", "a b c  d"));
}

#[test]
fn parse_is_case_sensitive() {
    assert!(Commands::parse("!Site_Ban alice reason").is_none());
}

#[test]
fn username_accessor() {
    let cmd = Commands::parse("!site_ban alice why").unwrap();
    assert_eq!(cmd.username().as_str(), "alice");
}

#[test]
fn render_command_exact() {
    let cmd = Commands::parse("!purge_user alice too much spam").unwrap();
    assert_eq!(
        cmd.render(),
        "* command = `purge_user`\r\n* user = alice\r\n* reason = `too much spam`"
    );
}

#[test]
fn render_site_ban_command_exact() {
    let cmd = Commands::SiteBan(String::from("bob"), String::from("abuse"));
    assert_eq!(cmd.render(), "* command = `site_ban`\r\n* user = bob\r\n* reason = `abuse`");
}

#[test]
fn trim_strips_ascii_whitespace() {
    assert_eq!(trim_spaces("  !site_ban a b \r\n"), "!site_ban a b");
    assert_eq!(trim_spaces("\t\n"), "");
    assert_eq!(trim_spaces(""), "");
    assert_eq!(trim_spaces("x"), "x");
    assert_eq!(trim_spaces(" inner  space "), "inner  space");
}

#[test]
fn parse_trimmed_message() {
    let cmd = Commands::parse(trim_spaces("  !site_ban alice why \r\n")).unwrap();
    assert_eq!(parts(&cmd), ("site_ban", "alice", "why"));
}
