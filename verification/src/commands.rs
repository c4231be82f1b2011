//! The private-message command protocol. A command message is
//! `!<name> <username> <free-text reason>`: a fixed prefix, then at most
//! three whitespace-delimited tokens, the third absorbing the rest of the
//! line. Parsing is all-or-nothing; no partial command is ever produced.

use vstd::prelude::*;

verus! {

/// A parsed administrator command.
pub enum Commands {
    /// Ban the named user site-wide, preserving their content.
    SiteBan(String, String),
    /// Ban the named user site-wide and remove their content.
    SiteBanRemove(String, String),
    /// Purge the named user entirely.
    PurgeUser(String, String),
}

/// The mathematical shape of a command: its username and reason texts.
pub ghost enum CommandsV {
    SiteBan(Seq<char>, Seq<char>),
    SiteBanRemove(Seq<char>, Seq<char>),
    PurgeUser(Seq<char>, Seq<char>),
}

impl View for Commands {
    type V = CommandsV;

    open spec fn view(&self) -> CommandsV {
        match self {
            Commands::SiteBan(u, r) => CommandsV::SiteBan(u@, r@),
            Commands::SiteBanRemove(u, r) => CommandsV::SiteBanRemove(u@, r@),
            Commands::PurgeUser(u, r) => CommandsV::PurgeUser(u@, r@),
        }
    }
}

impl Clone for Commands {
    fn clone(&self) -> (r: Self)
        ensures
            r == *self,
    {
        match self {
            Commands::SiteBan(u, re) => Commands::SiteBan(u.clone(), re.clone()),
            Commands::SiteBanRemove(u, re) => Commands::SiteBanRemove(u.clone(), re.clone()),
            Commands::PurgeUser(u, re) => Commands::PurgeUser(u.clone(), re.clone()),
        }
    }
}

/// The index of the first space at or after `from`, or the length where
/// there is none: the end of the token starting at `from`.
pub open spec fn token_end(s: Seq<char>, from: int) -> int
    decreases s.len() - from
        when 0 <= from <= s.len()
{
    if from >= s.len() {
        s.len() as int
    } else if s[from] == ' ' {
        from
    } else {
        token_end(s, from + 1)
    }
}

pub proof fn lemma_token_end_bounds(s: Seq<char>, from: int)
    requires
        0 <= from <= s.len(),
    ensures
        from <= token_end(s, from) <= s.len(),
    decreases s.len() - from,
{
    if from < s.len() && s[from] != ' ' {
        lemma_token_end_bounds(s, from + 1);
    }
}

/// What a message text parses to: a command where the text has the
/// prefix, three tokens and a recognized name, nothing otherwise.
pub open spec fn parse_spec(s: Seq<char>) -> Option<CommandsV> {
    if s.len() == 0 || s[0] != '!' {
        None
    } else {
        let e0 = token_end(s, 0);
        if e0 == s.len() {
            None
        } else {
            let e1 = token_end(s, e0 + 1);
            if e1 == s.len() {
                None
            } else {
                let name = s.subrange(1, e0);
                let username = s.subrange(e0 + 1, e1);
                let reason = s.subrange(e1 + 1, s.len() as int);
                if name == "purge_user"@ {
                    Some(CommandsV::PurgeUser(username, reason))
                } else if name == "site_ban"@ {
                    Some(CommandsV::SiteBan(username, reason))
                } else if name == "site_ban_remove"@ {
                    Some(CommandsV::SiteBanRemove(username, reason))
                } else {
                    None
                }
            }
        }
    }
}

/// Finds the end of the token starting at `from`.
fn find_token_end(s: &str, from: usize, n: usize) -> (r: usize)
    requires
        n == s@.len(),
        from <= n,
    ensures
        r == token_end(s@, from as int),
        from <= r <= n,
{
    proof {
        lemma_token_end_bounds(s@, from as int);
    }
    let mut j = from;
    while j < n && s.get_char(j) != ' '
        invariant
            from <= j <= n,
            n == s@.len(),
            token_end(s@, from as int) == token_end(s@, j as int),
        decreases n - j,
    {
        j = j + 1;
    }
    j
}

/// Exact text equality of two string slices.
pub fn str_eq(a: &str, b: &str) -> (r: bool)
    ensures
        r == (a@ == b@),
{
    let sa = String::from_str(a);
    let sb = String::from_str(b);
    sa == sb
}

impl Commands {
    /// Parses a message text as a command, all-or-nothing.
    pub fn parse(value: &str) -> (r: Option<Commands>)
        ensures
            match r {
                Some(cmd) => parse_spec(value@) == Some(cmd@),
                None => parse_spec(value@) is None,
            },
    {
        let n = value.unicode_len();
        if n == 0 {
            return None;
        }
        if value.get_char(0) != '!' {
            return None;
        }
        let e0 = find_token_end(value, 0, n);
        if e0 == n {
            return None;
        }
        let e1 = find_token_end(value, e0 + 1, n);
        if e1 == n {
            return None;
        }
        let name = value.substring_char(1, e0);
        let username = value.substring_char(e0 + 1, e1);
        let reason = value.substring_char(e1 + 1, n);
        if str_eq(name, "purge_user") {
            Some(Commands::PurgeUser(String::from_str(username), String::from_str(reason)))
        } else if str_eq(name, "site_ban") {
            Some(Commands::SiteBan(String::from_str(username), String::from_str(reason)))
        } else if str_eq(name, "site_ban_remove") {
            Some(Commands::SiteBanRemove(String::from_str(username), String::from_str(reason)))
        } else {
            None
        }
    }
}

/// The command's fixed name token.
pub open spec fn command_name_text(c: Commands) -> Seq<char> {
    match c {
        Commands::SiteBan(_, _) => "site_ban"@,
        Commands::SiteBanRemove(_, _) => "site_ban_remove"@,
        Commands::PurgeUser(_, _) => "purge_user"@,
    }
}

/// The username a command names.
pub open spec fn command_username(c: Commands) -> Seq<char> {
    match c {
        Commands::SiteBan(u, _) => u@,
        Commands::SiteBanRemove(u, _) => u@,
        Commands::PurgeUser(u, _) => u@,
    }
}

/// The free-text reason a command carries.
pub open spec fn command_reason(c: Commands) -> Seq<char> {
    match c {
        Commands::SiteBan(_, r) => r@,
        Commands::SiteBanRemove(_, r) => r@,
        Commands::PurgeUser(_, r) => r@,
    }
}

/// A command rendered for audit notices.
pub open spec fn command_text(c: Commands) -> Seq<char> {
    "* command = `"@ + command_name_text(c) + "`\r\n* user = "@ + command_username(c)
        + "\r\n* reason = `"@ + command_reason(c) + "`"@
}

impl Commands {
    /// The username the command targets.
    pub fn username(&self) -> (r: &String)
        ensures
            r@ == command_username(*self),
    {
        match self {
            Commands::SiteBan(u, _) => u,
            Commands::SiteBanRemove(u, _) => u,
            Commands::PurgeUser(u, _) => u,
        }
    }

    /// Renders the command for audit notices.
    pub fn render(&self) -> (r: String)
        ensures
            r@ == command_text(*self),
    {
        let name: &str = match self {
            Commands::SiteBan(_, _) => "site_ban",
            Commands::SiteBanRemove(_, _) => "site_ban_remove",
            Commands::PurgeUser(_, _) => "purge_user",
        };
        let (username, reason) = match self {
            Commands::SiteBan(u, re) => (u, re),
            Commands::SiteBanRemove(u, re) => (u, re),
            Commands::PurgeUser(u, re) => (u, re),
        };
        let mut s = String::from_str("* command = `");
        s.append(name);
        s.append("`\r\n* user = ");
        s.append(username.as_str());
        s.append("\r\n* reason = `");
        s.append(reason.as_str());
        s.append("`");
        proof {
            assert(s@ =~= command_text(*self));
        }
        s
    }
}

/// True of the four ASCII whitespace characters that message trimming
/// strips.
pub open spec fn is_space_char(c: char) -> bool {
    c == ' ' || c == '\t' || c == '\r' || c == '\n'
}

fn is_space(c: char) -> (r: bool)
    ensures
        r == is_space_char(c),
{
    c == ' ' || c == '\t' || c == '\r' || c == '\n'
}

/// The first index at or after `from` holding a non-space character, or
/// the length where there is none.
pub open spec fn trim_from_at(s: Seq<char>, from: int) -> int
    decreases s.len() - from
        when 0 <= from <= s.len()
{
    if from >= s.len() {
        s.len() as int
    } else if is_space_char(s[from]) {
        trim_from_at(s, from + 1)
    } else {
        from
    }
}

/// One past the last index below `to` holding a non-space character, or
/// zero where there is none.
pub open spec fn trim_to_at(s: Seq<char>, to: int) -> int
    decreases to
        when 0 <= to <= s.len()
{
    if to <= 0 {
        0
    } else if is_space_char(s[to - 1]) {
        trim_to_at(s, to - 1)
    } else {
        to
    }
}

/// The text with leading and trailing ASCII whitespace removed.
pub open spec fn trimmed(s: Seq<char>) -> Seq<char> {
    let a = trim_from_at(s, 0);
    let b = trim_to_at(s, s.len() as int);
    if a <= b {
        s.subrange(a, b)
    } else {
        Seq::<char>::empty()
    }
}

proof fn lemma_trim_to_bounds(s: Seq<char>, to: int)
    requires
        0 <= to <= s.len(),
    ensures
        0 <= trim_to_at(s, to) <= to,
    decreases to,
{
    if to > 0 && is_space_char(s[to - 1]) {
        lemma_trim_to_bounds(s, to - 1);
    }
}

proof fn lemma_trim_from_bounds(s: Seq<char>, from: int)
    requires
        0 <= from <= s.len(),
    ensures
        from <= trim_from_at(s, from) <= s.len(),
        forall|j: int| from <= j < trim_from_at(s, from) ==> is_space_char(s[j]),
        trim_from_at(s, from) < s.len() ==> !is_space_char(s[trim_from_at(s, from)]),
    decreases s.len() - from,
{
    if from < s.len() && is_space_char(s[from]) {
        lemma_trim_from_bounds(s, from + 1);
    }
}

/// Removes leading and trailing ASCII whitespace (space, tab, carriage
/// return, line feed) from a message text.
pub fn trim_spaces(s: &str) -> (r: &str)
    ensures
        r@ == trimmed(s@),
{
    let n = s.unicode_len();
    proof {
        lemma_trim_from_bounds(s@, 0);
    }
    let mut a: usize = 0;
    while a < n && is_space(s.get_char(a))
        invariant
            0 <= a <= n,
            n == s@.len(),
            trim_from_at(s@, 0) == trim_from_at(s@, a as int),
        decreases n - a,
    {
        a = a + 1;
    }
    let mut b: usize = n;
    while b > a && is_space(s.get_char(b - 1))
        invariant
            a <= b <= n,
            n == s@.len(),
            a == trim_from_at(s@, 0),
            a < n ==> !is_space_char(s@[a as int]),
            a < n ==> b > a,
            trim_to_at(s@, n as int) == trim_to_at(s@, b as int),
        decreases b,
    {
        b = b - 1;
    }
    if a < n {
        // the character at a is not a space, so b stayed above a and the
        // character before b is not a space either
        proof {
            assert(trim_to_at(s@, b as int) == b);
        }
    } else {
        proof {
            lemma_trim_to_bounds(s@, n as int);
            assert(trimmed(s@) =~= s@.subrange(a as int, b as int));
        }
    }
    s.substring_char(a, b)
}

} // verus!
