//! Decisions and replies of the chat commands and message handlers that do
//! not belong to a tracker.
use vstd::prelude::*;
use vstd::string::StringExecFns;

use crate::text::{decimal, decimal_of, has_prefix, starts_with, trim_leading, trim_leading_copies};

verus! {

/// What the bot knows about an incoming chat message.
#[derive(Clone, Copy, Debug, PartialEq, Eq, Structural)]
pub struct MessageFacts {
    /// The author is a bot.
    pub from_bot: bool,
    /// The manga catalog client is available.
    pub catalog_ready: bool,
    /// A manga update channel is configured.
    pub manga_channel_configured: bool,
    /// The message was posted in the music channel.
    pub in_music_channel: bool,
    /// The message was posted in the manga update channel.
    pub in_manga_channel: bool,
}

/// The handlers that a message goes through.
#[derive(Clone, Copy, Debug, PartialEq, Eq, Structural)]
pub struct Routes {
    /// Look for music links to match on the other platform.
    pub music: bool,
    /// Look for a catalog manga link to describe.
    pub manga: bool,
    /// Look for social-media links to mirror.
    pub mirrors: bool,
    /// Recall the quote the message names.
    pub quote: bool,
}

/// The prefix of bot commands.
pub const COMMAND_PREFIX: &'static str = "s>";

/// The prefix of a quote recall.
pub const QUOTE_PREFIX: &'static str = "... ";

/// The handlers of a message: none for bot messages, commands, or while the
/// manga features are off; else the channel decides the music and manga
/// handlers, mirrors always run, and a quote recall runs on its prefix.
pub open spec fn routes_of(f: MessageFacts, content: Seq<char>) -> Routes {
    if f.from_bot || !f.catalog_ready || !f.manga_channel_configured || starts_with(content, COMMAND_PREFIX@) {
        Routes { music: false, manga: false, mirrors: false, quote: false }
    } else {
        Routes {
            music: f.in_music_channel,
            manga: f.in_manga_channel,
            mirrors: true,
            quote: starts_with(content, QUOTE_PREFIX@),
        }
    }
}

/// Decides which handlers a message goes through.
pub fn route_message(f: MessageFacts, content: &str) -> (r: Routes)
    ensures
        r == routes_of(f, content@),
{
    if f.from_bot || !f.catalog_ready || !f.manga_channel_configured || has_prefix(content, COMMAND_PREFIX) {
        Routes { music: false, manga: false, mirrors: false, quote: false }
    } else {
        Routes {
            music: f.in_music_channel,
            manga: f.in_manga_channel,
            mirrors: true,
            quote: has_prefix(content, QUOTE_PREFIX),
        }
    }
}

/// The quote title that a recall message names: the message without its
/// leading recall prefixes.
pub fn recalled_title(content: &str) -> (r: &str)
    ensures
        r@ == trim_leading(content@, QUOTE_PREFIX@),
{
    proof {
        reveal_strlit("... ");
    }
    trim_leading_copies(content, QUOTE_PREFIX)
}

/// What happened to a quote or one of its aliases.
#[derive(Clone, Copy, Debug, PartialEq, Eq, Structural)]
pub enum QuoteEvent {
    /// No quote has the title.
    Missing,
    /// A quote with the title already exists.
    Duplicate,
    /// The quote was added.
    Added,
    /// The quote was deleted.
    Deleted,
    /// The alias is already taken.
    AliasDuplicate,
    /// The alias was added to the quote.
    AliasAdded,
    /// The alias was deleted.
    AliasDeleted,
    /// No alias has the name.
    AliasMissing,
}

/// The reply on a quote event; `name` is the quote's title or the alias,
/// `quote` the title an alias was added to.
pub open spec fn quote_reply_of(e: QuoteEvent, name: Seq<char>, quote: Seq<char>) -> Seq<char> {
    match e {
        QuoteEvent::Missing => "quote \""@ + name + "\" does not exist."@,
        QuoteEvent::Duplicate => "quote with title \""@ + name + "\" already exists."@,
        QuoteEvent::Added => "added quote \""@ + name + "\"."@,
        QuoteEvent::Deleted => "deleted quote \""@ + name + "\"."@,
        QuoteEvent::AliasDuplicate => "alias \""@ + name + "\" already exists."@,
        QuoteEvent::AliasAdded => "added alias \""@ + name + "\" for quote \""@ + quote + "\"."@,
        QuoteEvent::AliasDeleted => "deleted alias \""@ + name + "\"."@,
        QuoteEvent::AliasMissing => "alias \""@ + name + "\" does not exist."@,
    }
}

/// Writes the reply on a quote event.
pub fn quote_reply(e: QuoteEvent, name: &str, quote: &str) -> (r: String)
    ensures
        r@ == quote_reply_of(e, name@, quote@),
{
    let (head, tail) = match e {
        QuoteEvent::Missing => ("quote \"", "\" does not exist."),
        QuoteEvent::Duplicate => ("quote with title \"", "\" already exists."),
        QuoteEvent::Added => ("added quote \"", "\"."),
        QuoteEvent::Deleted => ("deleted quote \"", "\"."),
        QuoteEvent::AliasDuplicate => ("alias \"", "\" already exists."),
        QuoteEvent::AliasAdded => ("added alias \"", "\" for quote \""),
        QuoteEvent::AliasDeleted => ("deleted alias \"", "\"."),
        QuoteEvent::AliasMissing => ("alias \"", "\" does not exist."),
    };
    let mut s = String::from_str(head);
    s.append(name);
    s.append(tail);
    match e {
        QuoteEvent::AliasAdded => {
            s.append(quote);
            s.append("\".");
        },
        _ => {},
    }
    s
}

/// What happened when a member picked a self-assignable role.
#[derive(Clone, Copy, Debug, PartialEq, Eq, Structural)]
pub enum RoleEvent {
    /// The member already had the role they asked for.
    AlreadyHeld,
    /// The role was given.
    Added,
    /// The role was taken away.
    Removed,
    /// The member asked to drop a role they do not have.
    NotHeld,
}

/// The reply on a role event.
pub open spec fn role_reply_of(e: RoleEvent, role: Seq<char>) -> Seq<char> {
    match e {
        RoleEvent::AlreadyHeld => "you already have <@&"@ + role + ">!"@,
        RoleEvent::Added => "added <@&"@ + role + "> to your account."@,
        RoleEvent::Removed => "i removed the role <@&"@ + role + "> for you!"@,
        RoleEvent::NotHeld => "you don't seem to have the role <@&"@ + role
            + ">...? how did you get here to begin with?"@,
    }
}

/// Writes the reply on a role event.
pub fn role_reply(e: RoleEvent, role: &str) -> (r: String)
    ensures
        r@ == role_reply_of(e, role@),
{
    let (head, tail) = match e {
        RoleEvent::AlreadyHeld => ("you already have <@&", ">!"),
        RoleEvent::Added => ("added <@&", "> to your account."),
        RoleEvent::Removed => ("i removed the role <@&", "> for you!"),
        RoleEvent::NotHeld => ("you don't seem to have the role <@&", ">...? how did you get here to begin with?"),
    };
    let mut s = String::from_str(head);
    s.append(role);
    s.append(tail);
    s
}

/// The link chosen for a roll of the dice: one of two songs, the second
/// when the roll is in the upper half.
pub fn quartatrice_link(roll: u8) -> (r: &'static str)
    ensures
        r@ == if roll > 127 {
            "https://www.youtube.com/watch?v=mdWEHMxQqn8"@
        } else {
            "https://www.youtube.com/watch?v=a2qUNdQySgw"@
        },
{
    if roll > 127 {
        "https://www.youtube.com/watch?v=mdWEHMxQqn8"
    } else {
        "https://www.youtube.com/watch?v=a2qUNdQySgw"
    }
}

/// The chart video chosen for a roll of the dice.
pub fn itl_link(roll: u8) -> (r: &'static str)
    ensures
        r@ == if roll > 127 {
            "https://www.youtube.com/watch?v=MKuicDvnaFc"@
        } else {
            "https://www.youtube.com/watch?v=zqH9qgVNzHI"@
        },
{
    if roll > 127 {
        "https://www.youtube.com/watch?v=MKuicDvnaFc"
    } else {
        "https://www.youtube.com/watch?v=zqH9qgVNzHI"
    }
}

/// Relies on `rand::random`: a value drawn from the thread-local generator,
/// of which nothing is known.
pub assume_specification<T>[ rand::random::<T> ]() -> T
    where
        rand::distributions::Standard: rand::distributions::Distribution<T>,
;

/// Picks one of the two songs at random.
pub fn quartatrice() -> (r: &'static str)
    ensures
        r@ == "https://www.youtube.com/watch?v=mdWEHMxQqn8"@ || r@ == "https://www.youtube.com/watch?v=a2qUNdQySgw"@,
{
    quartatrice_link(rand::random::<u8>())
}

/// Picks one of the two chart videos at random.
pub fn itl() -> (r: &'static str)
    ensures
        r@ == "https://www.youtube.com/watch?v=MKuicDvnaFc"@ || r@ == "https://www.youtube.com/watch?v=zqH9qgVNzHI"@,
{
    itl_link(rand::random::<u8>())
}

/// The canonical form of a version number, if the text is one.
pub uninterp spec fn semver_of(s: Seq<char>) -> Option<Seq<char>>;

/// Relies on `semver::Version::parse` and the display of the parsed
/// version.
#[verifier::external_body]
fn parse_semver(s: &str) -> (r: Option<String>)
    ensures
        match r {
            Some(v) => semver_of(s@) == Some(v@),
            None => semver_of(s@) is None,
        },
{
    semver::Version::parse(s).ok().map(|v| v.to_string())
}

/// The version line of the status card: the version with its release name
/// and a link to the commit it was built from.
pub open spec fn version_line_of(version: Seq<char>, sha: Seq<char>) -> Seq<char> {
    match semver_of(version) {
        Some(v) => "v"@ + v + " - There's No Way I'll Ever Regret It [[`"@ + sha
            + "`](https://github.com/j1nxie/mikisayaka/commit/"@ + sha + ")]"@,
        None => "v0.0.0-unknown - No Version Name"@,
    }
}

/// Writes the version line of the status card from the package version and
/// the commit hash.
pub fn get_version(version: &str, sha: &str) -> (r: String)
    ensures
        r@ == version_line_of(version@, sha@),
{
    match parse_semver(version) {
        Some(v) => {
            let mut s = String::from_str("v");
            s.append(v.as_str());
            s.append(" - There's No Way I'll Ever Regret It [[`");
            s.append(sha);
            s.append("`](https://github.com/j1nxie/mikisayaka/commit/");
            s.append(sha);
            s.append(")]");
            s
        },
        None => String::from_str("v0.0.0-unknown - No Version Name"),
    }
}

/// The roles of `assignable`, in order, that the member holds.
pub open spec fn held_upto(assignable: Seq<u64>, member: Seq<u64>, n: nat) -> Seq<u64>
    decreases n,
{
    if n == 0 {
        Seq::empty()
    } else {
        let prev = held_upto(assignable, member, (n - 1) as nat);
        if member.contains(assignable[n - 1]) {
            prev.push(assignable[n - 1])
        } else {
            prev
        }
    }
}

/// The self-assignable roles that a member holds, in the order of the
/// role list.
pub fn held_roles(assignable: &Vec<u64>, member: &Vec<u64>) -> (r: Vec<u64>)
    ensures
        r@ == held_upto(assignable@, member@, assignable@.len()),
{
    let mut out: Vec<u64> = Vec::new();
    let mut i: usize = 0;
    while i < assignable.len()
        invariant
            i <= assignable.len(),
            out@ == held_upto(assignable@, member@, i as nat),
        decreases assignable.len() - i,
    {
        let role = assignable[i];
        let mut found = false;
        let mut j: usize = 0;
        while j < member.len()
            invariant
                j <= member.len(),
                found == exists|k: int| 0 <= k < j && member@[k] == role,
            decreases member.len() - j,
        {
            if member[j] == role {
                found = true;
            }
            j = j + 1;
        }
        if found {
            out.push(role);
        }
        i = i + 1;
    }
    out
}

/// The lines of the first `n` roles of a role list, numbered from zero.
pub open spec fn role_list_upto(roles: Seq<Seq<char>>, n: nat) -> Seq<char>
    decreases n,
{
    if n == 0 {
        Seq::empty()
    } else {
        role_list_upto(roles, (n - 1) as nat) + decimal_of((n - 1) as nat) + ". <@&"@ + roles[n - 1] + ">\n"@
    }
}

/// Writes a role list, one mention per line, numbered from zero.
pub fn role_list(roles: &Vec<String>) -> (r: String)
    ensures
        r@ == role_list_upto(roles@.map_values(|s: String| s@), roles@.len()),
{
    let mut s = String::new();
    let mut i: usize = 0;
    while i < roles.len()
        invariant
            i <= roles.len(),
            s@ == role_list_upto(roles@.map_values(|s: String| s@), i as nat),
        decreases roles.len() - i,
    {
        s.append(decimal(i as u64).as_str());
        s.append(". <@&");
        s.append(roles[i].as_str());
        s.append(">\n");
        i = i + 1;
    }
    s
}

} // verus!
