//! Recognising installations of the host application by their folder and executable
//! names.
use vstd::prelude::*;

use crate::launch::views;
use crate::text::{join_path, path_join};

verus! {

/// The folder and executable names the host application is installed under.
pub open spec fn spec_discord_names() -> Seq<Seq<char>> {
    seq![
        "Discord"@,
        "DiscordPTB"@,
        "DiscordCanary"@,
        "DiscordDevelopment"@,
        "discord"@,
        "discordptb"@,
        "discordcanary"@,
        "discorddevelopment"@,
        "discord-ptb"@,
        "discord-canary"@,
        "discord-development"@,
        "com.discordapp.Discord"@,
        "com.discordapp.DiscordPTB"@,
        "com.discordapp.DiscordCanary"@,
        "com.discordapp.DiscordDevelopment"@,
    ]
}

/// The folder and executable names the host application is installed under.
pub fn discord_names() -> (r: Vec<String>)
    ensures
        views(r@) == spec_discord_names(),
{
    let mut r: Vec<String> = Vec::new();
    r.push(String::from_str("Discord"));
    r.push(String::from_str("DiscordPTB"));
    r.push(String::from_str("DiscordCanary"));
    r.push(String::from_str("DiscordDevelopment"));
    r.push(String::from_str("discord"));
    r.push(String::from_str("discordptb"));
    r.push(String::from_str("discordcanary"));
    r.push(String::from_str("discorddevelopment"));
    r.push(String::from_str("discord-ptb"));
    r.push(String::from_str("discord-canary"));
    r.push(String::from_str("discord-development"));
    r.push(String::from_str("com.discordapp.Discord"));
    r.push(String::from_str("com.discordapp.DiscordPTB"));
    r.push(String::from_str("com.discordapp.DiscordCanary"));
    r.push(String::from_str("com.discordapp.DiscordDevelopment"));
    proof {
        assert(views(r@) =~= spec_discord_names());
    }
    r
}

/// `s` ends with `t`.
pub open spec fn ends_with(s: Seq<char>, t: Seq<char>) -> bool {
    s.len() >= t.len() && s.subrange(s.len() - t.len(), s.len() as int) == t
}

/// Whether `s` ends with `t`.
pub fn str_ends_with(s: &str, t: &str) -> (r: bool)
    ensures
        r == ends_with(s@, t@),
{
    let n = s.unicode_len();
    let m = t.unicode_len();
    if n < m {
        return false;
    }
    String::from_str(s.substring_char(n - m, n)).eq(&String::from_str(t))
}

/// A folder whose name ends with one of the host's names may hold an installation.
pub fn is_discord_dir(name: &str) -> (r: bool)
    ensures
        r == exists|i: int| 0 <= i < spec_discord_names().len() && ends_with(name@, #[trigger] spec_discord_names()[i]),
{
    let names = discord_names();
    let mut i: usize = 0;
    while i < names.len()
        invariant
            i <= names@.len(),
            views(names@) == spec_discord_names(),
            forall|j: int| 0 <= j < i ==> !ends_with(name@, #[trigger] spec_discord_names()[j]),
        decreases names@.len() - i,
    {
        proof {
            assert(names@[i as int]@ == spec_discord_names()[i as int]);
        }
        if str_ends_with(name, names[i].as_str()) {
            return true;
        }
        i = i + 1;
    }
    false
}

/// The paths an installation folder may hold its executable at, one per name, in order.
pub fn discord_candidates(path: &str) -> (r: Vec<String>)
    ensures
        r@.len() == spec_discord_names().len(),
        forall|i: int| 0 <= i < r@.len() ==> (#[trigger] r@[i])@ == path_join(path@, spec_discord_names()[i]),
{
    let names = discord_names();
    let mut r: Vec<String> = Vec::new();
    let mut i: usize = 0;
    while i < names.len()
        invariant
            i <= names@.len(),
            r@.len() == i,
            views(names@) == spec_discord_names(),
            forall|j: int| 0 <= j < i ==> (#[trigger] r@[j])@ == path_join(path@, spec_discord_names()[j]),
        decreases names@.len() - i,
    {
        proof {
            assert(names@[i as int]@ == spec_discord_names()[i as int]);
        }
        r.push(join_path(path, names[i].as_str()));
        i = i + 1;
    }
    r
}

/// The executable of an installation folder: the first candidate of `discord_candidates`
/// that exists, where `exists` tells, candidate by candidate, which do. A candidate
/// without a flag counts as missing.
pub fn parse_discord_instance(path: &str, exists: &Vec<bool>) -> (r: Option<String>)
    ensures
        r is None <==> forall|i: int|
            0 <= i < spec_discord_names().len() && i < exists@.len() ==> !exists@[i],
        r matches Some(p) ==> exists|i: int|
            0 <= i < spec_discord_names().len() && i < exists@.len() && exists@[i] && (forall|j: int|
                0 <= j < i ==> !exists@[j]) && p@ == path_join(path@, #[trigger] spec_discord_names()[i]),
{
    let candidates = discord_candidates(path);
    let mut i: usize = 0;
    while i < candidates.len() && i < exists.len()
        invariant
            i <= candidates@.len(),
            candidates@.len() == spec_discord_names().len(),
            forall|j: int| 0 <= j < candidates@.len() ==> (#[trigger] candidates@[j])@ == path_join(path@, spec_discord_names()[j]),
            forall|j: int| 0 <= j < i && j < exists@.len() ==> !exists@[j],
        decreases candidates@.len() - i,
    {
        if exists[i] {
            let p = candidates[i].clone();
            proof {
                assert(p@ == path_join(path@, spec_discord_names()[i as int]));
            }
            return Some(p);
        }
        i = i + 1;
    }
    None
}

} // verus!
