//! Deciding how a run of the program proceeds, and what the host application is started
//! with.
use vstd::prelude::*;

use crate::config::Config;
use crate::paths::Paths;
use crate::text::{trim_slashes, trim_trailing_slashes};

verus! {

/// How a run of the program proceeds.
#[derive(Debug, Clone, PartialEq, Eq)]
pub enum Mode {
    /// No instance was named: the interactive surface runs.
    Interactive,
    /// Launch this instance of this profile and exit.
    Headless { profile_id: String, instance_id: String },
}

/// Headless mode needs both a profile and an instance; anything less is interactive.
pub fn select_mode(profile_id: Option<String>, instance_id: Option<String>) -> (r: Mode)
    ensures
        (profile_id, instance_id) matches (Some(p), Some(i)) ==> r == (Mode::Headless {
            profile_id: p,
            instance_id: i,
        }),
        profile_id is None || instance_id is None ==> r == Mode::Interactive,
{
    match (profile_id, instance_id) {
        (Some(p), Some(i)) => Mode::Headless { profile_id: p, instance_id: i },
        _ => Mode::Interactive,
    }
}

/// The arguments that start this program headless on an instance, forwarding `args` to
/// the host.
pub open spec fn spec_launch_args(p: Seq<char>, i: Seq<char>, args: Seq<char>, force: bool) -> Seq<Seq<char>> {
    let head = seq!["--profile"@, p, "--instance"@, i];
    let flag = if force {
        seq!["--force-update"@]
    } else {
        Seq::<Seq<char>>::empty()
    };
    head + flag + seq!["--"@, args]
}

/// The views of a list of strings.
pub open spec fn views(v: Seq<String>) -> Seq<Seq<char>> {
    v.map_values(|s: String| s@)
}

/// The arguments that start this program headless on an instance.
pub fn launch_instance(profile_id: &str, instance_id: &str, args: &str) -> (r: Vec<String>)
    ensures
        views(r@) == spec_launch_args(profile_id@, instance_id@, args@, false),
{
    launch_detached_instance(profile_id, instance_id, args, false)
}

/// The arguments that start this program headless on an instance, asking for a forced
/// update where `force_update` holds.
pub fn launch_detached_instance(profile_id: &str, instance_id: &str, args: &str, force_update: bool) -> (r:
    Vec<String>)
    ensures
        views(r@) == spec_launch_args(profile_id@, instance_id@, args@, force_update),
{
    let mut r: Vec<String> = Vec::new();
    r.push(String::from_str("--profile"));
    r.push(String::from_str(profile_id));
    r.push(String::from_str("--instance"));
    r.push(String::from_str(instance_id));
    if force_update {
        r.push(String::from_str("--force-update"));
    }
    r.push(String::from_str("--"));
    r.push(String::from_str(args));
    proof {
        assert(views(r@) =~= spec_launch_args(profile_id@, instance_id@, args@, force_update));
    }
    r
}

/// The directory part of a path, trailing separators ignored.
pub open spec fn parent_of(s: Seq<char>) -> Seq<char> {
    before_last_slash(trim_slashes(s))
}

/// Everything before the last separator of `s` (`/` where that is its first character),
/// or nothing where it has no separator.
pub open spec fn before_last_slash(s: Seq<char>) -> Seq<char> {
    if exists|k: int| 0 <= k < s.len() && s[k] == '/' {
        let k = choose|k: int|
            0 <= k < s.len() && s[k] == '/' && forall|j: int| k < j < s.len() ==> s[j] != '/';
        if k == 0 {
            seq!['/']
        } else {
            s.subrange(0, k)
        }
    } else {
        Seq::empty()
    }
}

/// The directory part of a path, trailing separators ignored.
pub fn parent_dir(path: &str) -> (r: String)
    ensures
        r@ == parent_of(path@),
{
    let t = trim_trailing_slashes(path);
    let s = t.as_str();
    let n = s.unicode_len();
    let mut k: usize = n;
    while k > 0
        invariant
            k <= n,
            n == s@.len(),
            s@ == trim_slashes(path@),
            forall|j: int| k <= j < n ==> s@[j] != '/',
        decreases k,
    {
        if s.get_char(k - 1) == '/' {
            let idx = k - 1;
            proof {
                assert(exists|q: int| 0 <= q < s@.len() && s@[q] == '/') by {
                    assert(s@[idx as int] == '/');
                }
                let c = choose|q: int|
                    0 <= q < s@.len() && s@[q] == '/' && forall|j: int| q < j < s@.len() ==> s@[j] != '/';
                assert(c == idx as int) by {
                    if c < idx {
                        assert(s@[idx as int] == '/');
                    }
                }
            }
            if idx == 0 {
                let slash = "/";
                proof {
                    reveal_strlit("/");
                    assert(slash@ =~= seq!['/']);
                }
                return String::from_str(slash);
            }
            return String::from_str(s.substring_char(0, idx));
        }
        k = k - 1;
    }
    String::new()
}

/// Why the host application cannot be started.
#[derive(Debug, Clone, PartialEq, Eq)]
pub enum LaunchError {
    /// No profile has the given id.
    ProfileNotFound(String),
}

/// How to start the host application.
#[derive(Debug, Clone, PartialEq, Eq)]
pub struct Handoff {
    /// The host executable.
    pub executable: String,
    /// The directory to start it in.
    pub working_dir: String,
    /// Environment variables to set: the archive's path and the injected library's.
    pub env: Vec<(String, String)>,
    /// The arguments to start it with.
    pub args: Vec<String>,
}

/// The variable that carries the path of the archive.
pub open spec fn archive_var() -> Seq<char> {
    "MODLOADER_ASAR_PATH"@
}

/// The variable that makes the host load the injected library.
pub open spec fn library_var() -> Seq<char> {
    "LD_PRELOAD"@
}

/// Starts the host of profile `profile_id` on the archive at `archive_path`, with the
/// library at `library_path` injected and `args` forwarded as given. An isolated profile
/// runs in its own data directory; otherwise the host runs in its executable's directory.
pub fn plan_handoff(
    cfg: &Config,
    paths: &Paths,
    profile_id: &str,
    archive_path: &str,
    library_path: &str,
    args: &Vec<String>,
) -> (r: Result<Handoff, LaunchError>)
    ensures
        !cfg.profiles@.dom().contains(profile_id@) ==> (r matches Err(LaunchError::ProfileNotFound(x))
            && x@ == profile_id@),
        cfg.profiles@.dom().contains(profile_id@) ==> (r matches Ok(h) && {
            let prof = cfg.profiles@[profile_id@];
            let dir = paths.spec_profile_data_dir(profile_id@);
            &&& h.executable@ == prof.discord.executable@
            &&& h.working_dir@ == if prof.profile.use_default_profile {
                parent_of(prof.discord.executable@)
            } else {
                dir
            }
            &&& h.env@.len() == 2
            &&& h.env@[0].0@ == archive_var() && h.env@[0].1@ == archive_path@
            &&& h.env@[1].0@ == library_var() && h.env@[1].1@ == library_path@
            &&& h.args@ == args@
        }),
{
    let profile = match cfg.profiles.get(profile_id) {
        Some(p) => p,
        None => return Err(LaunchError::ProfileNotFound(String::from_str(profile_id))),
    };
    let working_dir = if profile.profile.use_default_profile {
        parent_dir(profile.discord.executable.as_str())
    } else {
        paths.profile_data_dir(profile_id)
    };
    let mut host_args: Vec<String> = Vec::new();
    let mut i: usize = 0;
    while i < args.len()
        invariant
            i <= args@.len(),
            host_args@ == args@.subrange(0, i as int),
        decreases args@.len() - i,
    {
        host_args.push(args[i].clone());
        i = i + 1;
        proof {
            assert(host_args@ =~= args@.subrange(0, i as int));
        }
    }
    proof {
        assert(args@.subrange(0, args@.len() as int) =~= args@);
    }
    let mut env: Vec<(String, String)> = Vec::new();
    env.push((String::from_str("MODLOADER_ASAR_PATH"), String::from_str(archive_path)));
    env.push((String::from_str("LD_PRELOAD"), String::from_str(library_path)));
    Ok(Handoff { executable: profile.discord.executable.clone(), working_dir, env, args: host_args })
}

} // verus!
