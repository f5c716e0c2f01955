//! Telling which running processes belong to a profile, from their command lines.
use vstd::prelude::*;

use crate::config::ProfileConfig;
use crate::paths::Paths;
use crate::text::{contains, str_contains};

verus! {

/// A running process: its id and its arguments joined by single spaces.
#[derive(Debug, Clone, PartialEq, Eq)]
pub struct ProcessInfo {
    pub pid: u32,
    pub cmd: String,
}

/// The command-line argument that points the host at an isolated profile directory.
pub open spec fn user_data_arg(dir: Seq<char>) -> Seq<char> {
    "--user-data-dir="@ + dir
}

/// Whether a command line belongs to profile `profile_id`. An isolated profile owns the
/// processes started on its own data directory; a profile on the host's default data
/// owns the processes of its executable that run on no isolated directory.
pub open spec fn belongs_to_profile(
    cmd: Seq<char>,
    profile_id: Seq<char>,
    profile: ProfileConfig,
    paths: Paths,
) -> bool {
    if profile.profile.use_default_profile {
        !contains(cmd, paths.spec_data_profiles_dir()) && contains(cmd, profile.discord.executable@)
    } else {
        contains(cmd, user_data_arg(paths.spec_profile_data_dir(profile_id)))
    }
}

/// The ids of the processes of `procs` that belong to the profile, in order.
pub open spec fn matching_pids(
    procs: Seq<ProcessInfo>,
    profile_id: Seq<char>,
    profile: ProfileConfig,
    paths: Paths,
) -> Seq<u32>
    decreases procs.len(),
{
    if procs.len() == 0 {
        Seq::empty()
    } else {
        let prev = matching_pids(procs.drop_last(), profile_id, profile, paths);
        if belongs_to_profile(procs.last().cmd@, profile_id, profile, paths) {
            prev.push(procs.last().pid)
        } else {
            prev
        }
    }
}

/// Whether one command line belongs to the profile.
pub fn is_profile_process(cmd: &str, profile_id: &str, profile: &ProfileConfig, paths: &Paths) -> (r:
    bool)
    ensures
        r == belongs_to_profile(cmd@, profile_id@, *profile, *paths),
{
    if profile.profile.use_default_profile {
        let root = paths.data_profiles_dir();
        !str_contains(cmd, root.as_str()) && str_contains(cmd, profile.discord.executable.as_str())
    } else {
        let dir = paths.profile_data_dir(profile_id);
        let arg = String::from_str("--user-data-dir=").concat(dir.as_str());
        str_contains(cmd, arg.as_str())
    }
}

/// The ids of the running processes that belong to profile `profile_id`, in the order
/// of `processes`.
pub fn find_running_instances(
    profile_id: &str,
    profile: &ProfileConfig,
    paths: &Paths,
    processes: &Vec<ProcessInfo>,
) -> (r: Vec<u32>)
    ensures
        r@ == matching_pids(processes@, profile_id@, *profile, *paths),
{
    let mut out: Vec<u32> = Vec::new();
    let mut i: usize = 0;
    while i < processes.len()
        invariant
            i <= processes@.len(),
            out@ == matching_pids(processes@.subrange(0, i as int), profile_id@, *profile, *paths),
        decreases processes@.len() - i,
    {
        proof {
            assert(processes@.subrange(0, i + 1).drop_last() =~= processes@.subrange(0, i as int));
        }
        if is_profile_process(processes[i].cmd.as_str(), profile_id, profile, paths) {
            out.push(processes[i].pid);
        }
        i = i + 1;
    }
    proof {
        assert(processes@.subrange(0, processes@.len() as int) =~= processes@);
    }
    out
}

/// The ids that `matching_pids` gives are those of the processes that belong to the
/// profile.
pub proof fn lemma_matching_pids_members(
    procs: Seq<ProcessInfo>,
    profile_id: Seq<char>,
    profile: ProfileConfig,
    paths: Paths,
)
    ensures
        forall|i: int|
            0 <= i < procs.len() && belongs_to_profile(procs[i].cmd@, profile_id, profile, paths)
                ==> matching_pids(procs, profile_id, profile, paths).contains(procs[i].pid),
        forall|x: u32|
            matching_pids(procs, profile_id, profile, paths).contains(x) ==> exists|i: int|
                0 <= i < procs.len() && procs[i].pid == x && belongs_to_profile(
                    procs[i].cmd@,
                    profile_id,
                    profile,
                    paths,
                ),
    decreases procs.len(),
{
    if procs.len() > 0 {
        let pre = procs.drop_last();
        lemma_matching_pids_members(pre, profile_id, profile, paths);
        let prev = matching_pids(pre, profile_id, profile, paths);
        let cur = matching_pids(procs, profile_id, profile, paths);
        assert forall|i: int|
            0 <= i < procs.len() && belongs_to_profile(procs[i].cmd@, profile_id, profile, paths)
                implies cur.contains(procs[i].pid) by {
            if i < procs.len() - 1 {
                assert(pre[i] == procs[i]);
                let j = choose|j: int| 0 <= j < prev.len() && prev[j] == procs[i].pid;
                assert(cur[j] == prev[j]);
            } else {
                assert(cur[cur.len() - 1] == procs[i].pid);
            }
        }
        assert forall|x: u32| cur.contains(x) implies exists|i: int|
            0 <= i < procs.len() && procs[i].pid == x && belongs_to_profile(
                procs[i].cmd@,
                profile_id,
                profile,
                paths,
            ) by {
            let j = choose|j: int| 0 <= j < cur.len() && cur[j] == x;
            if j < prev.len() {
                assert(prev[j] == x);
                assert(prev.contains(x));
                let i = choose|i: int|
                    0 <= i < pre.len() && pre[i].pid == x && belongs_to_profile(
                        pre[i].cmd@,
                        profile_id,
                        profile,
                        paths,
                    );
                assert(procs[i] == pre[i]);
            } else {
                assert(procs[procs.len() - 1].pid == x);
            }
        }
    }
}

/// For a profile with its own isolated directory, a listed process is reported exactly
/// when its command line holds `--user-data-dir=` followed by that directory.
pub proof fn lemma_isolated_profile_match(
    procs: Seq<ProcessInfo>,
    profile_id: Seq<char>,
    profile: ProfileConfig,
    paths: Paths,
)
    requires
        !profile.profile.use_default_profile,
    ensures
        forall|i: int|
            0 <= i < procs.len() && contains(
                procs[i].cmd@,
                user_data_arg(paths.spec_profile_data_dir(profile_id)),
            ) ==> matching_pids(procs, profile_id, profile, paths).contains(procs[i].pid),
        forall|x: u32|
            matching_pids(procs, profile_id, profile, paths).contains(x) ==> exists|i: int|
                0 <= i < procs.len() && procs[i].pid == x && contains(
                    procs[i].cmd@,
                    user_data_arg(paths.spec_profile_data_dir(profile_id)),
                ),
{
    lemma_matching_pids_members(procs, profile_id, profile, paths);
}

} // verus!
