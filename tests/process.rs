use discord_modloader::config::{Discord, Profile, ProfileConfig};
use discord_modloader::idmap::IdMap;
use discord_modloader::paths::Paths;
use discord_modloader::process::{find_running_instances, is_profile_process, ProcessInfo};

fn paths() -> Paths {
    Paths { config_root: "/c".to_string(), data_root: "/x".to_string(), cache_root: "/k".to_string() }
}

fn profile(use_default_profile: bool) -> ProfileConfig {
    ProfileConfig {
        profile: Profile { name: "P".to_string(), use_default_profile },
        instances: IdMap::new(),
        discord: Discord { executable: "/opt/Discord/Discord".to_string(), args: String::new() },
    }
}

fn proc(pid: u32, cmd: &str) -> ProcessInfo {
    ProcessInfo { pid, cmd: cmd.to_string() }
}

#[test]
fn two_isolated_processes_match_their_own_profile() {
    let procs = vec![
        proc(101, "/opt/Discord/Discord --user-data-dir=/x/profiles/p1"),
        proc(102, "/opt/Discord/Discord --user-data-dir=/x/profiles/p2"),
    ];
    assert_eq!(find_running_instances("p1", &profile(false), &paths(), &procs), vec![101]);
    assert_eq!(find_running_instances("p2", &profile(false), &paths(), &procs), vec![102]);
}

#[test]
fn isolated_match_requires_the_argument() {
    let procs = vec![
        proc(1, "/opt/Discord/Discord /x/profiles/p1"),
        proc(2, "something --user-data-dir=/x/profiles/p1 --foo"),
        proc(3, ""),
    ];
    assert_eq!(find_running_instances("p1", &profile(false), &paths(), &procs), vec![2]);
}

#[test]
fn shared_profile_excludes_isolated_instances() {
    let procs = vec![
        proc(7, "/opt/Discord/Discord --user-data-dir=/x/profiles/p1"),
        proc(8, "/opt/Discord/Discord --type=renderer"),
        proc(9, "/usr/bin/other"),
    ];
    assert_eq!(find_running_instances("p0", &profile(true), &paths(), &procs), vec![8]);
    assert!(is_profile_process("/opt/Discord/Discord", "p0", &profile(true), &paths()));
    assert!(!is_profile_process("/usr/bin/other", "p0", &profile(true), &paths()));
}

#[test]
fn no_processes_no_matches() {
    assert!(find_running_instances("p1", &profile(false), &paths(), &vec![]).is_empty());
}
