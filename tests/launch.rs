use discord_modloader::config::{Config, Discord, Profile, ProfileConfig};
use discord_modloader::idmap::IdMap;
use discord_modloader::launch::{
    launch_detached_instance, launch_instance, parent_dir, plan_handoff, select_mode, LaunchError, Mode,
};
use discord_modloader::paths::Paths;

fn paths() -> Paths {
    Paths { config_root: "/c".to_string(), data_root: "/x".to_string(), cache_root: "/k".to_string() }
}

fn cfg(use_default_profile: bool) -> Config {
    let mut cfg = Config::new();
    cfg.add_profile(
        "p1",
        ProfileConfig {
            profile: Profile { name: "P".to_string(), use_default_profile },
            instances: IdMap::new(),
            discord: Discord { executable: "/opt/Discord/Discord".to_string(), args: String::new() },
        },
    );
    cfg
}

#[test]
fn launcher_arguments() {
    assert_eq!(launch_instance("p", "i", "--x"), vec!["--profile", "p", "--instance", "i", "--", "--x"]);
    assert_eq!(
        launch_detached_instance("p", "i", "", true),
        vec!["--profile", "p", "--instance", "i", "--force-update", "--", ""]
    );
}

#[test]
fn mode_needs_both_ids() {
    assert_eq!(
        select_mode(Some("p".to_string()), Some("i".to_string())),
        Mode::Headless { profile_id: "p".to_string(), instance_id: "i".to_string() }
    );
    assert_eq!(select_mode(Some("p".to_string()), None), Mode::Interactive);
    assert_eq!(select_mode(None, Some("i".to_string())), Mode::Interactive);
    assert_eq!(select_mode(None, None), Mode::Interactive);
}

#[test]
fn handoff_for_isolated_profile() {
    let h = plan_handoff(&cfg(false), &paths(), "p1", "/k/a.asar", "/lib/inject.so", &vec!["--a".to_string()]).unwrap();
    assert_eq!(h.executable, "/opt/Discord/Discord");
    assert_eq!(h.working_dir, "/x/profiles/p1");
    assert_eq!(h.args, vec!["--a"]);
    assert_eq!(
        h.env,
        vec![
            ("MODLOADER_ASAR_PATH".to_string(), "/k/a.asar".to_string()),
            ("LD_PRELOAD".to_string(), "/lib/inject.so".to_string())
        ]
    );
}

#[test]
fn handoff_for_shared_profile() {
    let h = plan_handoff(&cfg(true), &paths(), "p1", "/k/a.asar", "/lib/inject.so", &vec![]).unwrap();
    assert_eq!(h.working_dir, "/opt/Discord");
    assert!(h.args.is_empty());
    assert_eq!(
        plan_handoff(&cfg(true), &paths(), "nope", "a", "b", &vec![]).unwrap_err(),
        LaunchError::ProfileNotFound("nope".to_string())
    );
}

#[test]
fn parent_directories() {
    assert_eq!(parent_dir("/usr/bin/discord"), "/usr/bin");
    assert_eq!(parent_dir("/discord"), "/");
    assert_eq!(parent_dir("discord"), "");
    assert_eq!(parent_dir("/usr/bin/discord/"), "/usr/bin");
    assert_eq!(parent_dir("/usr//"), "/");
}
