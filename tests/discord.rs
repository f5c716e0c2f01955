use discord_modloader::discord::{
    file_name, get_discord_exe, is_build_dir_name, newest_build_exe, parse_build_version, DiscordExeError,
};

fn names(v: &[&str]) -> Vec<String> {
    v.iter().map(|s| s.to_string()).collect()
}

#[test]
fn newest_build_is_picked() {
    let entries = names(&["app-1.0.9023", "app-1.0.9100", "Update.exe", "packages", "app-1.0.9050"]);
    assert_eq!(
        newest_build_exe("/local/discordptb", &entries),
        Ok("/local/discordptb/app-1.0.9100/discordptb.exe".to_string())
    );
}

#[test]
fn unreadable_versions_are_skipped() {
    let entries = names(&["app-latest", "app-1.0.1"]);
    assert_eq!(newest_build_exe("/d/Discord", &entries), Ok("/d/Discord/app-1.0.1/Discord.exe".to_string()));
    assert_eq!(newest_build_exe("/d/Discord", &names(&["app-x"])), Err(DiscordExeError::NoParsableVersion));
}

#[test]
fn missing_builds_and_names() {
    assert_eq!(newest_build_exe("/d/Discord", &names(&["Update.exe"])), Err(DiscordExeError::NoVersions));
    assert_eq!(newest_build_exe("/d/Discord", &vec![]), Err(DiscordExeError::NoVersions));
    assert_eq!(newest_build_exe("/", &names(&["app-1.0"])), Err(DiscordExeError::NoExecutableName));
}

#[test]
fn versions_are_read_without_dots() {
    assert_eq!(parse_build_version("app-1.0.9023"), Some(109023));
    assert_eq!(parse_build_version("app-1.0.9023-beta"), Some(109023));
    assert_eq!(parse_build_version("app-"), None);
    assert_eq!(parse_build_version("app-..."), None);
    assert_eq!(parse_build_version("app-4294967295"), Some(4294967295));
    assert_eq!(parse_build_version("app-4294967296"), None);
    assert_eq!(parse_build_version("app"), None);
    assert!(is_build_dir_name("app-1"));
    assert!(!is_build_dir_name("ap"));
    assert_eq!(file_name("/a/b/Discord"), "Discord");
    assert_eq!(file_name("Discord"), "Discord");
}

#[test]
fn executable_must_exist() {
    let entries = names(&["app-1.0.1"]);
    assert_eq!(get_discord_exe("/d/Discord", &entries, true), Ok("/d/Discord/app-1.0.1/Discord.exe".to_string()));
    assert_eq!(get_discord_exe("/d/Discord", &entries, false), Err(DiscordExeError::ExecutableMissing));
    assert_eq!(get_discord_exe("/d/Discord", &names(&["x"]), true), Err(DiscordExeError::NoVersions));
}

#[test]
fn signed_versions_and_trailing_separators() {
    assert_eq!(parse_build_version("app-+1"), Some(1));
    assert_eq!(parse_build_version("app-.+1.2"), Some(12));
    assert_eq!(parse_build_version("app-1+2"), None);
    assert_eq!(parse_build_version("app-+"), None);
    assert_eq!(parse_build_version("app-++1"), None);
    assert_eq!(file_name("/a/b/Discord/"), "Discord");
    assert_eq!(newest_build_exe("/d/Discord/", &names(&["app-+2"])), Ok("/d/Discord/app-+2/Discord.exe".to_string()));
}
