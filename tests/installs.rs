use discord_modloader::installs::{discord_candidates, discord_names, is_discord_dir, parse_discord_instance, str_ends_with};

#[test]
fn installation_folders_are_recognised() {
    assert_eq!(discord_names().len(), 15);
    assert!(is_discord_dir("discord-canary"));
    assert!(is_discord_dir("com.discordapp.DiscordPTB"));
    assert!(is_discord_dir("my-Discord"));
    assert!(!is_discord_dir("slack"));
    assert!(str_ends_with("abc", "bc"));
    assert!(!str_ends_with("c", "bc"));
}

#[test]
fn first_existing_executable_is_taken() {
    let c = discord_candidates("/opt/discord");
    assert_eq!(c[0], "/opt/discord/Discord");
    assert_eq!(c[14], "/opt/discord/com.discordapp.DiscordDevelopment");
    let mut exists = vec![false; 15];
    assert_eq!(parse_discord_instance("/opt/discord", &exists), None);
    exists[4] = true;
    exists[9] = true;
    assert_eq!(parse_discord_instance("/opt/discord", &exists), Some("/opt/discord/discord".to_string()));
    assert_eq!(parse_discord_instance("/opt/discord", &vec![]), None);
}
