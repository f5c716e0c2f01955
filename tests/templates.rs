use discord_modloader::config::DistFileType;
use discord_modloader::paths::Paths;
use discord_modloader::templates::{ModTemplateIcon, ModTemplates};
use discord_modloader::theme::ThemeDef;

#[test]
fn built_in_templates() {
    let all = ModTemplates::get_all();
    assert_eq!(all.len(), 3);
    assert_eq!(all[0], ModTemplates::blank());
    assert_eq!(all[0].config.name, "New Blank Template");
    assert_eq!(all[0].icon, Some(ModTemplateIcon::Svg("plus.svg".to_string())));
    let moon = ModTemplates::moonlight();
    let u = moon.config.updater.as_ref().unwrap();
    assert_eq!(u.dist_file_type, DistFileType::TarGz);
    assert_eq!(u.dist_file_names, vec!["dist.tar.gz"]);
    assert_eq!(moon.support_link.as_deref(), Some("https://moonlight-mod.github.io"));
    let ven = ModTemplates::vencord();
    assert_eq!(ven.config.entrypoint, "patcher.js");
    let u = ven.config.updater.as_ref().unwrap();
    assert_eq!(u.dist_file_names, vec!["patcher.js", "preload.js", "renderer.js", "renderer.css"]);
    assert_eq!(u.github_org, "vendicated");
    assert!(u.ask_before_update && u.auto_update);
}

#[test]
fn dark_theme() {
    let t = ThemeDef::dark();
    assert_eq!(t.bg_primary, "rgb(46, 46, 52)");
    assert_eq!(t.star_yellow, "rgb(255, 172, 51)");
}

#[test]
fn derived_paths() {
    let p = Paths { config_root: "/c/".to_string(), data_root: "/d".to_string(), cache_root: "/k".to_string() };
    assert_eq!(p.config_profile_dir(), "/c/profiles");
    assert_eq!(p.config_mods_dir(), "/c/mods");
    assert_eq!(p.settings_file(), "/c/settings.toml");
    assert_eq!(p.profile_data_dir("p"), "/d/profiles/p");
    assert_eq!(p.mod_metadata_dir("o", "r"), "/k/metadata/o/r");
    assert_eq!(p.mod_files_dir("o", "r"), "/k/mods/o/r");
    assert_eq!(discord_modloader::text::join_path("/a", "/abs"), "/abs");
    assert_eq!(discord_modloader::text::join_path("", "x"), "x");
}
