use discord_modloader::config::{Config, Discord, DistFileType, Instance, Mod, ModUpdater, Profile, ProfileConfig};
use discord_modloader::display::{get_starred_profiles, starred_instances, GetIcon};
use discord_modloader::idmap::IdMap;

fn inst(name: &str, mod_id: &str, starred: bool) -> Instance {
    Instance { name: name.to_string(), icon: None, mod_id: mod_id.to_string(), starred }
}

fn updater_mod() -> Mod {
    Mod {
        name: "Moon".to_string(),
        path: None,
        entrypoint: "injector.js".to_string(),
        icon: None,
        loader: None,
        updater: Some(ModUpdater {
            github_org: "moonlight-mod".to_string(),
            github_repo: "moonlight".to_string(),
            dist_file_names: vec![],
            dist_file_type: DistFileType::TarGz,
            icon_url: None,
            ask_before_update: true,
            auto_update: true,
        }),
    }
}

#[test]
fn dangling_mod_resolves_to_placeholder() {
    let mods: IdMap<Mod> = IdMap::new();
    let i = inst("I", "deleted-mod", false);
    assert_eq!(i.display_mod(&mods), ("Unknown Mod".to_string(), "Unknown Mod".to_string()));
    assert_eq!(i.get_icon(&mods), None);
}

#[test]
fn known_mod_resolves_to_its_name() {
    let mut mods = IdMap::new();
    mods.insert("m".to_string(), updater_mod());
    let i = inst("I", "m", false);
    assert_eq!(i.display_mod(&mods), ("m".to_string(), "Moon".to_string()));
}

#[test]
fn icon_names_fall_back() {
    let mut mods = IdMap::new();
    mods.insert("m".to_string(), updater_mod());
    let mut i = inst("I", "m", false);
    assert_eq!(i.get_icon(&mods), Some("moonlight-mod/moonlight/icon.png".to_string()));
    i.icon = Some("mine.png".to_string());
    assert_eq!(i.get_icon(&mods), Some("mine.png".to_string()));
    let mut m = updater_mod();
    m.icon = Some("moon.png".to_string());
    assert_eq!(m.get_icon(&mods), Some("moon.png".to_string()));
    m.icon = None;
    m.updater = None;
    assert_eq!(m.get_icon(&mods), None);
}

#[test]
fn starred_profiles_in_order() {
    let mut cfg = Config::new();
    for (pid, stars) in [("p1", vec![false, true, true]), ("p2", vec![false]), ("p3", vec![true])] {
        let mut instances = IdMap::new();
        for (k, s) in stars.iter().enumerate() {
            instances.insert(format!("i{k}"), inst(&format!("{pid}-{k}"), "m", *s));
        }
        cfg.add_profile(
            pid,
            ProfileConfig {
                profile: Profile { name: pid.to_uppercase(), use_default_profile: true },
                instances,
                discord: Discord { executable: "/d".to_string(), args: String::new() },
            },
        );
    }
    let starred = get_starred_profiles(&cfg);
    assert_eq!(starred.len(), 2);
    assert_eq!(starred[0].0, "p1");
    assert_eq!(starred[0].1.name, "P1");
    let ids: Vec<&str> = starred[0].2.iter().map(|(id, _)| id.as_str()).collect();
    assert_eq!(ids, vec!["i1", "i2"]);
    assert_eq!(starred[1].0, "p3");
    assert_eq!(starred_instances(cfg.profiles.get("p2").unwrap()).len(), 0);
}
