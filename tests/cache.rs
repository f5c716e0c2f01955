use discord_modloader::cache::{
    build_archive, create_instance_cache, escape_path, plan_instance_cache, render_loader,
    substitute, CacheError,
};
use discord_modloader::config::{
    Config, Discord, DistFileType, Instance, Mod, ModLoader, ModUpdater, Profile, ProfileConfig,
};
use discord_modloader::idmap::IdMap;
use discord_modloader::paths::Paths;

fn paths() -> Paths {
    Paths {
        config_root: "/home/u/.config/discord-modloader".to_string(),
        data_root: "/home/u/.local/share/discord-modloader".to_string(),
        cache_root: "/home/u/.cache/discord-modloader".to_string(),
    }
}

fn instance(mod_id: &str) -> Instance {
    Instance { name: "Instance".to_string(), icon: None, mod_id: mod_id.to_string(), starred: false }
}

fn local_mod() -> Mod {
    Mod {
        name: "Local".to_string(),
        path: Some("/opt/mod".to_string()),
        entrypoint: "injector.js".to_string(),
        icon: None,
        loader: None,
        updater: None,
    }
}

fn config(use_default_profile: bool, m: Mod) -> Config {
    let mut instances = IdMap::new();
    instances.insert("i1".to_string(), instance("m1"));
    let profile = ProfileConfig {
        profile: Profile { name: "P1".to_string(), use_default_profile },
        instances,
        discord: Discord { executable: "/usr/bin/discord".to_string(), args: String::new() },
    };
    let mut cfg = Config::new();
    cfg.add_profile("p1", profile);
    cfg.add_mod("m1", m);
    cfg
}

#[test]
fn shared_profile_loader_requires_entrypoint() {
    let cfg = config(true, local_mod());
    let plan = plan_instance_cache(&cfg, &paths(), "p1", "i1").unwrap();
    assert!(plan.loader.contains("require(\"/opt/mod/injector.js\")"));
    assert!(!plan.loader.contains("userData"));
    assert!(!plan.loader.contains("$PROFILE"));
    assert!(plan.loader.starts_with("console.log(\"Launching with Discord Modloader.\");\n"));
    assert_eq!(plan.profile_dir, None);
    assert_eq!(plan.entrypoint, "/opt/mod/injector.js");
    assert_eq!(plan.mod_id, "m1");
    assert_eq!(
        plan.archive_path,
        "/home/u/.cache/discord-modloader/asar/p1/i1/m1.asar"
    );
    assert_eq!(plan.archive_dir, "/home/u/.cache/discord-modloader/asar/p1/i1");
    assert!(plan.updater.is_none());
}

#[test]
fn isolated_profile_loader_substitutes_profile() {
    let cfg = config(false, local_mod());
    let plan = plan_instance_cache(&cfg, &paths(), "p1", "i1").unwrap();
    let dir = "/home/u/.local/share/discord-modloader/profiles/p1";
    assert_eq!(plan.profile_dir.as_deref(), Some(dir));
    assert!(plan.loader.contains(&format!("app.setPath(\"userData\", \"{dir}\");")));
    assert!(plan.loader.contains("MODLOADER_MOD_ENTRYPOINT = \"/opt/mod/injector.js\""));
    assert!(!plan.loader.contains("$PROFILE"));
    assert!(!plan.loader.contains("$ENTRYPOINT"));
    assert!(plan.loader.contains("require(\"/opt/mod/injector.js\")"));
}

#[test]
fn exact_loader_without_override() {
    let cfg = config(true, local_mod());
    let plan = plan_instance_cache(&cfg, &paths(), "p1", "i1").unwrap();
    assert_eq!(
        plan.loader,
        "console.log(\"Launching with Discord Modloader.\");\nrequire(\"/opt/mod/injector.js\");\n"
    );
}

#[test]
fn custom_loader_fragments_are_joined_and_substituted() {
    let mut m = local_mod();
    m.loader = Some(ModLoader {
        prefix: Some("// before $ENTRYPOINT".to_string()),
        require: None,
        suffix: Some("// after $PROFILE".to_string()),
    });
    let cfg = config(false, m);
    let plan = plan_instance_cache(&cfg, &paths(), "p1", "i1").unwrap();
    assert!(plan.loader.ends_with(
        "// before /opt/mod/injector.js\nrequire(\"/opt/mod/injector.js\");\n\n// after /home/u/.local/share/discord-modloader/profiles/p1"
    ));
}

#[test]
fn custom_require_replaces_default() {
    let mut m = local_mod();
    m.loader = Some(ModLoader { prefix: None, require: Some("load('$ENTRYPOINT')".to_string()), suffix: None });
    let cfg = config(true, m);
    let plan = plan_instance_cache(&cfg, &paths(), "p1", "i1").unwrap();
    assert_eq!(
        plan.loader,
        "console.log(\"Launching with Discord Modloader.\");\n\nload('/opt/mod/injector.js')\n"
    );
}

#[test]
fn updater_mod_loads_from_update_cache() {
    let mut m = local_mod();
    m.path = None;
    m.updater = Some(ModUpdater {
        github_org: "moonlight-mod".to_string(),
        github_repo: "moonlight".to_string(),
        dist_file_names: vec!["dist.tar.gz".to_string()],
        dist_file_type: DistFileType::TarGz,
        icon_url: None,
        ask_before_update: false,
        auto_update: true,
    });
    let cfg = config(true, m);
    let plan = plan_instance_cache(&cfg, &paths(), "p1", "i1").unwrap();
    assert_eq!(
        plan.entrypoint,
        "/home/u/.cache/discord-modloader/mods/moonlight-mod/moonlight/injector.js"
    );
    assert_eq!(plan.updater.unwrap().github_repo, "moonlight");
}

#[test]
fn missing_ids_are_errors() {
    let cfg = config(true, local_mod());
    assert_eq!(
        plan_instance_cache(&cfg, &paths(), "nope", "i1").unwrap_err(),
        CacheError::ProfileNotFound("nope".to_string())
    );
    assert_eq!(
        plan_instance_cache(&cfg, &paths(), "p1", "nope").unwrap_err(),
        CacheError::InstanceNotFound("nope".to_string())
    );
    let mut cfg = config(true, local_mod());
    cfg.remove_mod("m1");
    assert_eq!(
        plan_instance_cache(&cfg, &paths(), "p1", "i1").unwrap_err(),
        CacheError::ModNotFound("m1".to_string())
    );
}

#[test]
fn mod_without_source_is_error() {
    let mut m = local_mod();
    m.path = None;
    let cfg = config(true, m);
    assert_eq!(
        create_instance_cache(&cfg, &paths(), "p1", "i1").unwrap_err(),
        CacheError::NoModSource("Local".to_string())
    );
}

#[test]
fn archive_ends_with_script_and_manifest() {
    let bytes = build_archive("require(\"x\");\n");
    assert_eq!(&bytes[0..4], &[4, 0, 0, 0]);
    let tail = b"require(\"x\");\n{\"name\":\"discord\",\"main\":\"index.js\"}\n";
    assert!(bytes.len() >= 16 + tail.len());
    assert!(bytes.ends_with(tail));
    let header = String::from_utf8_lossy(&bytes[16..bytes.len() - tail.len()]).to_string();
    assert!(header.contains("index.js"));
    assert!(header.contains("package.json"));
}

#[test]
fn archive_lists_exactly_script_and_manifest() {
    let bytes = build_archive("require(\"y\");\n");
    let reader = asar::AsarReader::new(&bytes, None).unwrap();
    let names: Vec<String> = reader.files().keys().map(|p| p.to_string_lossy().to_string()).collect();
    assert_eq!(names, vec!["index.js", "package.json"]);
    let index = reader.files().get(std::path::Path::new("index.js")).unwrap();
    assert_eq!(index.data(), b"require(\"y\");\n");
    let manifest = reader.files().get(std::path::Path::new("package.json")).unwrap();
    assert_eq!(manifest.data(), b"{\"name\":\"discord\",\"main\":\"index.js\"}\n");
}

#[test]
fn snippet_substitutes_profile_before_entrypoint() {
    let p = "/p/$ENTRYPOINT".to_string();
    let s = render_loader(&None, Some(&p), "/m.js");
    assert!(s.contains("app.setPath(\"userData\", \"/p//m.js\");"));
}

#[test]
fn create_instance_cache_packs_the_plan() {
    let cfg = config(false, local_mod());
    let (plan, bytes) = create_instance_cache(&cfg, &paths(), "p1", "i1").unwrap();
    let mut tail = plan.loader.as_bytes().to_vec();
    tail.extend_from_slice(b"{\"name\":\"discord\",\"main\":\"index.js\"}\n");
    assert!(bytes.ends_with(&tail));
}

#[test]
fn backslashes_are_doubled() {
    assert_eq!(escape_path("C:\\mods\\x.js"), "C:\\\\mods\\\\x.js");
    assert_eq!(escape_path("/plain"), "/plain");
}

#[test]
fn substitution_without_profile_keeps_profile_placeholder() {
    assert_eq!(substitute("$PROFILE:$ENTRYPOINT", None, "e"), "$PROFILE:e");
    let p = "d".to_string();
    assert_eq!(substitute("$PROFILE:$ENTRYPOINT:$ENTRYPOINT", Some(&p), "e"), "d:e:e");
}

#[test]
fn render_loader_with_profile_adds_snippet() {
    let p = "/data/p".to_string();
    let s = render_loader(&None, Some(&p), "/m/i.js");
    assert_eq!(
        s,
        "console.log(\"Launching with Discord Modloader.\");\nconst { app } = require(\"electron\");\napp.setPath(\"userData\", \"/data/p\");\nprocess.env.MODLOADER_MOD_ENTRYPOINT = \"/m/i.js\";\nrequire(\"/m/i.js\");\n"
    );
}
