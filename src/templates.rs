//! Ready-made mod records that a new mod can start from.
use vstd::prelude::*;

use crate::config::{DistFileType, Mod, ModUpdater};
use crate::launch::views;
use crate::text::opt_view;

verus! {

/// The picture of a template, named by its asset file.
#[derive(Debug, Clone, PartialEq, Eq)]
pub enum ModTemplateIcon {
    Svg(String),
    Image(String),
}

/// A mod record to start from, with its picture and support page.
#[derive(Debug, Clone, PartialEq, Eq)]
pub struct ModTemplate {
    pub config: Mod,
    pub icon: Option<ModTemplateIcon>,
    pub support_link: Option<String>,
}

/// The built-in templates.
pub struct ModTemplates;

/// `t` describes a mod of this name and entrypoint, with neither a path, an icon nor a
/// loader of its own.
pub open spec fn plain_mod(t: ModTemplate, name: Seq<char>, entrypoint: Seq<char>) -> bool {
    &&& t.config.name@ == name
    &&& t.config.entrypoint@ == entrypoint
    &&& t.config.path is None
    &&& t.config.icon is None
    &&& t.config.loader is None
}

/// `t` updates from this repository's releases, asking first and updating automatically.
pub open spec fn updates_from(
    t: ModTemplate,
    org: Seq<char>,
    repo: Seq<char>,
    files: Seq<Seq<char>>,
    kind: DistFileType,
    icon_url: Seq<char>,
) -> bool {
    t.config.updater matches Some(u) && {
        &&& u.github_org@ == org
        &&& u.github_repo@ == repo
        &&& views(u.dist_file_names@) == files
        &&& u.dist_file_type == kind
        &&& opt_view(u.icon_url) == Some(icon_url)
        &&& u.ask_before_update
        &&& u.auto_update
    }
}

/// The picture named by `t`.
pub open spec fn icon_name(t: ModTemplate) -> Option<(bool, Seq<char>)> {
    match t.icon {
        Some(ModTemplateIcon::Svg(s)) => Some((true, s@)),
        Some(ModTemplateIcon::Image(s)) => Some((false, s@)),
        None => None,
    }
}

impl ModTemplates {
    /// Every template: blank, then moonlight, then vencord.
    pub fn get_all() -> (r: Vec<ModTemplate>)
        ensures
            r@.len() == 3,
            plain_mod(r@[0], "New Blank Template"@, "injector.js"@) && r@[0].config.updater is None,
            plain_mod(r@[1], "New Moonlight Template"@, "injector.js"@),
            plain_mod(r@[2], "New Vencord Template"@, "patcher.js"@),
            updates_from(
                r@[1],
                "moonlight-mod"@,
                "moonlight"@,
                seq!["dist.tar.gz"@],
                DistFileType::TarGz,
                "https://raw.githubusercontent.com/moonlight-mod/moonlight-mod.github.io/main/src/img/logo.png"@,
            ),
            updates_from(
                r@[2],
                "vendicated"@,
                "vencord"@,
                seq!["patcher.js"@, "preload.js"@, "renderer.js"@, "renderer.css"@],
                DistFileType::Raw,
                "https://raw.githubusercontent.com/Vencord/Vesktop/main/static/icon.png"@,
            ),
            icon_name(r@[0]) == Some((true, "plus.svg"@)) && r@[0].support_link is None,
            icon_name(r@[1]) == Some((false, "moonlight.png"@)) && opt_view(r@[1].support_link)
                == Some("https://moonlight-mod.github.io"@),
            icon_name(r@[2]) == Some((false, "vencord.png"@)) && opt_view(r@[2].support_link)
                == Some("https://vencord.dev"@),
    {
        let mut r = Vec::new();
        r.push(Self::blank());
        r.push(Self::moonlight());
        r.push(Self::vencord());
        r
    }

    /// A mod with no files and no updater yet.
    pub fn blank() -> (r: ModTemplate)
        ensures
            plain_mod(r, "New Blank Template"@, "injector.js"@),
            r.config.updater is None,
            icon_name(r) == Some((true, "plus.svg"@)),
            r.support_link is None,
    {
        ModTemplate {
            config: Mod {
                name: String::from_str("New Blank Template"),
                path: None,
                entrypoint: String::from_str("injector.js"),
                icon: None,
                loader: None,
                updater: None,
            },
            icon: Some(ModTemplateIcon::Svg(String::from_str("plus.svg"))),
            support_link: None,
        }
    }

    /// Moonlight, installed from its release archive.
    pub fn moonlight() -> (r: ModTemplate)
        ensures
            plain_mod(r, "New Moonlight Template"@, "injector.js"@),
            updates_from(
                r,
                "moonlight-mod"@,
                "moonlight"@,
                seq!["dist.tar.gz"@],
                DistFileType::TarGz,
                "https://raw.githubusercontent.com/moonlight-mod/moonlight-mod.github.io/main/src/img/logo.png"@,
            ),
            icon_name(r) == Some((false, "moonlight.png"@)),
            opt_view(r.support_link) == Some("https://moonlight-mod.github.io"@),
    {
        let mut files: Vec<String> = Vec::new();
        files.push(String::from_str("dist.tar.gz"));
        proof {
            assert(views(files@) =~= seq!["dist.tar.gz"@]);
        }
        ModTemplate {
            config: Mod {
                name: String::from_str("New Moonlight Template"),
                path: None,
                entrypoint: String::from_str("injector.js"),
                icon: None,
                loader: None,
                updater: Some(
                    ModUpdater {
                        github_org: String::from_str("moonlight-mod"),
                        github_repo: String::from_str("moonlight"),
                        dist_file_names: files,
                        dist_file_type: DistFileType::TarGz,
                        icon_url: Some(
                            String::from_str(
                                "https://raw.githubusercontent.com/moonlight-mod/moonlight-mod.github.io/main/src/img/logo.png",
                            ),
                        ),
                        ask_before_update: true,
                        auto_update: true,
                    },
                ),
            },
            icon: Some(ModTemplateIcon::Image(String::from_str("moonlight.png"))),
            support_link: Some(String::from_str("https://moonlight-mod.github.io")),
        }
    }

    /// Vencord, installed file by file.
    pub fn vencord() -> (r: ModTemplate)
        ensures
            plain_mod(r, "New Vencord Template"@, "patcher.js"@),
            updates_from(
                r,
                "vendicated"@,
                "vencord"@,
                seq!["patcher.js"@, "preload.js"@, "renderer.js"@, "renderer.css"@],
                DistFileType::Raw,
                "https://raw.githubusercontent.com/Vencord/Vesktop/main/static/icon.png"@,
            ),
            icon_name(r) == Some((false, "vencord.png"@)),
            opt_view(r.support_link) == Some("https://vencord.dev"@),
    {
        let mut files: Vec<String> = Vec::new();
        files.push(String::from_str("patcher.js"));
        files.push(String::from_str("preload.js"));
        files.push(String::from_str("renderer.js"));
        files.push(String::from_str("renderer.css"));
        proof {
            assert(views(files@) =~= seq!["patcher.js"@, "preload.js"@, "renderer.js"@, "renderer.css"@]);
        }
        ModTemplate {
            config: Mod {
                name: String::from_str("New Vencord Template"),
                path: None,
                entrypoint: String::from_str("patcher.js"),
                icon: None,
                loader: None,
                updater: Some(
                    ModUpdater {
                        github_org: String::from_str("vendicated"),
                        github_repo: String::from_str("vencord"),
                        dist_file_names: files,
                        dist_file_type: DistFileType::Raw,
                        icon_url: Some(
                            String::from_str(
                                "https://raw.githubusercontent.com/Vencord/Vesktop/main/static/icon.png",
                            ),
                        ),
                        ask_before_update: true,
                        auto_update: true,
                    },
                ),
            },
            icon: Some(ModTemplateIcon::Image(String::from_str("vencord.png"))),
            support_link: Some(String::from_str("https://vencord.dev")),
        }
    }
}

} // verus!
