//! The loader script handed to the host application, and the archive that carries it.
use vstd::prelude::*;

use crate::archive::{asar_finalize, asar_listing, asar_names, asar_new, asar_write_file, plain_name};
use crate::config::{default_require_script, Config, Mod, ModLoader, ModUpdater};
use crate::paths::Paths;
use crate::text::{join_path, opt_ref_view, opt_view, path_join, replaced, str_replace};

verus! {

/// The first line of every loader script.
pub open spec fn banner() -> Seq<char> {
    "console.log(\"Launching with Discord Modloader.\");\n"@
}

/// The snippet that moves the host's user data into an isolated profile directory.
pub open spec fn profile_snippet() -> Seq<char> {
    "const { app } = require(\"electron\");\napp.setPath(\"userData\", \"$PROFILE\");\nprocess.env.MODLOADER_MOD_ENTRYPOINT = \"$ENTRYPOINT\";\n"@
}

/// The manifest packed beside the loader script.
pub open spec fn manifest() -> Seq<char> {
    "{\"name\":\"discord\",\"main\":\"index.js\"}\n"@
}

/// A path as it is written inside a script string: each backslash doubled.
pub open spec fn escaped(s: Seq<char>) -> Seq<char> {
    replaced(s, "\\"@, "\\\\"@)
}

/// A script fragment with `$ENTRYPOINT` replaced by the entrypoint and, where there is an
/// isolated profile directory, `$PROFILE` replaced by it.
pub open spec fn substituted(t: Seq<char>, profile: Option<Seq<char>>, entry: Seq<char>) -> Seq<char> {
    let a = replaced(t, "$ENTRYPOINT"@, entry);
    match profile {
        Some(p) => replaced(a, "$PROFILE"@, p),
        None => a,
    }
}

/// The text of an optional fragment; a missing one is empty.
pub open spec fn opt_text(o: Option<String>) -> Seq<char> {
    match o {
        Some(s) => s@,
        None => Seq::empty(),
    }
}

/// The part of the loader that loads the mod: the mod's own prefix, require and suffix
/// fragments on lines of their own, or the built-in require script.
pub open spec fn loader_body(loader: Option<ModLoader>, profile: Option<Seq<char>>, entry: Seq<char>) -> Seq<char> {
    match loader {
        Some(l) => {
            let require = match l.require {
                Some(r) => r@,
                None => default_require_script(),
            };
            substituted(opt_text(l.prefix), profile, entry) + "\n"@ + substituted(require, profile, entry)
                + "\n"@ + substituted(opt_text(l.suffix), profile, entry)
        },
        None => substituted(default_require_script(), profile, entry),
    }
}

/// The profile snippet with `$PROFILE` replaced by the profile directory, then
/// `$ENTRYPOINT` by the entrypoint.
pub open spec fn isolation_snippet(profile: Seq<char>, entry: Seq<char>) -> Seq<char> {
    replaced(replaced(profile_snippet(), "$PROFILE"@, profile), "$ENTRYPOINT"@, entry)
}

/// The whole loader script: the banner, the profile snippet where the profile is isolated,
/// then the body.
pub open spec fn loader_script(loader: Option<ModLoader>, profile: Option<Seq<char>>, entry: Seq<char>) -> Seq<char> {
    let isolation = match profile {
        Some(p) => isolation_snippet(p, entry),
        None => Seq::empty(),
    };
    banner() + isolation + loader_body(loader, profile, entry)
}

/// Doubles each backslash of a path.
pub fn escape_path(s: &str) -> (r: String)
    ensures
        r@ == escaped(s@),
{
    proof {
        reveal_strlit("\\");
    }
    str_replace(s, "\\", "\\\\")
}

/// Substitutes the placeholders of a script fragment.
pub fn substitute(t: &str, profile: Option<&String>, entry: &str) -> (r: String)
    ensures
        r@ == substituted(t@, opt_ref_view(profile), entry@),
{
    proof {
        reveal_strlit("$ENTRYPOINT");
        reveal_strlit("$PROFILE");
    }
    let a = str_replace(t, "$ENTRYPOINT", entry);
    match profile {
        Some(p) => str_replace(a.as_str(), "$PROFILE", p.as_str()),
        None => a,
    }
}

/// Renders the loader script of a mod.
pub fn render_loader(loader: &Option<ModLoader>, profile: Option<&String>, entry: &str) -> (r: String)
    ensures
        r@ == loader_script(*loader, opt_ref_view(profile), entry@),
{
    let ghost pv = opt_ref_view(profile);
    let mut out = String::from_str("console.log(\"Launching with Discord Modloader.\");\n");
    let ghost after_banner = out@;
    if profile.is_some() {
        let dir = profile.unwrap();
        proof {
            reveal_strlit("$ENTRYPOINT");
            reveal_strlit("$PROFILE");
        }
        let with_profile = str_replace(
            "const { app } = require(\"electron\");\napp.setPath(\"userData\", \"$PROFILE\");\nprocess.env.MODLOADER_MOD_ENTRYPOINT = \"$ENTRYPOINT\";\n",
            "$PROFILE",
            dir.as_str(),
        );
        let snippet = str_replace(with_profile.as_str(), "$ENTRYPOINT", entry);
        out.append(snippet.as_str());
    }
    let ghost after_isolation = out@;
    let default_require = "require(\"$ENTRYPOINT\");\n";
    match loader {
        Some(l) => {
            let prefix = match &l.prefix {
                Some(p) => substitute(p.as_str(), profile, entry),
                None => substitute("", profile, entry),
            };
            let require = match &l.require {
                Some(q) => substitute(q.as_str(), profile, entry),
                None => substitute(default_require, profile, entry),
            };
            let suffix = match &l.suffix {
                Some(s) => substitute(s.as_str(), profile, entry),
                None => substitute("", profile, entry),
            };
            out.append(prefix.as_str());
            out.append("\n");
            out.append(require.as_str());
            out.append("\n");
            out.append(suffix.as_str());
            proof {
                reveal_strlit("");
                assert(""@ =~= Seq::<char>::empty());
                assert(out@ =~= loader_script(*loader, pv, entry@));
            }
        },
        None => {
            let body = substitute(default_require, profile, entry);
            out.append(body.as_str());
            proof {
                assert(out@ =~= loader_script(*loader, pv, entry@));
            }
        },
    }
    out
}

/// Why the archive of an instance cannot be built.
#[derive(Debug, Clone, PartialEq, Eq)]
pub enum CacheError {
    /// No profile has the given id.
    ProfileNotFound(String),
    /// The profile has no instance of the given id.
    InstanceNotFound(String),
    /// The instance names a mod that does not exist.
    ModNotFound(String),
    /// The mod, named here, has neither a path nor an updater.
    NoModSource(String),
}

/// Everything needed to build and hand over the archive of an instance.
#[derive(Debug, Clone)]
pub struct CachePlan {
    /// Id of the instance's mod.
    pub mod_id: String,
    /// Directory that holds the archive; it must exist before the archive is written.
    pub archive_dir: String,
    /// Where the archive goes.
    pub archive_path: String,
    /// The isolated profile directory to create, where the profile is isolated.
    pub profile_dir: Option<String>,
    /// The mod's entrypoint as written inside the script.
    pub entrypoint: String,
    /// The loader script.
    pub loader: String,
    /// The mod's updater, to be run before launching.
    pub updater: Option<ModUpdater>,
}

/// The directory a mod's files are loaded from: its own path, else its updater's output.
pub open spec fn mod_root(m: Mod, paths: Paths) -> Option<Seq<char>> {
    match m.path {
        Some(p) => Some(p@),
        None => match m.updater {
            Some(u) => Some(paths.spec_mod_files_dir(u.github_org@, u.github_repo@)),
            None => None,
        },
    }
}

/// `r` is the plan of instance `i` of profile `p`, or the error that stops it: the ids are
/// resolved profile, instance, then mod, and the mod needs a path or an updater.
pub open spec fn plan_matches(
    cfg: Config,
    paths: Paths,
    p: Seq<char>,
    i: Seq<char>,
    r: Result<CachePlan, CacheError>,
) -> bool {
    if !cfg.profiles@.dom().contains(p) {
        r matches Err(CacheError::ProfileNotFound(x)) && x@ == p
    } else if !cfg.profiles@[p].instances@.dom().contains(i) {
        r matches Err(CacheError::InstanceNotFound(x)) && x@ == i
    } else {
        let prof = cfg.profiles@[p];
        let inst = prof.instances@[i];
        if !cfg.mods@.dom().contains(inst.mod_id@) {
            r matches Err(CacheError::ModNotFound(x)) && x@ == inst.mod_id@
        } else {
            let m = cfg.mods@[inst.mod_id@];
            match mod_root(m, paths) {
                None => r matches Err(CacheError::NoModSource(x)) && x@ == m.name@,
                Some(root) => {
                    let pdir = if prof.profile.use_default_profile {
                        None
                    } else {
                        Some(paths.spec_profile_data_dir(p))
                    };
                    let script_profile = match pdir {
                        Some(d) => Some(escaped(d)),
                        None => None,
                    };
                    let entry = escaped(path_join(root, m.entrypoint@));
                    r matches Ok(plan) && {
                        &&& plan.mod_id@ == inst.mod_id@
                        &&& plan.archive_dir@ == paths.spec_asar_dir(p, i)
                        &&& plan.archive_path@ == paths.spec_asar_path(p, i, inst.mod_id@)
                        &&& opt_view(plan.profile_dir) == pdir
                        &&& plan.entrypoint@ == entry
                        &&& plan.loader@ == loader_script(m.loader, script_profile, entry)
                        &&& (plan.updater is Some <==> m.updater is Some)
                        &&& (plan.updater matches Some(u) ==> u.same_as(&m.updater.unwrap()))
                    }
                },
            }
        }
    }
}

/// Resolves instance `instance_id` of profile `profile_id` and works out its archive.
pub fn plan_instance_cache(cfg: &Config, paths: &Paths, profile_id: &str, instance_id: &str) -> (r:
    Result<CachePlan, CacheError>)
    ensures
        plan_matches(*cfg, *paths, profile_id@, instance_id@, r),
{
    let profile = match cfg.profiles.get(profile_id) {
        Some(p) => p,
        None => return Err(CacheError::ProfileNotFound(String::from_str(profile_id))),
    };
    let instance = match profile.instances.get(instance_id) {
        Some(i) => i,
        None => return Err(CacheError::InstanceNotFound(String::from_str(instance_id))),
    };
    let m = match cfg.mods.get(instance.mod_id.as_str()) {
        Some(m) => m,
        None => return Err(CacheError::ModNotFound(instance.mod_id.clone())),
    };
    let root = match &m.path {
        Some(p) => p.clone(),
        None => match &m.updater {
            Some(u) => paths.mod_files_dir(u.github_org.as_str(), u.github_repo.as_str()),
            None => return Err(CacheError::NoModSource(m.name.clone())),
        },
    };
    let profile_dir = if profile.profile.use_default_profile {
        None
    } else {
        Some(paths.profile_data_dir(profile_id))
    };
    let script_profile = match &profile_dir {
        Some(d) => Some(escape_path(d.as_str())),
        None => None,
    };
    let joined = join_path(root.as_str(), m.entrypoint.as_str());
    let entrypoint = escape_path(joined.as_str());
    let loader = render_loader(&m.loader, script_profile.as_ref(), entrypoint.as_str());
    let updater = match &m.updater {
        Some(u) => Some(u.clone()),
        None => None,
    };
    Ok(CachePlan {
        mod_id: instance.mod_id.clone(),
        archive_dir: paths.asar_dir(profile_id, instance_id),
        archive_path: paths.cache_asar_path(profile_id, instance_id, instance.mod_id.as_str()),
        profile_dir,
        entrypoint,
        loader,
        updater,
    })
}

/// The names of the two files of an instance archive.
pub open spec fn archive_entries() -> Set<Seq<char>> {
    set!["index.js"@, "package.json"@]
}

/// Packs a loader script and the manifest into an application archive. The archive lists
/// exactly `index.js` and `package.json`, and ends with the script's bytes followed by the
/// manifest's.
pub fn build_archive(loader: &str) -> (b: Vec<u8>)
    ensures
        asar_listing(b@) == archive_entries(),
        ({
            let tail = vstd::utf8::encode_utf8(loader@) + vstd::utf8::encode_utf8(manifest());
            &&& b@.len() >= 16 + tail.len()
            &&& b@.subrange(0, 4) == seq![4u8, 0u8, 0u8, 0u8]
            &&& b@.subrange(b@.len() - tail.len(), b@.len() as int) == tail
        }),
{
    let index_name = "index.js";
    let manifest_name = "package.json";
    let manifest_text = "{\"name\":\"discord\",\"main\":\"index.js\"}\n";
    proof {
        reveal_strlit("index.js");
        reveal_strlit("package.json");
        assert forall|k: int| 0 <= k < index_name@.len() implies index_name@[k] != '/'
            && index_name@[k] != '\\' && index_name@[k] != ':' by {
            assert(k == 0 || k == 1 || k == 2 || k == 3 || k == 4 || k == 5 || k == 6 || k == 7);
        }
        assert forall|k: int| 0 <= k < manifest_name@.len() implies manifest_name@[k] != '/'
            && manifest_name@[k] != '\\' && manifest_name@[k] != ':' by {
            assert(k == 0 || k == 1 || k == 2 || k == 3 || k == 4 || k == 5 || k == 6 || k == 7
                || k == 8 || k == 9 || k == 10 || k == 11);
        }
        assert(index_name@.len() == 8 && manifest_name@.len() == 12);
        assert(seq!['.'].len() == 1 && seq!['.', '.'].len() == 2);
        assert(index_name@ != seq!['.'] && index_name@ != seq!['.', '.']);
        assert(manifest_name@ != seq!['.'] && manifest_name@ != seq!['.', '.']);
        assert(plain_name(index_name@));
        assert(plain_name(manifest_name@));
        assert(index_name@ != manifest_name@) by {
            assert(index_name@.len() != manifest_name@.len());
        }
    }
    let mut w = asar_new();
    let first = asar_write_file(&mut w, index_name, loader);
    let second = asar_write_file(&mut w, manifest_name, manifest_text);
    proof {
        assert(first is Ok && second is Ok);
        assert(asar_names(w) =~= archive_entries());
        assert forall|n: Seq<char>| asar_names(w).contains(n) implies plain_name(n) by {
            assert(n == index_name@ || n == manifest_name@);
        }
    }
    match asar_finalize(w) {
        Ok(b) => b,
        Err(_) => vstd::pervasive::unreached(),
    }
}

/// Builds the archive of instance `instance_id` of profile `profile_id`: the plan that
/// `plan_instance_cache` gives, and the packed archive of its loader script. It fails
/// exactly where the plan does, with the same error.
pub fn create_instance_cache(cfg: &Config, paths: &Paths, profile_id: &str, instance_id: &str) -> (r:
    Result<(CachePlan, Vec<u8>), CacheError>)
    ensures
        r matches Ok((plan, b)) ==> {
            let tail = vstd::utf8::encode_utf8(plan.loader@) + vstd::utf8::encode_utf8(manifest());
            &&& plan_matches(*cfg, *paths, profile_id@, instance_id@, Ok(plan))
            &&& asar_listing(b@) == archive_entries()
            &&& b@.len() >= 16 + tail.len()
            &&& b@.subrange(b@.len() - tail.len(), b@.len() as int) == tail
        },
        r matches Err(e) ==> plan_matches(*cfg, *paths, profile_id@, instance_id@, Err(e)),
{
    let plan = match plan_instance_cache(cfg, paths, profile_id, instance_id) {
        Ok(p) => p,
        Err(e) => return Err(e),
    };
    let b = build_archive(plan.loader.as_str());
    Ok((plan, b))
}

} // verus!
