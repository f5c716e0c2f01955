//! The durable records: profiles, mods, their instances, and settings, and how the
//! in-memory copy is rebuilt from the record files on disk.
use vstd::prelude::*;

use crate::idmap::IdMap;

verus! {

/// A profile-scoped binding of a display name and icon to a mod.
#[derive(Debug, PartialEq, Eq)]
pub struct Instance {
    /// Display name of the instance.
    pub name: String,
    /// Icon override.
    pub icon: Option<String>,
    /// Id of the mod this instance runs; it may name no known mod.
    pub mod_id: String,
    /// Starred instances are surfaced on the home screen.
    pub starred: bool,
}

impl Clone for Instance {
    fn clone(&self) -> (r: Self)
        ensures
            r == *self,
    {
        Instance {
            name: self.name.clone(),
            icon: self.icon.clone(),
            mod_id: self.mod_id.clone(),
            starred: self.starred,
        }
    }
}

/// The file wrapper of a mod record: a single `mod` table.
#[derive(Debug, Clone, PartialEq, Eq)]
pub struct ModConfig {
    pub mod_: Mod,
}

/// A patch bundle: an entrypoint script plus either local files or a remote updater.
#[derive(Debug, Clone, PartialEq, Eq, Hash)]
pub struct Mod {
    /// Display name of the mod.
    pub name: String,
    /// Directory holding the mod's prebuilt files; without it the updater's output is used.
    pub path: Option<String>,
    /// File name of the script to load, relative to the mod's directory.
    pub entrypoint: String,
    /// Icon of the mod.
    pub icon: Option<String>,
    /// Custom loader script fragments.
    pub loader: Option<ModLoader>,
    /// Where updates of the mod come from.
    pub updater: Option<ModUpdater>,
}

/// A remote release registry source of a mod's files.
#[derive(Debug, PartialEq, Eq, Hash)]
pub struct ModUpdater {
    pub github_org: String,
    pub github_repo: String,
    /// The release assets to fetch.
    pub dist_file_names: Vec<String>,
    /// How each asset is installed.
    pub dist_file_type: DistFileType,
    pub icon_url: Option<String>,
    /// Ask before applying an available update.
    pub ask_before_update: bool,
    /// Whether updates are applied automatically.
    pub auto_update: bool,
}

/// Copies a list of strings.
fn clone_strings(v: &Vec<String>) -> (r: Vec<String>)
    ensures
        r@ == v@,
{
    let mut r: Vec<String> = Vec::new();
    let mut i: usize = 0;
    while i < v.len()
        invariant
            i <= v@.len(),
            r@ == v@.subrange(0, i as int),
        decreases v@.len() - i,
    {
        r.push(v[i].clone());
        i = i + 1;
        proof {
            assert(r@ =~= v@.subrange(0, i as int));
        }
    }
    proof {
        assert(r@ =~= v@);
    }
    r
}

impl ModUpdater {
    /// The two updaters hold the same values.
    pub open spec fn same_as(&self, o: &ModUpdater) -> bool {
        &&& self.github_org == o.github_org
        &&& self.github_repo == o.github_repo
        &&& self.dist_file_names@ == o.dist_file_names@
        &&& self.dist_file_type == o.dist_file_type
        &&& self.icon_url == o.icon_url
        &&& self.ask_before_update == o.ask_before_update
        &&& self.auto_update == o.auto_update
    }
}

impl Clone for ModUpdater {
    fn clone(&self) -> (r: Self)
        ensures
            r.same_as(self),
    {
        ModUpdater {
            github_org: self.github_org.clone(),
            github_repo: self.github_repo.clone(),
            dist_file_names: clone_strings(&self.dist_file_names),
            dist_file_type: self.dist_file_type,
            icon_url: self.icon_url.clone(),
            ask_before_update: self.ask_before_update,
            auto_update: self.auto_update,
        }
    }
}

/// The kind of a release asset.
#[derive(Debug, Clone, Copy, PartialEq, Eq, Structural, Hash)]
pub enum DistFileType {
    /// Written byte for byte under its own name.
    Raw,
    /// A gzip-compressed tar archive, unpacked whole.
    TarGz,
    /// A zip archive, unpacked whole.
    Zip,
}

impl DistFileType {
    /// Every kind, in declaration order.
    pub fn all() -> (r: Vec<DistFileType>)
        ensures
            r@ == seq![DistFileType::Raw, DistFileType::TarGz, DistFileType::Zip],
    {
        let mut r = Vec::new();
        r.push(DistFileType::Raw);
        r.push(DistFileType::TarGz);
        r.push(DistFileType::Zip);
        proof {
            assert(r@ =~= seq![DistFileType::Raw, DistFileType::TarGz, DistFileType::Zip]);
        }
        r
    }

    /// The human-readable name of the kind.
    pub fn label(&self) -> (r: &'static str)
        ensures
            r@ == match *self {
                DistFileType::Raw => "plain file"@,
                DistFileType::TarGz => "tar.gz"@,
                DistFileType::Zip => "zip"@,
            },
    {
        match self {
            DistFileType::Raw => "plain file",
            DistFileType::TarGz => "tar.gz",
            DistFileType::Zip => "zip",
        }
    }
}

/// The loader script built into the library: it requires the entrypoint.
pub open spec fn default_require_script() -> Seq<char> {
    "require(\"$ENTRYPOINT\");\n"@
}

/// Custom script fragments of a mod's loader. `$PROFILE` stands for the isolated
/// profile directory and `$ENTRYPOINT` for the mod's entrypoint.
#[derive(Debug, PartialEq, Eq, Hash)]
pub struct ModLoader {
    pub prefix: Option<String>,
    pub require: Option<String>,
    pub suffix: Option<String>,
}

impl Clone for ModLoader {
    fn clone(&self) -> (r: Self)
        ensures
            r == *self,
    {
        ModLoader {
            prefix: self.prefix.clone(),
            require: self.require.clone(),
            suffix: self.suffix.clone(),
        }
    }
}

impl ModLoader {
    /// The built-in require script, used where a loader gives none.
    pub fn default_require() -> (r: Option<String>)
        ensures
            r matches Some(s) && s@ == default_require_script(),
    {
        Some(String::from_str("require(\"$ENTRYPOINT\");\n"))
    }
}

/// A named launch configuration with its instances.
#[derive(Debug, Clone)]
pub struct ProfileConfig {
    pub profile: Profile,
    /// Instances keyed by instance id.
    pub instances: IdMap<Instance>,
    pub discord: Discord,
}

/// The profile's own settings.
#[derive(Debug, PartialEq, Eq)]
pub struct Profile {
    pub name: String,
    /// Run with the host's own user-data directory rather than an isolated one.
    pub use_default_profile: bool,
}

impl Clone for Profile {
    fn clone(&self) -> (r: Self)
        ensures
            r == *self,
    {
        Profile { name: self.name.clone(), use_default_profile: self.use_default_profile }
    }
}

/// How the host application of a profile is started.
#[derive(Debug, PartialEq, Eq)]
pub struct Discord {
    /// Path of the host executable.
    pub executable: String,
    /// Extra launch arguments.
    pub args: String,
}

impl Clone for Discord {
    fn clone(&self) -> (r: Self)
        ensures
            r == *self,
    {
        Discord { executable: self.executable.clone(), args: self.args.clone() }
    }
}

/// Process-wide flags.
#[derive(Debug, Clone, Copy, PartialEq, Eq, Structural)]
pub struct Settings {
    /// Minimise the interface once an instance has launched.
    pub hide_window_on_launch: bool,
}

impl Default for Settings {
    fn default() -> (r: Settings)
        ensures
            r == (Settings { hide_window_on_launch: false }),
    {
        Settings { hide_window_on_launch: false }
    }
}

/// The value a missing boolean flag of a record file takes.
pub fn default_bool_true() -> (r: bool)
    ensures
        r,
{
    true
}

/// One record file of a directory: its file name, and the record it held, if it
/// could be read and parsed.
#[derive(Debug, Clone)]
pub struct RecordFile<V> {
    pub name: String,
    pub record: Option<V>,
}

/// A record file of either kind.
#[derive(Debug, Clone)]
pub enum ConfigFile {
    Instance(Instance),
    Mod(Mod),
}

/// The record id of a file name: the name without its `.toml` extension. Files of
/// another extension hold no record.
pub open spec fn record_id(name: Seq<char>) -> Option<Seq<char>> {
    let ext = ".toml"@;
    if name.len() >= ext.len() && name.subrange(name.len() - ext.len(), name.len() as int) == ext {
        Some(name.subrange(0, name.len() - ext.len()))
    } else {
        None
    }
}

/// The records of `m` with every parsed file of `files` stored under its id, in order.
pub open spec fn apply_files<V>(m: Map<Seq<char>, V>, files: Seq<RecordFile<V>>) -> Map<Seq<char>, V>
    decreases files.len(),
{
    if files.len() == 0 {
        m
    } else {
        let prev = apply_files(m, files.drop_last());
        let f = files.last();
        match (record_id(f.name@), f.record) {
            (Some(id), Some(v)) => prev.insert(id, v),
            _ => prev,
        }
    }
}

/// The records a directory listing holds: each file that has the record extension and
/// parsed gives the record of its id, a later file replacing an earlier one of the same
/// id. A file that failed to parse gives nothing.
pub open spec fn loaded<V>(files: Seq<RecordFile<V>>) -> Map<Seq<char>, V> {
    apply_files(Map::empty(), files)
}

/// The record id of a file name, if it has the record extension.
pub fn record_id_of(name: &String) -> (r: Option<String>)
    ensures
        r matches Some(id) ==> record_id(name@) == Some(id@),
        r is None ==> record_id(name@) is None,
{
    let ext = ".toml";
    proof {
        reveal_strlit(".toml");
    }
    let n = name.unicode_len();
    if n < 5 {
        return None;
    }
    let tail = String::from_str(name.as_str().substring_char(n - 5, n));
    if tail.eq(&String::from_str(ext)) {
        Some(String::from_str(name.as_str().substring_char(0, n - 5)))
    } else {
        None
    }
}

/// The records of a directory listing.
fn load_records<V>(files: Vec<RecordFile<V>>) -> (r: IdMap<V>)
    ensures
        r@ == loaded(files@),
{
    let mut records = IdMap::new();
    let ghost orig = files@;
    let mut files = files;
    let ghost mut i: int = 0;
    proof {
        assert(orig.subrange(0, 0) =~= Seq::<RecordFile<V>>::empty());
        assert(files@ =~= orig.subrange(0, orig.len() as int));
    }
    while files.len() > 0
        invariant
            0 <= i <= orig.len(),
            files@ == orig.subrange(i, orig.len() as int),
            records@ == apply_files(Map::empty(), orig.subrange(0, i)),
        decreases files@.len(),
    {
        let f = files.remove(0);
        proof {
            assert(f == orig[i]);
            assert(orig.subrange(0, i + 1).drop_last() =~= orig.subrange(0, i));
            assert(files@ =~= orig.subrange(i + 1, orig.len() as int));
        }
        match record_id_of(&f.name) {
            Some(id) => match f.record {
                Some(v) => {
                    records.insert(id, v);
                },
                None => {},
            },
            None => {},
        }
        proof {
            i = i + 1;
        }
    }
    proof {
        assert(orig.subrange(0, i) =~= orig);
    }
    records
}

/// The records that drive launching: profiles, mods and settings.
#[derive(Debug, Clone)]
pub struct Config {
    pub profiles: IdMap<ProfileConfig>,
    pub mods: IdMap<Mod>,
    pub settings: Settings,
}

impl Config {
    /// An empty configuration with default settings.
    pub fn new() -> (r: Config)
        ensures
            r.profiles@ == Map::<Seq<char>, ProfileConfig>::empty(),
            r.mods@ == Map::<Seq<char>, Mod>::empty(),
            r.settings == (Settings { hide_window_on_launch: false }),
    {
        Config { profiles: IdMap::new(), mods: IdMap::new(), settings: Settings::default() }
    }

    /// Loads a configuration from the settings file's record and the listings of the mod
    /// and profile directories.
    pub fn init(
        settings: Option<Settings>,
        mod_files: Vec<RecordFile<Mod>>,
        profile_files: Vec<RecordFile<ProfileConfig>>,
    ) -> (r: Config)
        ensures
            r.profiles@ == loaded(profile_files@),
            r.mods@ == loaded(mod_files@),
            settings matches Some(s) ==> r.settings == s,
            settings is None ==> r.settings == (Settings { hide_window_on_launch: false }),
    {
        let mut config = Config::new();
        config.sync_settings(settings);
        config.sync_mods(mod_files);
        config.sync_profiles(profile_files);
        config
    }

    /// Stores a profile under `profile_id`, returning the profile it replaces.
    pub fn add_profile(&mut self, profile_id: &str, profile: ProfileConfig) -> (r: Option<
        ProfileConfig,
    >)
        ensures
            final(self).profiles@ == old(self).profiles@.insert(profile_id@, profile),
            final(self).mods@ == old(self).mods@,
            final(self).settings == old(self).settings,
            old(self).profiles@.dom().contains(profile_id@) ==> r == Some(
                old(self).profiles@[profile_id@],
            ),
            !old(self).profiles@.dom().contains(profile_id@) ==> r is None,
    {
        self.profiles.insert(String::from_str(profile_id), profile)
    }

    /// Removes the profile `profile_id`, returning it.
    pub fn remove_profile(&mut self, profile_id: &str) -> (r: Option<ProfileConfig>)
        ensures
            final(self).profiles@ == old(self).profiles@.remove(profile_id@),
            final(self).mods@ == old(self).mods@,
            final(self).settings == old(self).settings,
            old(self).profiles@.dom().contains(profile_id@) ==> r == Some(
                old(self).profiles@[profile_id@],
            ),
            !old(self).profiles@.dom().contains(profile_id@) ==> r is None,
    {
        self.profiles.remove(profile_id)
    }

    /// Stores a mod under `mod_id`, returning the mod it replaces.
    pub fn add_mod(&mut self, mod_id: &str, mod_: Mod) -> (r: Option<Mod>)
        ensures
            final(self).mods@ == old(self).mods@.insert(mod_id@, mod_),
            final(self).profiles@ == old(self).profiles@,
            final(self).settings == old(self).settings,
            old(self).mods@.dom().contains(mod_id@) ==> r == Some(old(self).mods@[mod_id@]),
            !old(self).mods@.dom().contains(mod_id@) ==> r is None,
    {
        self.mods.insert(String::from_str(mod_id), mod_)
    }

    /// Removes the mod `mod_id`, returning it.
    pub fn remove_mod(&mut self, mod_id: &str) -> (r: Option<Mod>)
        ensures
            final(self).mods@ == old(self).mods@.remove(mod_id@),
            final(self).profiles@ == old(self).profiles@,
            final(self).settings == old(self).settings,
            old(self).mods@.dom().contains(mod_id@) ==> r == Some(old(self).mods@[mod_id@]),
            !old(self).mods@.dom().contains(mod_id@) ==> r is None,
    {
        self.mods.remove(mod_id)
    }

    /// Rebuilds every kind of record from what is on disk.
    pub fn sync(
        &mut self,
        profile_files: Vec<RecordFile<ProfileConfig>>,
        mod_files: Vec<RecordFile<Mod>>,
        settings: Option<Settings>,
    )
        ensures
            final(self).profiles@ == loaded(profile_files@),
            final(self).mods@ == loaded(mod_files@),
            settings matches Some(s) ==> final(self).settings == s,
            settings is None ==> final(self).settings == (Settings {
                hide_window_on_launch: false,
            }),
    {
        self.sync_profiles(profile_files);
        self.sync_mods(mod_files);
        self.sync_settings(settings);
    }

    /// Rebuilds the profiles from the listing of the profile directory; a profile whose
    /// file is gone or failed to parse is dropped.
    pub fn sync_profiles(&mut self, files: Vec<RecordFile<ProfileConfig>>)
        ensures
            final(self).profiles@ == loaded(files@),
            final(self).mods@ == old(self).mods@,
            final(self).settings == old(self).settings,
    {
        self.profiles = load_records(files);
    }

    /// Rebuilds the mods from the listing of the mod directory; a mod whose file is gone
    /// or failed to parse is dropped.
    pub fn sync_mods(&mut self, files: Vec<RecordFile<Mod>>)
        ensures
            final(self).mods@ == loaded(files@),
            final(self).profiles@ == old(self).profiles@,
            final(self).settings == old(self).settings,
    {
        self.mods = load_records(files);
    }

    /// Takes the settings read from the settings file, or the defaults where it was
    /// missing or did not parse.
    pub fn sync_settings(&mut self, settings: Option<Settings>)
        ensures
            final(self).profiles@ == old(self).profiles@,
            final(self).mods@ == old(self).mods@,
            settings matches Some(s) ==> final(self).settings == s,
            settings is None ==> final(self).settings == (Settings {
                hide_window_on_launch: false,
            }),
    {
        self.settings = match settings {
            Some(s) => s,
            None => Settings::default(),
        };
    }
}

} // verus!
