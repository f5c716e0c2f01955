//! Where the library's files live, derived from three root directories.
use vstd::prelude::*;

use crate::text::{join_path, path_join};

verus! {

/// The root directories of the configuration, data and cache files.
#[derive(Debug, Clone, PartialEq, Eq)]
pub struct Paths {
    pub config_root: String,
    pub data_root: String,
    pub cache_root: String,
}

impl Paths {
    pub open spec fn spec_config_profile_dir(&self) -> Seq<char> {
        path_join(self.config_root@, "profiles"@)
    }

    pub open spec fn spec_config_mods_dir(&self) -> Seq<char> {
        path_join(self.config_root@, "mods"@)
    }

    pub open spec fn spec_settings_file(&self) -> Seq<char> {
        path_join(self.config_root@, "settings.toml"@)
    }

    pub open spec fn spec_data_profiles_dir(&self) -> Seq<char> {
        path_join(self.data_root@, "profiles"@)
    }

    pub open spec fn spec_profile_data_dir(&self, profile_id: Seq<char>) -> Seq<char> {
        path_join(self.spec_data_profiles_dir(), profile_id)
    }

    pub open spec fn spec_mod_files_dir(&self, org: Seq<char>, repo: Seq<char>) -> Seq<char> {
        path_join(path_join(path_join(self.cache_root@, "mods"@), org), repo)
    }

    pub open spec fn spec_mod_metadata_dir(&self, org: Seq<char>, repo: Seq<char>) -> Seq<char> {
        path_join(path_join(path_join(self.cache_root@, "metadata"@), org), repo)
    }

    pub open spec fn spec_asar_dir(&self, profile_id: Seq<char>, instance_id: Seq<char>) -> Seq<
        char,
    > {
        path_join(path_join(path_join(self.cache_root@, "asar"@), profile_id), instance_id)
    }

    pub open spec fn spec_asar_path(
        &self,
        profile_id: Seq<char>,
        instance_id: Seq<char>,
        mod_id: Seq<char>,
    ) -> Seq<char> {
        path_join(self.spec_asar_dir(profile_id, instance_id), mod_id + ".asar"@)
    }

    /// Directory of the profile records.
    pub fn config_profile_dir(&self) -> (r: String)
        ensures
            r@ == self.spec_config_profile_dir(),
    {
        join_path(self.config_root.as_str(), "profiles")
    }

    /// Directory of the mod records.
    pub fn config_mods_dir(&self) -> (r: String)
        ensures
            r@ == self.spec_config_mods_dir(),
    {
        join_path(self.config_root.as_str(), "mods")
    }

    /// The settings file.
    pub fn settings_file(&self) -> (r: String)
        ensures
            r@ == self.spec_settings_file(),
    {
        join_path(self.config_root.as_str(), "settings.toml")
    }

    /// The directory under which isolated profiles keep their data.
    pub fn data_profiles_dir(&self) -> (r: String)
        ensures
            r@ == self.spec_data_profiles_dir(),
    {
        join_path(self.data_root.as_str(), "profiles")
    }

    /// The isolated data directory of a profile.
    pub fn profile_data_dir(&self, profile_id: &str) -> (r: String)
        ensures
            r@ == self.spec_profile_data_dir(profile_id@),
    {
        let base = self.data_profiles_dir();
        join_path(base.as_str(), profile_id)
    }

    /// Where the updater installs the files of a mod.
    pub fn mod_files_dir(&self, org: &str, repo: &str) -> (r: String)
        ensures
            r@ == self.spec_mod_files_dir(org@, repo@),
    {
        let a = join_path(self.cache_root.as_str(), "mods");
        let b = join_path(a.as_str(), org);
        join_path(b.as_str(), repo)
    }

    /// Where the updater keeps the release marker and icon of a mod.
    pub fn mod_metadata_dir(&self, org: &str, repo: &str) -> (r: String)
        ensures
            r@ == self.spec_mod_metadata_dir(org@, repo@),
    {
        let a = join_path(self.cache_root.as_str(), "metadata");
        let b = join_path(a.as_str(), org);
        join_path(b.as_str(), repo)
    }

    /// The directory holding the archives of an instance.
    pub fn asar_dir(&self, profile_id: &str, instance_id: &str) -> (r: String)
        ensures
            r@ == self.spec_asar_dir(profile_id@, instance_id@),
    {
        let a = join_path(self.cache_root.as_str(), "asar");
        let b = join_path(a.as_str(), profile_id);
        join_path(b.as_str(), instance_id)
    }

    /// The archive built for a profile, instance and mod.
    pub fn cache_asar_path(&self, profile_id: &str, instance_id: &str, mod_id: &str) -> (r: String)
        ensures
            r@ == self.spec_asar_path(profile_id@, instance_id@, mod_id@),
    {
        let dir = self.asar_dir(profile_id, instance_id);
        let name = String::from_str(mod_id).concat(".asar");
        join_path(dir.as_str(), name.as_str())
    }
}

} // verus!
