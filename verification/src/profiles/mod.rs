//! Profiles: a named configuration that can be switched on and off, and
//! where each one is stored.
use vstd::prelude::*;
use crate::config::{AppConfig, clone_optional_text};
use crate::text::{lowercase_chars, replace_spaces, to_lowercase, underscore_spaces};

verus! {

/// A named configuration, switched on or off.
#[derive(Debug)]
pub struct Profile {
    pub name: String,
    pub enabled: bool,
    pub config: AppConfig,
}

impl Clone for Profile {
    fn clone(&self) -> (copy: Self)
        ensures
            copy == *self,
    {
        Profile { name: self.name.clone(), enabled: self.enabled, config: self.config.clone() }
    }
}

impl Profile {
    /// This profile switched on or off.
    pub open spec fn with_enabled(self, enabled: bool) -> Profile {
        Profile { enabled, ..self }
    }
}

/// The file name a profile with this name is stored under: the name in
/// lower case, spaces replaced by underscores, with the `.json` extension.
pub open spec fn profile_file_chars(name: Seq<char>) -> Seq<char> {
    underscore_spaces(lowercase_chars(name)) + ".json"@
}

/// The file name a profile with this name is stored under.
pub fn profile_file_name(name: &str) -> (file_name: String)
    ensures
        file_name@ == profile_file_chars(name@),
{
    let lower = to_lowercase(name);
    let mut file_name = replace_spaces(lower.as_str());
    file_name.append(".json");
    file_name
}

/// A file name whose extension is `json`: it ends in `.json` and has a
/// stem before it.
pub open spec fn is_profile_file_chars(file_name: Seq<char>) -> bool {
    &&& file_name.len() > 5
    &&& file_name.subrange(file_name.len() - 5, file_name.len() as int) == ".json"@
}

/// Whether a directory entry with this file name holds a profile: its
/// extension is `json`.
pub fn is_profile_file_name(file_name: &str) -> (is_profile: bool)
    ensures
        is_profile == is_profile_file_chars(file_name@),
{
    let suffix = ".json";
    proof {
        reveal_strlit(".json");
    }
    let len = file_name.unicode_len();
    if len <= 5 {
        return false;
    }
    let mut k: usize = 0;
    while k < 5
        invariant
            k <= 5,
            len == file_name@.len(),
            len > 5,
            suffix@ == ".json"@,
            suffix@.len() == 5,
            forall|j: int| 0 <= j < k ==> file_name@[len - 5 + j] == suffix@[j],
        decreases 5 - k,
    {
        if file_name.get_char(len - 5 + k) != suffix.get_char(k) {
            assert(file_name@.subrange(len - 5, len as int)[k as int] != suffix@[k as int]);
            return false;
        }
        k = k + 1;
    }
    assert(file_name@.subrange(len - 5, len as int) =~= suffix@);
    true
}

/// A path with a component adjoined as a Unix `PathBuf::push` does: an
/// absolute component replaces the path; otherwise a separator is put
/// between them unless the path is empty or already ends in one.
pub open spec fn joined_path(base: Seq<char>, component: Seq<char>) -> Seq<char> {
    if component.len() > 0 && component[0] == '/' {
        component
    } else if base.len() == 0 || base.last() == '/' {
        base + component
    } else {
        base + seq!['/'] + component
    }
}

/// Adjoins `component` to the path `base`.
pub fn join_path(base: &str, component: &str) -> (path: String)
    ensures
        path@ == joined_path(base@, component@),
{
    let slash = "/";
    proof {
        reveal_strlit("/");
    }
    let component_len = component.unicode_len();
    if component_len > 0 && component.get_char(0) == '/' {
        return String::from_str(component);
    }
    let base_len = base.unicode_len();
    let mut path = String::from_str(base);
    if !(base_len == 0 || base.get_char(base_len - 1) == '/') {
        path.append(slash);
    }
    path.append(component);
    path
}

/// The configuration directory used when the platform reports none.
pub open spec fn fallback_config_base() -> Seq<char> {
    "~/.config"@
}

/// The directory holding the profiles, under the platform's configuration
/// directory (or the fallback).
pub open spec fn profiles_dir_chars(config_base: Option<Seq<char>>) -> Seq<char> {
    let base = match config_base {
        Some(b) => b,
        None => fallback_config_base(),
    };
    joined_path(joined_path(base, "humanized-autoclicker"@), "profiles"@)
}

/// Where profiles are stored.
pub struct ProfileManager {
    config_dir: String,
}

impl View for ProfileManager {
    type V = Seq<char>;

    /// The profiles directory.
    closed spec fn view(&self) -> Seq<char> {
        self.config_dir@
    }
}

impl ProfileManager {
    /// A manager for the profiles directory under the platform's
    /// configuration directory `config_base` (or `~/.config` when there is
    /// none).
    pub fn new(config_base: Option<String>) -> (manager: Self)
        ensures
            manager@ == profiles_dir_chars(
                match config_base {
                    Some(b) => Some(b@),
                    None => None,
                },
            ),
    {
        let base = match config_base {
            Some(b) => b,
            None => String::from_str("~/.config"),
        };
        let app_dir = join_path(base.as_str(), "humanized-autoclicker");
        let config_dir = join_path(app_dir.as_str(), "profiles");
        ProfileManager { config_dir }
    }

    /// The profiles directory.
    pub fn config_dir(&self) -> (dir: &String)
        ensures
            dir@ == self@,
    {
        &self.config_dir
    }

    /// The path of the file a profile with this name is stored in, and
    /// deleted from.
    pub fn profile_path(&self, name: &str) -> (path: String)
        ensures
            path@ == joined_path(self@, profile_file_chars(name@)),
    {
        let file_name = profile_file_name(name);
        join_path(self.config_dir.as_str(), file_name.as_str())
    }
}

/// The file name a profile is stored under passes the listing's `json`
/// extension test exactly when the profile's name does not lower-case to
/// the empty text (an empty name is stored as `.json`, which has no
/// extension).
pub proof fn lemma_stored_profile_is_listed(name: Seq<char>)
    ensures
        is_profile_file_chars(profile_file_chars(name)) <==> lowercase_chars(name).len() > 0,
{
    reveal_strlit(".json");
    let stem = underscore_spaces(lowercase_chars(name));
    let file = profile_file_chars(name);
    assert(stem.len() == lowercase_chars(name).len());
    assert(file.len() == stem.len() + 5);
    assert(file.subrange(file.len() - 5, file.len() as int) =~= ".json"@);
}

} // verus!
