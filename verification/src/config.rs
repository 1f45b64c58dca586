//! The configuration, as plain data.

use vstd::prelude::*;
use vstd::string::*;
use crate::app::{SortOrder, opt_string_text};
use crate::scanner::{Scanner, built_on, path_views};
use crate::text::{join_path, opt_text, path_join};
use crate::utils::{expand_tilde_with, resolve_home_dir, tilde_expanded};

verus! {

/// What the scan is configured to do.
#[derive(Debug)]
pub struct ScanConfig {
    /// Further locations to scan; a leading `~` stands for the home
    /// directory.
    pub extra_targets: Vec<String>,
}

/// How the interface is configured.
#[derive(Debug)]
pub struct UiConfig {
    /// The order at start: `name`, `size` or `time`.
    pub default_sort: Option<String>,
}

/// How careful the cleaner is configured to be.
#[derive(Debug)]
pub struct SafetyConfig {
    /// Whether items are moved to the trash instead of being deleted for
    /// good.
    pub move_to_trash: bool,
}

/// The configuration of the application.
#[derive(Debug)]
pub struct AppConfig {
    pub scan: ScanConfig,
    pub ui: UiConfig,
    pub safety: SafetyConfig,
}

impl Default for ScanConfig {
    fn default() -> (r: Self)
        ensures
            r.extra_targets@.len() == 0,
    {
        ScanConfig { extra_targets: Vec::new() }
    }
}

impl Default for UiConfig {
    fn default() -> (r: Self)
        ensures
            r.default_sort is None,
    {
        UiConfig { default_sort: None }
    }
}

impl Default for SafetyConfig {
    fn default() -> (r: Self)
        ensures
            !r.move_to_trash,
    {
        SafetyConfig { move_to_trash: false }
    }
}

impl Default for AppConfig {
    fn default() -> (r: Self)
        ensures
            r.scan.extra_targets@.len() == 0,
            r.ui.default_sort is None,
            !r.safety.move_to_trash,
    {
        AppConfig {
            scan: ScanConfig::default(),
            ui: UiConfig::default(),
            safety: SafetyConfig::default(),
        }
    }
}

/// The paths `raw`, each with a leading `~` replaced by `home`.
pub open spec fn expanded_paths(raw: Seq<Seq<char>>, home: Option<Seq<char>>) -> Seq<Seq<char>> {
    raw.map_values(|p: Seq<char>| tilde_expanded(p, home))
}

/// The paths of `paths` that are present, in their order. `present` says of
/// each path whether it exists; a path that `present` does not cover counts
/// as absent.
pub open spec fn present_paths(paths: Seq<Seq<char>>, present: Seq<bool>) -> Seq<Seq<char>>
    decreases paths.len(),
{
    if paths.len() == 0 {
        paths
    } else {
        let rest = present_paths(paths.drop_last(), present);
        let i = paths.len() - 1;
        if i < present.len() && present[i] {
            rest.push(paths.last())
        } else {
            rest
        }
    }
}

/// The order the configuration asks for at start, where it names one.
pub open spec fn configured_order(word: Option<Seq<char>>) -> Option<SortOrder> {
    match word {
        Some(w) => if w == "name"@ {
            Some(SortOrder::ByName)
        } else if w == "size"@ {
            Some(SortOrder::BySize)
        } else if w == "time"@ {
            Some(SortOrder::ByTime)
        } else {
            None
        },
        None => None,
    }
}

impl AppConfig {
    /// Where the configuration file lies: below the home directory `home`,
    /// or below the working directory where no home directory is known.
    pub fn config_path(home: Option<&str>) -> (r: String)
        ensures
            r@ == match home {
                Some(h) => path_join(
                    path_join(path_join(h@, ".config"@), "vac"@),
                    "config.toml"@,
                ),
                None => ".config/vac/config.toml"@,
            },
    {
        match home {
            Some(h) => {
                let a = join_path(h, ".config");
                let b = join_path(a.as_str(), "vac");
                join_path(b.as_str(), "config.toml")
            },
            None => String::from_str(".config/vac/config.toml"),
        }
    }

    /// The configured further locations, each with a leading `~` replaced
    /// by `home`.
    pub fn expanded_targets_with(&self, home: Option<&str>) -> (r: Vec<String>)
        ensures
            path_views(r@) == expanded_paths(path_views(self.scan.extra_targets@), opt_text(home)),
    {
        let ghost raw = path_views(self.scan.extra_targets@);
        let mut r: Vec<String> = Vec::new();
        let mut i: usize = 0;
        while i < self.scan.extra_targets.len()
            invariant
                i <= self.scan.extra_targets.len(),
                raw == path_views(self.scan.extra_targets@),
                path_views(r@) == expanded_paths(raw.subrange(0, i as int), opt_text(home)),
            decreases self.scan.extra_targets.len() - i,
        {
            let ghost before = path_views(r@);
            let expanded = expand_tilde_with(self.scan.extra_targets[i].as_str(), home);
            r.push(expanded);
            assert(path_views(r@) =~= before.push(expanded@));
            i += 1;
        }
        r
    }

    /// The configured further locations, each with a leading `~` replaced
    /// by whatever home directory the system names.
    pub fn expanded_extra_targets(&self) -> (r: Vec<String>)
        ensures
            exists|home: Option<Seq<char>>|
                path_views(r@) == expanded_paths(path_views(self.scan.extra_targets@), home),
            r@.len() == self.scan.extra_targets@.len(),
    {
        match resolve_home_dir() {
            Some(h) => {
                let r = self.expanded_targets_with(Some(h.as_str()));
                assert(path_views(r@).len() == r@.len());
                r
            },
            None => {
                let r = self.expanded_targets_with(None);
                assert(path_views(r@).len() == r@.len());
                r
            },
        }
    }

    /// The order the configuration asks for at start, where it names one.
    pub fn default_sort_order(&self) -> (r: Option<SortOrder>)
        ensures
            r == configured_order(crate::app::opt_string_text(self.ui.default_sort)),
    {
        match &self.ui.default_sort {
            Some(word) => {
                if *word == String::from_str("name") {
                    Some(SortOrder::ByName)
                } else if *word == String::from_str("size") {
                    Some(SortOrder::BySize)
                } else if *word == String::from_str("time") {
                    Some(SortOrder::ByTime)
                } else {
                    None
                }
            },
            None => None,
        }
    }
}

/// Keeps the paths that exist. `present` says of each path whether it
/// exists on disk.
pub fn existing_targets(paths: Vec<String>, present: &Vec<bool>) -> (r: Vec<String>)
    ensures
        path_views(r@) == present_paths(path_views(paths@), present@),
{
    let ghost all = path_views(paths@);
    let mut r: Vec<String> = Vec::new();
    let mut i: usize = 0;
    while i < paths.len()
        invariant
            i <= paths.len(),
            all == path_views(paths@),
            path_views(r@) == present_paths(all.subrange(0, i as int), present@),
        decreases paths.len() - i,
    {
        proof {
            assert(all.subrange(0, i + 1).drop_last() =~= all.subrange(0, i as int));
        }
        if i < present.len() && present[i] {
            r.push(paths[i].clone());
        }
        i += 1;
    }
    assert(all.subrange(0, i as int) =~= all);
    r
}

/// A scanner for the home directory of the user, with the locations the
/// configuration names, each with a leading `~` replaced by that home
/// directory; `None` where the system names no home directory.
pub fn scanner_from_config(config: &AppConfig) -> (r: Option<Scanner>)
    ensures
        exists|home: Option<Seq<char>>|
            built_on(r, home, expanded_paths(path_views(config.scan.extra_targets@), home)),
        r is Some ==> exists|home: Option<Seq<char>>|
            r.unwrap().extras() == expanded_paths(path_views(config.scan.extra_targets@), home),
{
    let home = resolve_home_dir();
    let extra_targets = match &home {
        Some(h) => config.expanded_targets_with(Some(h.as_str())),
        None => config.expanded_targets_with(None),
    };
    let r = Scanner::from_home(home, extra_targets);
    assert(built_on(
        r,
        opt_string_text(home),
        expanded_paths(path_views(config.scan.extra_targets@), opt_string_text(home)),
    ));
    r
}

} // verus!
