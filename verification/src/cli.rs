//! What the command line asks for.

use vstd::prelude::*;
use vstd::string::*;
use crate::app::SortOrder;
use crate::text::opt_text;
use crate::utils::{expand_tilde_with, resolve_home_dir, tilde_expanded};

verus! {

/// The mathematical value of a [`ScanTarget`].
pub enum ScanTargetView {
    Preset,
    Home,
    Path(Seq<char>),
}

/// What to scan.
#[derive(Debug)]
pub enum ScanTarget {
    /// The catalog of well-known locations.
    Preset,
    /// The home directory of the user.
    Home,
    /// The given path.
    Path(String),
}

impl View for ScanTarget {
    type V = ScanTargetView;

    open spec fn view(&self) -> ScanTargetView {
        match self {
            ScanTarget::Preset => ScanTargetView::Preset,
            ScanTarget::Home => ScanTargetView::Home,
            ScanTarget::Path(p) => ScanTargetView::Path(p@),
        }
    }
}

impl Clone for ScanTarget {
    fn clone(&self) -> (r: Self)
        ensures
            r == *self,
    {
        match self {
            ScanTarget::Preset => ScanTarget::Preset,
            ScanTarget::Home => ScanTarget::Home,
            ScanTarget::Path(p) => ScanTarget::Path(p.clone()),
        }
    }
}

/// What the word `s` names as a scan target, `home` being the home
/// directory where one is known: `preset` and `home` name themselves, and
/// every other word is a path, in which a leading `~` stands for the home
/// directory.
pub open spec fn scan_target_of(s: Seq<char>, home: Option<Seq<char>>) -> ScanTargetView {
    if s == "preset"@ {
        ScanTargetView::Preset
    } else if s == "home"@ {
        ScanTargetView::Home
    } else {
        ScanTargetView::Path(tilde_expanded(s, home))
    }
}

impl ScanTarget {
    /// Reads a scan target from the word `s`, `home` being the home
    /// directory where one is known.
    pub fn parse_with(s: &str, home: Option<&str>) -> (r: Self)
        ensures
            r@ == scan_target_of(s@, opt_text(home)),
    {
        let word = String::from_str(s);
        if word == String::from_str("preset") {
            ScanTarget::Preset
        } else if word == String::from_str("home") {
            ScanTarget::Home
        } else {
            ScanTarget::Path(expand_tilde_with(s, home))
        }
    }

    /// Reads a scan target from the word `s`; in a path a leading `~`
    /// stands for whatever home directory the system names.
    pub fn parse(s: &str) -> (r: Self)
        ensures
            exists|home: Option<Seq<char>>| r@ == scan_target_of(s@, home),
            s@ == "preset"@ ==> r@ == ScanTargetView::Preset,
            s@ == "home"@ ==> r@ == ScanTargetView::Home,
    {
        proof {
            reveal_strlit("preset");
            reveal_strlit("home");
            assert("home"@.len() == 4);
        }
        match resolve_home_dir() {
            Some(h) => {
                let r = Self::parse_with(s, Some(h.as_str()));
                r
            },
            None => {
                let r = Self::parse_with(s, None);
                r
            },
        }
    }

    /// The name of the target as the report shows it.
    pub fn name(&self) -> (r: String)
        ensures
            r@ == match self@ {
                ScanTargetView::Preset => "preset"@,
                ScanTargetView::Home => "home"@,
                ScanTargetView::Path(p) => p,
            },
    {
        match self {
            ScanTarget::Preset => String::from_str("preset"),
            ScanTarget::Home => String::from_str("home"),
            ScanTarget::Path(p) => p.clone(),
        }
    }
}

impl std::str::FromStr for ScanTarget {
    type Err = String;

    fn from_str(s: &str) -> (r: Result<Self, String>)
        ensures
            r is Ok,
            exists|home: Option<Seq<char>>| r.unwrap()@ == scan_target_of(s@, home),
            s@ == "preset"@ ==> r.unwrap()@ == ScanTargetView::Preset,
            s@ == "home"@ ==> r.unwrap()@ == ScanTargetView::Home,
    {
        Ok(ScanTarget::parse(s))
    }
}

/// The order a word of the command line names: `name` and `time` name
/// theirs, and every other word the order by size.
pub open spec fn sort_order_of(word: Seq<char>) -> SortOrder {
    if word == "name"@ {
        SortOrder::ByName
    } else if word == "time"@ {
        SortOrder::ByTime
    } else {
        SortOrder::BySize
    }
}

/// The arguments of the command line.
#[derive(Debug)]
pub struct Cli {
    /// Scan without the interactive interface.
    pub scan: Option<ScanTarget>,
    /// Only report what a deletion would remove.
    pub dry_run: bool,
    /// Delete everything the scan finds.
    pub clean: bool,
    /// Write the report to this file.
    pub output: Option<String>,
    /// The order of the report: `name`, `size` or `time`.
    pub sort: String,
    /// Move to the trash instead of deleting for good.
    pub trash: bool,
}

impl Cli {
    /// Whether a scan was asked for on the command line, so that the
    /// interactive interface is not started.
    pub fn is_non_interactive(&self) -> (r: bool)
        ensures
            r == self.scan is Some,
    {
        self.scan.is_some()
    }

    /// The order the report is to be in.
    pub fn sort_order(&self) -> (r: SortOrder)
        ensures
            r == sort_order_of(self.sort@),
    {
        if self.sort == String::from_str("name") {
            SortOrder::ByName
        } else if self.sort == String::from_str("time") {
            SortOrder::ByTime
        } else {
            SortOrder::BySize
        }
    }

    /// Whether items are moved to the trash: where the command line asks
    /// for it, or the configuration does.
    pub fn use_trash(&self, configured: bool) -> (r: bool)
        ensures
            r == (self.trash || configured),
    {
        self.trash || configured
    }

    /// Whether the items found are deleted: deleting was asked for, and not
    /// merely a preview of it.
    pub fn will_clean(&self) -> (r: bool)
        ensures
            r == (self.clean && !self.dry_run),
    {
        self.clean && !self.dry_run
    }
}

} // verus!
