//! The state of the interface and every change it goes through: moving the
//! cursor, marking entries, taking in what a scan reports, sorting,
//! searching, and typing a path.

use vstd::prelude::*;
use vstd::string::*;
use crate::app::{
    CleanableEntry,
    EntryView,
    ListState,
    Mode,
    NavigationState,
    SortOrder,
    all_marked,
    all_selected,
    all_unmarked,
    awaits_size,
    clone_entries,
    find_path,
    first_position,
    listed_bytes,
    search_results,
    selected_item,
    sized,
    sum_sizes,
};
use crate::cleaner::{DryRunResult, entry_views};
use crate::scanner::ScanKind;
use crate::selection::{
    SelectedEntry,
    Selection,
    filled,
    has_path,
    marked,
    selected_bytes,
    without,
};
use crate::sorting::{size_rank, sort_entries, sorted_entries};
use crate::sums::sat_u64;
use crate::text::{
    opt_text,
    path_file_name,
    pop_char,
    push_char,
    str_contains,
    to_lowercase,
    trim_text,
    trimmed_text,
};
use crate::utils::{expand_tilde_with, resolve_home_dir, tilde_expanded};

verus! {

/// The state of the interface.
pub struct App {
    pub mode: Mode,
    pub should_quit: bool,
    /// The list on display.
    pub entries: Vec<CleanableEntry>,
    /// The top-level entries, kept while a directory is on display.
    pub root_entries: Vec<CleanableEntry>,
    pub list_state: ListState,
    /// How far the running scan is, in percent.
    pub scan_progress: u8,
    pub current_scan_path: String,
    /// The known sizes of the list on display, summed up.
    pub total_size: u64,
    pub error_message: Option<String>,
    /// What is marked for deletion, across directories.
    pub selections: Selection,
    pub navigation: NavigationState,
    /// The number of the accepted scan job.
    pub scan_generation: u64,
    pub scan_kind: ScanKind,
    pub scan_in_progress: bool,
    pub sort_order: SortOrder,
    pub input_buffer: String,
    /// The height of the list on screen, in lines.
    pub visible_height: usize,
    /// The bytes freed and the number of items of the last deletion.
    pub last_clean_result: Option<(u64, usize)>,
    pub confirm_scroll: usize,
    pub search_query: String,
    /// The list as it was before the search began.
    pub pre_search_entries: Vec<CleanableEntry>,
    /// Whether the preview of the deletion is shown.
    pub dry_run_active: bool,
    pub dry_run_result: Option<DryRunResult>,
    /// Whether a deletion moves to the trash instead of removing for good.
    pub use_trash: bool,
}

/// The cursor after a step down: one further, and from the last entry back
/// to the first.
pub open spec fn next_index(selected: Option<usize>, len: int) -> int {
    match selected {
        Some(i) => (i + 1) % len,
        None => 0,
    }
}

/// The cursor after a step up: one back, and from the first entry on to the
/// last.
pub open spec fn previous_index(selected: Option<usize>, len: int) -> int {
    match selected {
        Some(i) => if i == 0 {
            len - 1
        } else {
            i - 1
        },
        None => 0,
    }
}

/// Half a page, and at least one line.
pub open spec fn half_page(visible_height: usize) -> int {
    if visible_height / 2 >= 1 {
        (visible_height / 2) as int
    } else {
        1
    }
}

/// The cursor, or the first line where there is none.
pub open spec fn cursor_or_top(selected: Option<usize>) -> int {
    match selected {
        Some(i) => i as int,
        None => 0,
    }
}

/// Whether the cursor stands on an entry.
pub open spec fn on_entry(selected: Option<usize>, len: int) -> bool {
    selected is Some && selected.unwrap() < len
}

/// What the typed path stands for: nothing where only white space was
/// typed, else the typed path with a leading `~` replaced by the home
/// directory.
pub open spec fn typed_path(trimmed: Seq<char>, home: Option<Seq<char>>) -> Option<Seq<char>> {
    if trimmed.len() == 0 {
        None
    } else {
        Some(tilde_expanded(trimmed, home))
    }
}

/// The text shown for the scan before it reports its first path.
pub open spec fn preparing_text() -> Seq<char> {
    "准备扫描..."@
}

/// The text shown for a disk scan before it reports its first path.
pub open spec fn scanning_text(path: Seq<char>) -> Seq<char> {
    "扫描: "@ + path
}

impl Default for App {
    fn default() -> (app: Self)
        ensures
            app.is_fresh(),
    {
        App::new()
    }
}

impl App {
    /// Whether this is the state at start: nothing scanned, nothing marked,
    /// the cursor on the first line, the top level on display, entries in
    /// order of their names, and deletions for good.
    pub open spec fn is_fresh(self) -> bool {
        &&& self.mode == Mode::Normal
        &&& !self.should_quit
        &&& self.entries@.len() == 0
        &&& self.root_entries@.len() == 0
        &&& self.list_state.selected == Some(0usize)
        &&& self.scan_progress == 0
        &&& self.current_scan_path@.len() == 0
        &&& self.total_size == 0
        &&& self.error_message is None
        &&& self.selections@.len() == 0
        &&& self.navigation.current_path is None
        &&& self.navigation.frames().len() == 0
        &&& self.scan_generation == 0
        &&& self.scan_kind == ScanKind::Root
        &&& !self.scan_in_progress
        &&& self.sort_order == SortOrder::ByName
        &&& self.input_buffer@.len() == 0
        &&& self.visible_height == 20
        &&& self.last_clean_result is None
        &&& self.confirm_scroll == 0
        &&& self.search_query@.len() == 0
        &&& self.pre_search_entries@.len() == 0
        &&& !self.dry_run_active
        &&& self.dry_run_result is None
        &&& !self.use_trash
    }

    /// The state at start.
    pub fn new() -> (app: Self)
        ensures
            app.is_fresh(),
    {
        App {
            mode: Mode::Normal,
            should_quit: false,
            entries: Vec::new(),
            root_entries: Vec::new(),
            list_state: ListState { selected: Some(0) },
            scan_progress: 0,
            current_scan_path: String::new(),
            total_size: 0,
            error_message: None,
            selections: Selection::new(),
            navigation: NavigationState::new(),
            scan_generation: 0,
            scan_kind: ScanKind::Root,
            scan_in_progress: false,
            sort_order: SortOrder::ByName,
            input_buffer: String::new(),
            visible_height: 20,
            last_clean_result: None,
            confirm_scroll: 0,
            search_query: String::new(),
            pre_search_entries: Vec::new(),
            dry_run_active: false,
            dry_run_result: None,
            use_trash: false,
        }
    }

    /// The state at start under the configuration `config`: as
    /// [`App::new`], in the order the configuration asks for where it names
    /// one, and deleting the way it asks for.
    pub fn with_config(config: &crate::config::AppConfig) -> (app: Self)
        ensures
            (App { sort_order: SortOrder::ByName, use_trash: false, ..app }).is_fresh(),
            app.sort_order == match crate::config::configured_order(
                crate::app::opt_string_text(config.ui.default_sort),
            ) {
                Some(order) => order,
                None => SortOrder::ByName,
            },
            app.use_trash == config.safety.move_to_trash,
    {
        let mut app = App::new();
        app.use_trash = config.safety.move_to_trash;
        match config.default_sort_order() {
            Some(order) => {
                app.sort_order = order;
            },
            None => {},
        }
        app
    }

    /// The total of the known sizes of what is marked.
    pub fn selected_size(&self) -> (bytes: u64)
        ensures
            bytes == sat_u64(selected_bytes(self.selections@)),
    {
        self.selections.total()
    }

    /// Moves the cursor one entry down, and from the last entry to the
    /// first.
    pub fn next(&mut self)
        ensures
            old(self).entries@.len() == 0 ==> *final(self) == *old(self),
            old(self).entries@.len() > 0 ==> *final(self) == (App {
                list_state: ListState {
                    selected: Some(
                        next_index(
                            old(self).list_state.selected,
                            old(self).entries@.len() as int,
                        ) as usize,
                    ),
                },
                ..*old(self)
            }),
    {
        let len = self.entries.len();
        if len == 0 {
            return ;
        }
        let i: usize = match self.list_state.selected() {
            Some(i) => {
                let j = i % len;
                assert((i + 1) % (len as int) == if j + 1 == len {
                    0
                } else {
                    j + 1
                }) by (nonlinear_arith)
                    requires
                        j == i % len,
                        len > 0,
                        i >= 0,
                ;
                if j + 1 == len {
                    0
                } else {
                    j + 1
                }
            },
            None => 0,
        };
        self.list_state.select(Some(i));
    }

    /// Moves the cursor one entry up, and from the first entry to the last.
    pub fn previous(&mut self)
        ensures
            old(self).entries@.len() == 0 ==> *final(self) == *old(self),
            old(self).entries@.len() > 0 ==> *final(self) == (App {
                list_state: ListState {
                    selected: Some(
                        previous_index(
                            old(self).list_state.selected,
                            old(self).entries@.len() as int,
                        ) as usize,
                    ),
                },
                ..*old(self)
            }),
    {
        let len = self.entries.len();
        if len == 0 {
            return ;
        }
        let i: usize = match self.list_state.selected() {
            Some(i) => {
                if i == 0 {
                    len - 1
                } else {
                    i - 1
                }
            },
            None => 0,
        };
        self.list_state.select(Some(i));
    }

    /// Moves the cursor to the first entry.
    pub fn first(&mut self)
        ensures
            old(self).entries@.len() == 0 ==> *final(self) == *old(self),
            old(self).entries@.len() > 0 ==> *final(self) == (App {
                list_state: ListState { selected: Some(0usize) },
                ..*old(self)
            }),
    {
        if self.entries.len() > 0 {
            self.list_state.select(Some(0));
        }
    }

    /// Moves the cursor to the last entry.
    pub fn last(&mut self)
        ensures
            old(self).entries@.len() == 0 ==> *final(self) == *old(self),
            old(self).entries@.len() > 0 ==> *final(self) == (App {
                list_state: ListState { selected: Some((old(self).entries@.len() - 1) as usize) },
                ..*old(self)
            }),
    {
        if self.entries.len() > 0 {
            let last = self.entries.len() - 1;
            self.list_state.select(Some(last));
        }
    }

    /// Moves the cursor half a page down, and no further than the last
    /// entry.
    pub fn page_down(&mut self, visible_height: usize)
        ensures
            old(self).entries@.len() == 0 ==> *final(self) == *old(self),
            old(self).entries@.len() > 0 ==> *final(self) == (App {
                list_state: ListState {
                    selected: Some(
                        if cursor_or_top(old(self).list_state.selected) + half_page(visible_height)
                            < old(self).entries@.len() {
                            (cursor_or_top(old(self).list_state.selected) + half_page(
                                visible_height,
                            )) as usize
                        } else {
                            (old(self).entries@.len() - 1) as usize
                        },
                    ),
                },
                ..*old(self)
            }),
    {
        let len = self.entries.len();
        if len == 0 {
            return ;
        }
        let half: usize = if visible_height / 2 >= 1 {
            visible_height / 2
        } else {
            1
        };
        let current: usize = match self.list_state.selected() {
            Some(i) => i,
            None => 0,
        };
        let target: usize = if current < len && half < len - current {
            current + half
        } else {
            len - 1
        };
        self.list_state.select(Some(target));
    }

    /// Moves the cursor half a page up, and no further than the first
    /// entry.
    pub fn page_up(&mut self, visible_height: usize)
        ensures
            old(self).entries@.len() == 0 ==> *final(self) == *old(self),
            old(self).entries@.len() > 0 ==> *final(self) == (App {
                list_state: ListState {
                    selected: Some(
                        if cursor_or_top(old(self).list_state.selected) >= half_page(
                            visible_height,
                        ) {
                            (cursor_or_top(old(self).list_state.selected) - half_page(
                                visible_height,
                            )) as usize
                        } else {
                            0usize
                        },
                    ),
                },
                ..*old(self)
            }),
    {
        if self.entries.len() == 0 {
            return ;
        }
        let half: usize = if visible_height / 2 >= 1 {
            visible_height / 2
        } else {
            1
        };
        let current: usize = match self.list_state.selected() {
            Some(i) => i,
            None => 0,
        };
        let target = current.saturating_sub(half);
        self.list_state.select(Some(target));
    }

    /// The entry under the cursor.
    pub fn current_entry(&self) -> (r: Option<&CleanableEntry>)
        ensures
            match r {
                Some(entry) => on_entry(self.list_state.selected, self.entries@.len() as int)
                    && *entry == self.entries@[self.list_state.selected.unwrap() as int],
                None => !on_entry(self.list_state.selected, self.entries@.len() as int),
            },
    {
        match self.list_state.selected() {
            Some(i) => {
                if i < self.entries.len() {
                    Some(&self.entries[i])
                } else {
                    None
                }
            },
            None => None,
        }
    }

    /// Marks the entry under the cursor where it is not marked, and unmarks
    /// it where it is.
    pub fn toggle_selected(&mut self)
        ensures
            !on_entry(old(self).list_state.selected, old(self).entries@.len() as int) ==> *final(
                self) == *old(self),
            on_entry(old(self).list_state.selected, old(self).entries@.len() as int) ==> {
                let e = old(self).entries@[old(self).list_state.selected.unwrap() as int];
                &&& *final(self) == (App { selections: final(self).selections, ..*old(self) })
                &&& final(self).selections@ == if has_path(old(self).selections@, e.path@) {
                    without(old(self).selections@, e.path@)
                } else {
                    old(self).selections@.push(
                        (e.path@, SelectedEntry { kind: e.kind, size: e.size }),
                    )
                }
            },
    {
        let found = match self.current_entry() {
            Some(entry) => Some(entry.clone()),
            None => None,
        };
        match found {
            Some(entry) => {
                let selected = self.selections.contains_key(entry.path.as_str());
                self.set_selected(entry.path.as_str(), !selected, &entry);
            },
            None => {},
        }
    }

    /// Marks every entry of the list, or, where all are marked, unmarks
    /// them all.
    pub fn toggle_all(&mut self)
        ensures
            *final(self) == (App { selections: final(self).selections, ..*old(self) }),
            final(self).selections@ == if all_selected(
                old(self).selections@,
                entry_views(old(self).entries@),
            ) {
                all_unmarked(old(self).selections@, entry_views(old(self).entries@))
            } else {
                all_marked(old(self).selections@, entry_views(old(self).entries@))
            },
    {
        let ghost views = entry_views(self.entries@);
        let ghost sel = self.selections@;
        let mut all = true;
        let mut k: usize = 0;
        while k < self.entries.len()
            invariant
                k <= self.entries.len(),
                views == entry_views(self.entries@),
                sel == self.selections@,
                *self == *old(self),
                all == all_selected(sel, views.subrange(0, k as int)),
            decreases self.entries.len() - k,
        {
            let ghost more = views.subrange(0, k + 1);
            let marked_here = self.selections.contains_key(self.entries[k].path.as_str());
            proof {
                if !marked_here {
                    assert(!has_path(sel, more[k as int].path));
                }
            }
            all = all && marked_here;
            k += 1;
        }
        let mut i: usize = 0;
        while i < self.entries.len()
            invariant
                i <= self.entries.len(),
                views == entry_views(self.entries@),
                sel == old(self).selections@,
                *self == (App { selections: self.selections, ..*old(self) }),
                self.selections@ == if all {
                    all_unmarked(sel, views.subrange(0, i as int))
                } else {
                    all_marked(sel, views.subrange(0, i as int))
                },
            decreases self.entries.len() - i,
        {
            proof {
                assert(views.subrange(0, i + 1).drop_last() =~= views.subrange(0, i as int));
            }
            let path = self.entries[i].path.clone();
            if !all {
                let kept = SelectedEntry { kind: self.entries[i].kind, size: self.entries[i].size };
                self.selections.insert(path, kept);
            } else {
                self.selections.remove(path.as_str());
            }
            i += 1;
        }
        assert(views.subrange(0, i as int) =~= views);
    }

    /// Marks `path` with what is kept of `entry`, or unmarks it.
    pub fn set_selected(&mut self, path: &str, selected: bool, entry: &CleanableEntry)
        ensures
            *final(self) == (App { selections: final(self).selections, ..*old(self) }),
            final(self).selections@ == if selected {
                marked(
                    old(self).selections@,
                    path@,
                    SelectedEntry { kind: entry.kind, size: entry.size },
                )
            } else {
                without(old(self).selections@, path@)
            },
    {
        if selected {
            self.selections.insert(
                String::from_str(path),
                SelectedEntry { kind: entry.kind, size: entry.size },
            );
        } else {
            self.selections.remove(path);
        }
    }

    /// Whether `path` is marked.
    pub fn is_selected(&self, path: &str) -> (r: bool)
        ensures
            r == has_path(self.selections@, path@),
    {
        self.selections.contains_key(path)
    }

    /// Puts `entries` on display, with the cursor on the first of them.
    pub fn set_entries(&mut self, entries: Vec<CleanableEntry>)
        ensures
            *final(self) == (App {
                entries,
                total_size: sat_u64(listed_bytes(entry_views(entries@))),
                list_state: ListState {
                    selected: if entries@.len() == 0 {
                        None
                    } else {
                        Some(0usize)
                    },
                },
                ..*old(self)
            }),
    {
        self.total_size = sum_sizes(&entries);
        if entries.len() == 0 {
            self.list_state.select(None);
        } else {
            self.list_state.select(Some(0));
        }
        self.entries = entries;
    }

    /// Puts the top-level entries back on display, in the current order.
    pub fn restore_root_entries(&mut self)
        ensures
            *final(self) == old(self).with_root_sorted(*final(self)),
            old(self).root_sorted(*final(self)),
    {
        self.sort_root_entries();
    }

    /// What sorting the top-level entries leaves unchanged.
    pub open spec fn with_root_sorted(self, after: App) -> App {
        if self.navigation.current_path is None {
            App {
                root_entries: after.root_entries,
                entries: after.entries,
                total_size: after.total_size,
                list_state: after.list_state,
                ..self
            }
        } else {
            App { root_entries: after.root_entries, ..self }
        }
    }

    /// What sorting the top-level entries brings about: they are in the
    /// current order, and at the top level they are on display, with the
    /// cursor on the first of them.
    pub open spec fn root_sorted(self, after: App) -> bool {
        let sorted = sorted_entries(self.sort_order, entry_views(self.root_entries@));
        &&& entry_views(after.root_entries@) == sorted
        &&& self.navigation.current_path is None ==> {
            &&& entry_views(after.entries@) == sorted
            &&& after.total_size == sat_u64(listed_bytes(sorted))
            &&& after.list_state.selected == if sorted.len() == 0 {
                None
            } else {
                Some(0usize)
            }
        }
    }

    /// Puts the list kept for a directory back on display, in the current
    /// order, with the cursor on the entry it was on.
    pub fn restore_cached_dir_entries(
        &mut self,
        cached_entries: Vec<CleanableEntry>,
        selected_index: Option<usize>,
    )
        ensures
            *final(self) == (App {
                entries: final(self).entries,
                total_size: final(self).total_size,
                list_state: final(self).list_state,
                ..*old(self)
            }),
            entry_views(final(self).entries@) == sorted_entries(
                old(self).sort_order,
                entry_views(cached_entries@),
            ),
            final(self).total_size == sat_u64(listed_bytes(entry_views(cached_entries@))),
            final(self).list_state.selected == restored_cursor(
                entry_views(cached_entries@),
                selected_index,
                entry_views(final(self).entries@),
            ),
    {
        let selected_path: Option<String> = match selected_index {
            Some(index) => {
                if index < cached_entries.len() {
                    Some(cached_entries[index].path.clone())
                } else {
                    None
                }
            },
            None => None,
        };
        self.set_entries(cached_entries);
        self.sort_dir_entries();
        match selected_path {
            Some(path) => {
                match find_path(&self.entries, path.as_str()) {
                    Some(restored) => {
                        self.list_state.select(Some(restored));
                    },
                    None => {},
                }
            },
            None => {},
        }
    }

    /// Takes every entry off the display.
    pub fn clear_entries(&mut self)
        ensures
            *final(self) == (App {
                entries: final(self).entries,
                total_size: 0,
                list_state: ListState { selected: None },
                ..*old(self)
            }),
            final(self).entries@.len() == 0,
    {
        self.entries = Vec::new();
        self.total_size = 0;
        self.list_state.select(None);
    }

    /// Forgets the top-level entries.
    pub fn clear_root_entries(&mut self)
        ensures
            *final(self) == (App { root_entries: final(self).root_entries, ..*old(self) }),
            final(self).root_entries@.len() == 0,
    {
        self.root_entries = Vec::new();
    }

    /// What taking in an entry of the directory on display brings about:
    /// the entry is the last of the list, its known size is added to the
    /// total, and the cursor goes on it where it is the only entry.
    pub open spec fn took_dir_entry(self, after: App, entry: CleanableEntry) -> bool {
        &&& after.entries@ == self.entries@.push(entry)
        &&& after == (App {
            entries: after.entries,
            total_size: sat_add(self.total_size, size_rank(entry@)),
            list_state: if self.entries@.len() == 0 {
                ListState { selected: Some(0usize) }
            } else {
                self.list_state
            },
            ..self
        })
    }

    /// What taking in a top-level entry brings about: the entry is kept,
    /// and at the top level it is put on display as well.
    pub open spec fn took_root_entry(self, after: App, entry: CleanableEntry) -> bool {
        &&& after.root_entries@ == self.root_entries@.push(entry)
        &&& if self.navigation.current_path is Some {
            after == (App { root_entries: after.root_entries, ..self })
        } else {
            (App { root_entries: after.root_entries, ..self }).took_dir_entry(after, entry)
        }
    }

    /// What taking in the size of a directory brings about: the entry with
    /// that path takes the size where it has none, on display and among the
    /// top-level entries kept, and so does the marked path. A size that is
    /// known is never written again.
    pub open spec fn took_size(self, after: App, path: Seq<char>, size: u64) -> bool {
        &&& after == (App {
            entries: after.entries,
            root_entries: after.root_entries,
            total_size: after.total_size,
            selections: after.selections,
            ..self
        })
        &&& entry_views(after.entries@) == sized(entry_views(self.entries@), path, size)
        &&& entry_views(after.root_entries@) == sized(entry_views(self.root_entries@), path, size)
        &&& !awaits_size(entry_views(self.root_entries@), path) ==> after.root_entries@
            == self.root_entries@
        &&& after.total_size == if awaits_size(entry_views(self.entries@), path) {
            sat_add(self.total_size, size as int)
        } else {
            self.total_size
        }
        &&& after.selections@ == filled(self.selections@, path, size)
        &&& !awaits_size(entry_views(self.entries@), path) ==> after.entries@ == self.entries@
    }

    /// What sorting the list on display brings about: it is in the current
    /// order, with the cursor on its first entry.
    pub open spec fn dir_sorted(self, after: App) -> bool {
        &&& after == (App { entries: after.entries, list_state: after.list_state, ..self })
        &&& entry_views(after.entries@) == sorted_entries(
            self.sort_order,
            entry_views(self.entries@),
        )
        &&& after.list_state == if self.entries@.len() == 0 {
            self.list_state
        } else {
            ListState { selected: Some(0usize) }
        }
    }

    /// The state after the end of the scan was noted.
    pub open spec fn scan_finished(self) -> App {
        App {
            scan_in_progress: false,
            mode: if self.mode == Mode::Scanning {
                Mode::Normal
            } else {
                self.mode
            },
            scan_progress: 100,
            ..self
        }
    }

    /// Takes in a top-level entry that a scan reports: it is kept, and at
    /// the top level it is put on display as well.
    pub fn apply_root_entry(&mut self, entry: CleanableEntry)
        ensures
            old(self).took_root_entry(*final(self), entry),
    {
        self.root_entries.push(entry.clone());
        if self.navigation.current_path.is_none() {
            self.apply_dir_entry(entry);
        }
    }

    /// Takes in an entry of the directory on display that a scan reports.
    pub fn apply_dir_entry(&mut self, entry: CleanableEntry)
        ensures
            old(self).took_dir_entry(*final(self), entry),
    {
        match entry.size {
            Some(size) => {
                self.total_size = self.total_size.saturating_add(size);
            },
            None => {},
        }
        self.entries.push(entry);
        if self.entries.len() == 1 {
            self.list_state.select(Some(0));
        }
    }

    /// Takes in the size of a directory that a scan reports after the
    /// directory itself. The entry with that path takes the size where it
    /// has none, on display and among the top-level entries kept, and so
    /// does the marked path. A size that is known is never written again: a
    /// second report for the same path changes nothing.
    pub fn apply_entry_size(&mut self, path: &str, size: u64)
        ensures
            old(self).took_size(*final(self), path@, size),
    {
        if crate::app::fill_entry_size(&mut self.entries, path, size) {
            self.total_size = self.total_size.saturating_add(size);
        }
        crate::app::fill_entry_size(&mut self.root_entries, path, size);
        self.selections.fill_size(path, size);
    }

    /// Sorts the top-level entries in the current order and, at the top
    /// level, puts them on display.
    pub fn sort_root_entries(&mut self)
        ensures
            *final(self) == old(self).with_root_sorted(*final(self)),
            old(self).root_sorted(*final(self)),
    {
        let order = self.sort_order;
        sort_entries(&mut self.root_entries, &order);
        if self.navigation.current_path.is_none() {
            let shown = clone_entries(&self.root_entries);
            self.set_entries(shown);
        }
    }

    /// Sorts the list on display in the current order and puts the cursor
    /// on its first entry.
    pub fn sort_dir_entries(&mut self)
        ensures
            old(self).dir_sorted(*final(self)),
    {
        let order = self.sort_order;
        sort_entries(&mut self.entries, &order);
        if self.entries.len() > 0 {
            self.list_state.select(Some(0));
        }
    }

    /// The state with the order switched to the next one.
    pub open spec fn with_order_toggled(self) -> App {
        App { sort_order: self.sort_order.toggled(), ..self }
    }

    /// Switches to the next order and sorts what is on display: the
    /// top-level entries at the top level, the list of the directory
    /// elsewhere.
    pub fn toggle_sort_order(&mut self)
        ensures
            old(self).navigation.current_path is None ==> *final(self) == old(
                self).with_order_toggled().with_root_sorted(*final(self)) && old(
                self).with_order_toggled().root_sorted(*final(self)),
            old(self).navigation.current_path is Some ==> old(self).with_order_toggled().dir_sorted(
                *final(self),
            ),
    {
        self.sort_order = self.sort_order.toggle();
        if self.navigation.current_path.is_none() {
            self.sort_root_entries();
        } else {
            self.sort_dir_entries();
        }
    }

    /// What is marked, as entries for the cleaner, in the order in which it
    /// was marked.
    pub fn get_selected_items(&self) -> (r: Vec<CleanableEntry>)
        ensures
            entry_views(r@) == self.selections@.map_values(
                |item: (Seq<char>, SelectedEntry)| selected_item(item),
            ),
    {
        let ghost want = self.selections@.map_values(
            |item: (Seq<char>, SelectedEntry)| selected_item(item),
        );
        let mut r: Vec<CleanableEntry> = Vec::new();
        let n = self.selections.len();
        let mut i: usize = 0;
        while i < n
            invariant
                i <= n,
                n == self.selections@.len(),
                want == self.selections@.map_values(
                    |item: (Seq<char>, SelectedEntry)| selected_item(item),
                ),
                entry_views(r@) == want.subrange(0, i as int),
            decreases n - i,
        {
            let item = self.selections.item(i);
            let name = match path_file_name(item.path.as_str()) {
                Some(name) => name,
                None => item.path.clone(),
            };
            let entry = CleanableEntry {
                kind: item.entry.kind,
                category: None,
                path: item.path.clone(),
                name,
                size: item.entry.size,
                modified_at: None,
            };
            let ghost before = entry_views(r@);
            r.push(entry);
            assert(entry_views(r@) =~= before.push(entry@));
            i += 1;
        }
        r
    }

    /// The space the top-level entries take up, category by category, in
    /// the order in which the categories first occur.
    pub fn get_category_stats(&self) -> (r: Vec<(String, u64)>)
        ensures
            stat_views(r@) == category_stats(entry_views(self.root_entries@)),
    {
        let ghost all = entry_views(self.root_entries@);
        let mut r: Vec<(String, u64)> = Vec::new();
        let mut i: usize = 0;
        while i < self.root_entries.len()
            invariant
                i <= self.root_entries.len(),
                all == entry_views(self.root_entries@),
                stat_views(r@) == category_stats(all.subrange(0, i as int)),
            decreases self.root_entries.len() - i,
        {
            proof {
                assert(all.subrange(0, i + 1).drop_last() =~= all.subrange(0, i as int));
            }
            let entry = &self.root_entries[i];
            let label = match entry.category {
                Some(category) => String::from_str(category.as_str()),
                None => String::from_str("其他"),
            };
            let size: u64 = match entry.size {
                Some(n) => n,
                None => 0,
            };
            let ghost before = stat_views(r@);
            let mut k: usize = 0;
            let mut found = false;
            while k < r.len() && !found
                invariant
                    k <= r.len(),
                    before == stat_views(r@),
                    !found ==> forall|j: int| 0 <= j < k ==> (#[trigger] before[j]).0 != label@,
                    found ==> k < r.len() && before[k as int].0 == label@ && forall|j: int|
                        0 <= j < k ==> (#[trigger] before[j]).0 != label@,
                decreases r.len() - k + if found { 0int } else { 1int },
            {
                if r[k].0 == label {
                    found = true;
                } else {
                    k += 1;
                }
            }
            proof {
                lemma_stat_position(before, label@);
            }
            if found {
                let sum = r[k].1.saturating_add(size);
                r.set(k, (label, sum));
            } else {
                r.push((label, size));
            }
            i += 1;
        }
        assert(all.subrange(0, i as int) =~= all);
        r
    }

    /// Asks for the deletion to be confirmed, where anything of known size
    /// is marked.
    pub fn enter_confirm_mode(&mut self)
        ensures
            *final(self) == if sat_u64(selected_bytes(old(self).selections@)) > 0 {
                App { confirm_scroll: 0, mode: Mode::Confirm, ..*old(self) }
            } else {
                *old(self)
            },
    {
        if self.selected_size() > 0 {
            self.confirm_scroll = 0;
            self.mode = Mode::Confirm;
        }
    }

    /// Leaves the confirmation without deleting.
    pub fn cancel_confirm(&mut self)
        ensures
            *final(self) == (App { mode: Mode::Normal, ..*old(self) }),
    {
        self.mode = Mode::Normal;
    }

    /// Shows the help; hides it where it is shown.
    pub fn toggle_help(&mut self)
        ensures
            *final(self) == (App {
                mode: if old(self).mode == Mode::Help {
                    Mode::Normal
                } else {
                    Mode::Help
                },
                ..*old(self)
            }),
    {
        self.mode = if self.mode == Mode::Help {
            Mode::Normal
        } else {
            Mode::Help
        };
    }

    /// Shows the statistics; hides them where they are shown.
    pub fn toggle_stats(&mut self)
        ensures
            *final(self) == (App {
                mode: if old(self).mode == Mode::Stats {
                    Mode::Normal
                } else {
                    Mode::Stats
                },
                ..*old(self)
            }),
    {
        self.mode = if self.mode == Mode::Stats {
            Mode::Normal
        } else {
            Mode::Stats
        };
    }

    /// Shows the preview of the deletion, or hides it. Neither changes
    /// what is marked or what is on disk.
    pub fn set_dry_run(&mut self, preview: Option<DryRunResult>)
        ensures
            *final(self) == (App {
                dry_run_active: preview is Some,
                dry_run_result: if preview is Some {
                    preview
                } else {
                    old(self).dry_run_result
                },
                ..*old(self)
            }),
    {
        match preview {
            Some(result) => {
                self.dry_run_result = Some(result);
                self.dry_run_active = true;
            },
            None => {
                self.dry_run_active = false;
            },
        }
    }

    /// Scrolls the list of the confirmation by one line.
    pub fn scroll_confirm(&mut self, down: bool)
        ensures
            *final(self) == (App {
                confirm_scroll: if down {
                    if old(self).confirm_scroll < usize::MAX {
                        (old(self).confirm_scroll + 1) as usize
                    } else {
                        usize::MAX
                    }
                } else {
                    if old(self).confirm_scroll > 0 {
                        (old(self).confirm_scroll - 1) as usize
                    } else {
                        0usize
                    }
                },
                ..*old(self)
            }),
    {
        if down {
            self.confirm_scroll = self.confirm_scroll.saturating_add(1);
        } else {
            self.confirm_scroll = self.confirm_scroll.saturating_sub(1);
        }
    }

    pub fn quit(&mut self)
        ensures
            *final(self) == (App { should_quit: true, ..*old(self) }),
    {
        self.should_quit = true;
    }

    pub fn set_error(&mut self, msg: String)
        ensures
            *final(self) == (App { error_message: Some(msg), ..*old(self) }),
    {
        self.error_message = Some(msg);
    }

    pub fn clear_error(&mut self)
        ensures
            *final(self) == (App { error_message: None, ..*old(self) }),
    {
        self.error_message = None;
    }

    /// The path shown as the place on display.
    pub fn breadcrumb(&self) -> (r: String)
        ensures
            r@ == match self.navigation.current_path {
                Some(path) => path@,
                None => "/"@,
            },
    {
        self.navigation.breadcrumb()
    }

    /// Notes that the scan ended.
    pub fn finish_scan(&mut self)
        ensures
            *final(self) == old(self).scan_finished(),
    {
        self.scan_in_progress = false;
        if self.mode == Mode::Scanning {
            self.mode = Mode::Normal;
        }
        self.scan_progress = 100;
    }

    /// Unmarks everything.
    pub fn clear_selections(&mut self)
        ensures
            *final(self) == (App { selections: final(self).selections, ..*old(self) }),
            final(self).selections@.len() == 0,
    {
        self.selections.clear();
    }

    /// Begins a search in the list on display.
    pub fn start_search(&mut self)
        ensures
            *final(self) == (App {
                search_query: final(self).search_query,
                pre_search_entries: final(self).pre_search_entries,
                mode: Mode::Search,
                ..*old(self)
            }),
            final(self).pre_search_entries@ == old(self).entries@,
            final(self).search_query@.len() == 0,
    {
        self.search_query = String::new();
        self.pre_search_entries = clone_entries(&self.entries);
        self.mode = Mode::Search;
    }

    /// Takes one more character of the query and narrows the list to it.
    pub fn search_char(&mut self, c: char)
        ensures
            old(self).searched(*final(self), old(self).search_query@.push(c)),
    {
        push_char(&mut self.search_query, c);
        self.apply_search_filter();
    }

    /// Takes the last character off the query and widens the list to it.
    pub fn search_backspace(&mut self)
        ensures
            old(self).searched(
                *final(self),
                if old(self).search_query@.len() > 0 {
                    old(self).search_query@.drop_last()
                } else {
                    old(self).search_query@
                },
            ),
    {
        pop_char(&mut self.search_query);
        self.apply_search_filter();
    }

    /// What a search for `query` brings about: of the list as it was before
    /// the search, the entries that match are on display, with the cursor
    /// on the first of them.
    pub open spec fn searched(self, after: App, query: Seq<char>) -> bool {
        let found = search_results(entry_views(self.pre_search_entries@), query);
        &&& after == (App {
            search_query: after.search_query,
            entries: after.entries,
            total_size: after.total_size,
            list_state: after.list_state,
            ..self
        })
        &&& after.search_query@ == query
        &&& entry_views(after.entries@) == found
        &&& after.total_size == sat_u64(listed_bytes(found))
        &&& after.list_state.selected == if found.len() == 0 {
            None
        } else {
            Some(0usize)
        }
    }

    /// Narrows the list on display to the entries that match the query.
    pub fn apply_search_filter(&mut self)
        ensures
            old(self).searched(*final(self), old(self).search_query@),
    {
        let ghost all = entry_views(self.pre_search_entries@);
        let ghost q = self.search_query@;
        if self.search_query.as_str().unicode_len() == 0 {
            let restored = clone_entries(&self.pre_search_entries);
            self.set_entries(restored);
            return ;
        }
        let query = to_lowercase(self.search_query.as_str());
        let mut found: Vec<CleanableEntry> = Vec::new();
        let mut i: usize = 0;
        while i < self.pre_search_entries.len()
            invariant
                i <= self.pre_search_entries.len(),
                *self == *old(self),
                all == entry_views(self.pre_search_entries@),
                q == self.search_query@,
                q.len() > 0,
                query@ == crate::text::lowercase_text(q),
                entry_views(found@) == search_results(all.subrange(0, i as int), q),
            decreases self.pre_search_entries.len() - i,
        {
            proof {
                assert(all.subrange(0, i + 1).drop_last() =~= all.subrange(0, i as int));
            }
            let name = to_lowercase(self.pre_search_entries[i].name.as_str());
            if str_contains(name.as_str(), query.as_str()) {
                found.push(self.pre_search_entries[i].clone());
            }
            i += 1;
        }
        assert(all.subrange(0, i as int) =~= all);
        self.set_entries(found);
    }

    /// Ends the search and keeps the narrowed list.
    pub fn confirm_search(&mut self)
        ensures
            *final(self) == (App { mode: Mode::Normal, ..*old(self) }),
    {
        self.mode = Mode::Normal;
    }

    /// Ends the search and puts the list back as it was before.
    pub fn cancel_search(&mut self)
        ensures
            final(self).entries@ == old(self).pre_search_entries@,
            *final(self) == (App {
                mode: Mode::Normal,
                entries: final(self).entries,
                total_size: sat_u64(listed_bytes(entry_views(old(self).pre_search_entries@))),
                list_state: ListState {
                    selected: if old(self).pre_search_entries@.len() == 0 {
                        None
                    } else {
                        Some(0usize)
                    },
                },
                search_query: final(self).search_query,
                ..*old(self)
            }),
            final(self).search_query@.len() == 0,
    {
        self.mode = Mode::Normal;
        let restored = clone_entries(&self.pre_search_entries);
        self.set_entries(restored);
        self.search_query = String::new();
    }

    /// Begins the typing of a path.
    pub fn start_input(&mut self)
        ensures
            *final(self) == (App {
                input_buffer: final(self).input_buffer,
                mode: Mode::InputPath,
                ..*old(self)
            }),
            final(self).input_buffer@.len() == 0,
    {
        self.input_buffer = String::new();
        self.mode = Mode::InputPath;
    }

    /// Takes one more character of the path.
    pub fn input_char(&mut self, c: char)
        ensures
            *final(self) == (App { input_buffer: final(self).input_buffer, ..*old(self) }),
            final(self).input_buffer@ == old(self).input_buffer@.push(c),
    {
        push_char(&mut self.input_buffer, c);
    }

    /// Takes the last character off the path.
    pub fn input_backspace(&mut self)
        ensures
            *final(self) == (App { input_buffer: final(self).input_buffer, ..*old(self) }),
            final(self).input_buffer@ == if old(self).input_buffer@.len() > 0 {
                old(self).input_buffer@.drop_last()
            } else {
                old(self).input_buffer@
            },
    {
        pop_char(&mut self.input_buffer);
    }

    /// What a typed path, already without the white space around it, stands
    /// for, `home` being the home directory where one is known.
    pub fn resolve_input(trimmed: &str, home: Option<&str>) -> (r: Option<String>)
        ensures
            crate::app::opt_string_text(r) == typed_path(trimmed@, opt_text(home)),
    {
        if trimmed.unicode_len() == 0 {
            None
        } else {
            Some(expand_tilde_with(trimmed, home))
        }
    }

    /// Ends the typing of a path and hands back the path typed, with the
    /// white space around it taken off and a leading `~` replaced by
    /// whatever home directory the system names; nothing where only white
    /// space was typed.
    pub fn confirm_input(&mut self) -> (r: Option<String>)
        ensures
            *final(self) == (App { mode: Mode::Normal, ..*old(self) }),
            exists|home: Option<Seq<char>>|
                crate::app::opt_string_text(r) == typed_path(
                    trimmed_text(old(self).input_buffer@),
                    home,
                ),
            trimmed_text(old(self).input_buffer@).len() == 0 <==> r is None,
    {
        self.mode = Mode::Normal;
        let trimmed = trim_text(self.input_buffer.as_str());
        let home = resolve_home_dir();
        match home {
            Some(h) => {
                let r = Self::resolve_input(trimmed.as_str(), Some(h.as_str()));
                r
            },
            None => {
                let r = Self::resolve_input(trimmed.as_str(), None);
                r
            },
        }
    }

    /// Ends the typing of a path without taking the path.
    pub fn cancel_input(&mut self)
        ensures
            *final(self) == (App {
                input_buffer: final(self).input_buffer,
                mode: Mode::Normal,
                ..*old(self)
            }),
            final(self).input_buffer@.len() == 0,
    {
        self.input_buffer = String::new();
        self.mode = Mode::Normal;
    }
}

/// The name under which an entry is counted in the statistics: the name of
/// its category, or a common name for entries without one.
pub open spec fn stat_label(category: Option<crate::app::ItemCategory>) -> Seq<char> {
    match category {
        Some(c) => c.label(),
        None => "其他"@,
    }
}

/// The values of a list of statistics.
pub open spec fn stat_views(stats: Seq<(String, u64)>) -> Seq<(Seq<char>, u64)> {
    stats.map_values(|s: (String, u64)| (s.0@, s.1))
}

/// The position of the name `label` among the statistics.
pub open spec fn stat_position(stats: Seq<(Seq<char>, u64)>, label: Seq<char>) -> Option<int>
    decreases stats.len(),
{
    if stats.len() == 0 {
        None
    } else {
        match stat_position(stats.drop_last(), label) {
            Some(i) => Some(i),
            None => if stats.last().0 == label {
                Some(stats.len() - 1)
            } else {
                None
            },
        }
    }
}

/// The position of a name is the first position at which the name stands,
/// and a name has no position only where it stands nowhere.
pub proof fn lemma_stat_position(stats: Seq<(Seq<char>, u64)>, label: Seq<char>)
    ensures
        match stat_position(stats, label) {
            Some(i) => 0 <= i < stats.len() && stats[i].0 == label && forall|k: int|
                0 <= k < i ==> (#[trigger] stats[k]).0 != label,
            None => forall|k: int| 0 <= k < stats.len() ==> (#[trigger] stats[k]).0 != label,
        },
    decreases stats.len(),
{
    if stats.len() > 0 {
        let front = stats.drop_last();
        lemma_stat_position(front, label);
        match stat_position(front, label) {
            Some(i) => {
                assert forall|k: int| 0 <= k < i implies (#[trigger] stats[k]).0 != label by {
                    assert(stats[k] == front[k]);
                }
            },
            None => {
                assert forall|k: int| 0 <= k < stats.len() - 1 implies (
                #[trigger] stats[k]).0 != label by {
                    assert(stats[k] == front[k]);
                }
            },
        }
    }
}

/// The statistics with `size` bytes counted under `label`: added to what
/// is counted under that name, or counted under it as a new last name.
pub open spec fn counted_under(stats: Seq<(Seq<char>, u64)>, label: Seq<char>, size: u64) -> Seq<
    (Seq<char>, u64),
> {
    match stat_position(stats, label) {
        Some(i) => stats.update(i, (label, sat_add(stats[i].1, size as int))),
        None => stats.push((label, size)),
    }
}

/// The statistics of a list of entries: for each category that occurs, in
/// the order of first occurrence, the known sizes of its entries summed up.
pub open spec fn category_stats(entries: Seq<EntryView>) -> Seq<(Seq<char>, u64)>
    decreases entries.len(),
{
    if entries.len() == 0 {
        Seq::empty()
    } else {
        counted_under(
            category_stats(entries.drop_last()),
            stat_label(entries.last().category),
            sat_u64(size_rank(entries.last())),
        )
    }
}

/// A size that is reported a second time for a path changes nothing: not
/// the entries, not the totals, not what is marked.
pub proof fn lemma_second_size_changes_nothing(
    a: App,
    b: App,
    c: App,
    path: Seq<char>,
    first: u64,
    second: u64,
)
    requires
        a.took_size(b, path, first),
        b.took_size(c, path, second),
    ensures
        c.entries@ == b.entries@,
        c.root_entries@ == b.root_entries@,
        c.total_size == b.total_size,
        c.selections@ == b.selections@,
        sat_u64(selected_bytes(c.selections@)) == sat_u64(selected_bytes(b.selections@)),
{
    crate::app::lemma_sized_is_idempotent(entry_views(a.entries@), path, first, second);
    crate::app::lemma_sized_is_idempotent(entry_views(a.root_entries@), path, first, second);
    crate::selection::lemma_fill_is_idempotent(a.selections@, path, first, second);
}

/// `a + b`, held as `u64::MAX` where it does not fit.
pub open spec fn sat_add(a: u64, b: int) -> u64 {
    sat_u64(a + b)
}

/// The cursor after a kept list was put back on display: on the entry it
/// was on, where that entry is found by its path; else on the first entry.
pub open spec fn restored_cursor(
    cached: Seq<EntryView>,
    selected_index: Option<usize>,
    shown: Seq<EntryView>,
) -> Option<usize> {
    let top = if shown.len() == 0 {
        None
    } else {
        Some(0usize)
    };
    match selected_index {
        Some(k) => if k < cached.len() {
            match first_position(shown, cached[k as int].path) {
                Some(p) => Some(p as usize),
                None => top,
            }
        } else {
            top
        },
        None => top,
    }
}

} // verus!
