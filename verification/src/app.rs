//! The entry model, and the state of the interface: the list on display,
//! the selection, and where in the directory tree the user stands.

use vstd::prelude::*;
use vstd::string::*;
use crate::cleaner::entry_views;
pub use crate::app_state::App;
pub use crate::selection::SelectedEntry;
use crate::selection::{marked, without, has_path};
use crate::sorting::size_rank;
use crate::sums::{total, sat_u64, lemma_total_push};
use crate::text::{file_name_text, has_substring, lowercase_text};

verus! {

/// What the interface is currently doing.
#[derive(Debug, Clone, Copy, PartialEq, Eq, Structural)]
pub enum Mode {
    /// Browsing the list.
    Normal,
    /// A top-level scan is running.
    Scanning,
    /// Waiting for the deletion to be confirmed.
    Confirm,
    /// The help screen is shown.
    Help,
    /// A path is being typed.
    InputPath,
    /// A search query is being typed.
    Search,
    /// The statistics panel is shown.
    Stats,
}

/// How a list of entries is ordered.
#[derive(Debug, Clone, Copy, PartialEq, Eq, Structural)]
pub enum SortOrder {
    /// By name, directories before files.
    ByName,
    /// By size, largest first.
    BySize,
    /// By modification time, newest first.
    ByTime,
}

impl Default for SortOrder {
    fn default() -> (r: Self)
        ensures
            r == SortOrder::ByName,
    {
        SortOrder::ByName
    }
}

impl SortOrder {
    /// The order that follows `self` when the user switches: by name and by
    /// size alternate, and any other order goes back to by name.
    pub open spec fn toggled(self) -> SortOrder {
        match self {
            SortOrder::ByName => SortOrder::BySize,
            SortOrder::BySize => SortOrder::ByName,
            SortOrder::ByTime => SortOrder::ByName,
        }
    }

    /// The label shown for this order.
    pub open spec fn label(self) -> Seq<char> {
        match self {
            SortOrder::ByName => "名称"@,
            SortOrder::BySize => "大小"@,
            SortOrder::ByTime => "时间"@,
        }
    }

    pub fn as_str(&self) -> (r: &'static str)
        ensures
            r@ == self.label(),
    {
        match self {
            SortOrder::ByName => "名称",
            SortOrder::BySize => "大小",
            SortOrder::ByTime => "时间",
        }
    }

    pub fn toggle(&self) -> (r: Self)
        ensures
            r == self.toggled(),
    {
        match self {
            SortOrder::ByName => SortOrder::BySize,
            SortOrder::BySize => SortOrder::ByName,
            SortOrder::ByTime => SortOrder::ByName,
        }
    }
}

/// Why an entry was surfaced by a scan of the well-known locations.
#[derive(Debug, Clone, Copy, PartialEq, Eq, Structural)]
pub enum ItemCategory {
    SystemCache,
    AppCache,
    Logs,
    Temp,
    XcodeDerivedData,
    NodeModules,
    HomebrewCache,
    Downloads,
    Trash,
    CocoaPods,
    NpmCache,
    PipCache,
    DockerData,
    CargoCache,
    /// A location the user configured.
    Custom,
}

impl ItemCategory {
    /// The display name of the category.
    pub open spec fn label(self) -> Seq<char> {
        match self {
            ItemCategory::SystemCache => "系统缓存"@,
            ItemCategory::AppCache => "应用缓存"@,
            ItemCategory::Logs => "日志文件"@,
            ItemCategory::Temp => "临时文件"@,
            ItemCategory::XcodeDerivedData => "Xcode 派生数据"@,
            ItemCategory::NodeModules => "node_modules"@,
            ItemCategory::HomebrewCache => "Homebrew 缓存"@,
            ItemCategory::CocoaPods => "CocoaPods 缓存"@,
            ItemCategory::NpmCache => "npm 缓存"@,
            ItemCategory::PipCache => "pip 缓存"@,
            ItemCategory::DockerData => "Docker 数据"@,
            ItemCategory::CargoCache => "Cargo 缓存"@,
            ItemCategory::Downloads => "下载文件夹"@,
            ItemCategory::Trash => "垃圾桶"@,
            ItemCategory::Custom => "自定义目录"@,
        }
    }

    /// One sentence on what the category holds.
    pub open spec fn summary(self) -> Seq<char> {
        match self {
            ItemCategory::SystemCache => "macOS 系统级缓存文件"@,
            ItemCategory::AppCache => "应用程序产生的缓存"@,
            ItemCategory::Logs => "系统和应用的日志文件"@,
            ItemCategory::Temp => "临时文件和目录"@,
            ItemCategory::XcodeDerivedData => "Xcode 构建产物和索引"@,
            ItemCategory::NodeModules => "Node.js 依赖目录"@,
            ItemCategory::HomebrewCache => "Homebrew 下载缓存"@,
            ItemCategory::CocoaPods => "CocoaPods 缓存目录"@,
            ItemCategory::NpmCache => "npm 包下载缓存"@,
            ItemCategory::PipCache => "pip 包下载缓存"@,
            ItemCategory::DockerData => "Docker 容器和镜像数据"@,
            ItemCategory::CargoCache => "Cargo registry 下载缓存"@,
            ItemCategory::Downloads => "下载文件夹中的文件"@,
            ItemCategory::Trash => "回收站中的文件"@,
            ItemCategory::Custom => "用户配置的扫描目录"@,
        }
    }

    pub fn as_str(&self) -> (r: &'static str)
        ensures
            r@ == self.label(),
    {
        match self {
            ItemCategory::SystemCache => "系统缓存",
            ItemCategory::AppCache => "应用缓存",
            ItemCategory::Logs => "日志文件",
            ItemCategory::Temp => "临时文件",
            ItemCategory::XcodeDerivedData => "Xcode 派生数据",
            ItemCategory::NodeModules => "node_modules",
            ItemCategory::HomebrewCache => "Homebrew 缓存",
            ItemCategory::CocoaPods => "CocoaPods 缓存",
            ItemCategory::NpmCache => "npm 缓存",
            ItemCategory::PipCache => "pip 缓存",
            ItemCategory::DockerData => "Docker 数据",
            ItemCategory::CargoCache => "Cargo 缓存",
            ItemCategory::Downloads => "下载文件夹",
            ItemCategory::Trash => "垃圾桶",
            ItemCategory::Custom => "自定义目录",
        }
    }

    pub fn description(&self) -> (r: &'static str)
        ensures
            r@ == self.summary(),
    {
        match self {
            ItemCategory::SystemCache => "macOS 系统级缓存文件",
            ItemCategory::AppCache => "应用程序产生的缓存",
            ItemCategory::Logs => "系统和应用的日志文件",
            ItemCategory::Temp => "临时文件和目录",
            ItemCategory::XcodeDerivedData => "Xcode 构建产物和索引",
            ItemCategory::NodeModules => "Node.js 依赖目录",
            ItemCategory::HomebrewCache => "Homebrew 下载缓存",
            ItemCategory::CocoaPods => "CocoaPods 缓存目录",
            ItemCategory::NpmCache => "npm 包下载缓存",
            ItemCategory::PipCache => "pip 包下载缓存",
            ItemCategory::DockerData => "Docker 容器和镜像数据",
            ItemCategory::CargoCache => "Cargo registry 下载缓存",
            ItemCategory::Downloads => "下载文件夹中的文件",
            ItemCategory::Trash => "回收站中的文件",
            ItemCategory::Custom => "用户配置的扫描目录",
        }
    }
}

/// Whether an entry is a directory or a regular file.
#[derive(Debug, Clone, Copy, PartialEq, Eq, Structural)]
pub enum EntryKind {
    Directory,
    File,
}

/// The mathematical value of a [`CleanableEntry`]: its texts as sequences of
/// characters.
pub struct EntryView {
    pub kind: EntryKind,
    pub category: Option<ItemCategory>,
    pub path: Seq<char>,
    pub name: Seq<char>,
    pub size: Option<u64>,
    pub modified_at: Option<u64>,
}

/// One filesystem object that a scan found.
#[derive(Debug)]
pub struct CleanableEntry {
    pub kind: EntryKind,
    pub category: Option<ItemCategory>,
    /// Absolute path; identifies the entry within a view.
    pub path: String,
    pub name: String,
    /// Bytes below the entry; `None` until computed.
    pub size: Option<u64>,
    /// Last modification, in seconds since 1970-01-01 00:00:00 UTC.
    pub modified_at: Option<u64>,
}

impl View for CleanableEntry {
    type V = EntryView;

    open spec fn view(&self) -> EntryView {
        EntryView {
            kind: self.kind,
            category: self.category,
            path: self.path@,
            name: self.name@,
            size: self.size,
            modified_at: self.modified_at,
        }
    }
}

impl Clone for CleanableEntry {
    fn clone(&self) -> (r: Self)
        ensures
            r == *self,
    {
        CleanableEntry {
            kind: self.kind,
            category: self.category,
            path: self.path.clone(),
            name: self.name.clone(),
            size: self.size,
            modified_at: self.modified_at,
        }
    }
}

/// The mathematical value of a frame of the navigation stack.
pub struct NavFrameView {
    pub path: Seq<char>,
    pub entries: Seq<EntryView>,
    pub selected_index: Option<usize>,
}

/// One level of the navigation stack: the directory entered, and the list
/// and cursor that were on display when it was entered.
#[derive(Debug)]
pub struct NavFrame {
    pub path: String,
    pub entries: Vec<CleanableEntry>,
    pub selected_index: Option<usize>,
}

impl View for NavFrame {
    type V = NavFrameView;

    open spec fn view(&self) -> NavFrameView {
        NavFrameView {
            path: self.path@,
            entries: entry_views(self.entries@),
            selected_index: self.selected_index,
        }
    }
}

/// Where in the directory tree the user stands.
#[derive(Debug)]
pub struct NavigationState {
    /// The directory on display; `None` at the top level.
    pub current_path: Option<String>,
    /// The directories entered, outermost first.
    pub stack: Vec<NavFrame>,
}

/// The text of an optional owned string.
pub open spec fn opt_string_text(s: Option<String>) -> Option<Seq<char>> {
    match s {
        Some(t) => Some(t@),
        None => None,
    }
}

impl Default for NavigationState {
    fn default() -> (r: Self)
        ensures
            r.frames() == Seq::<NavFrameView>::empty(),
            r.current_path is None,
    {
        NavigationState::new()
    }
}

impl NavigationState {
    /// The directories entered, outermost first, each with the list and
    /// cursor that were on display when it was entered.
    pub open spec fn frames(self) -> Seq<NavFrameView> {
        self.stack@.map_values(|f: NavFrame| f@)
    }

    pub fn new() -> (r: Self)
        ensures
            r.frames() == Seq::<NavFrameView>::empty(),
            r.current_path is None,
    {
        let r = NavigationState { current_path: None, stack: Vec::new() };
        r
    }

    /// Goes back to the top level and forgets every directory entered.
    pub fn reset_root(&mut self)
        ensures
            final(self).frames() == Seq::<NavFrameView>::empty(),
            final(self).current_path is None,
    {
        self.stack = Vec::new();
        self.current_path = None;
    }

    /// Enters the directory `path`, and keeps the list on display and the
    /// cursor for the way back.
    pub fn enter(
        &mut self,
        path: String,
        current_entries: Vec<CleanableEntry>,
        selected_index: Option<usize>,
    )
        ensures
            final(self).frames() == old(self).frames().push(
                NavFrameView {
                    path: path@,
                    entries: entry_views(current_entries@),
                    selected_index,
                },
            ),
            opt_string_text(final(self).current_path) == Some(path@),
    {
        let ghost before = self.frames();
        let frame = NavFrame { path: path.clone(), entries: current_entries, selected_index };
        self.stack.push(frame);
        self.current_path = Some(path);
    }

    /// Leaves the directory entered last. Where that leads to a directory
    /// entered before, hands back the list and the cursor kept when the
    /// directory left was entered; where it leads to the top level, or
    /// nothing was entered, hands back nothing.
    pub fn back(&mut self) -> (r: Option<(Vec<CleanableEntry>, Option<usize>)>)
        ensures
            old(self).frames().len() == 0 ==> r is None && *final(self) == *old(self),
            old(self).frames().len() > 0 ==> final(self).frames() == old(self).frames().drop_last(),
            old(self).frames().len() == 1 ==> r is None && final(self).current_path is None,
            old(self).frames().len() > 1 ==> r is Some
                && entry_views(r.unwrap().0@) == old(self).frames().last().entries
                && r.unwrap().1 == old(self).frames().last().selected_index
                && opt_string_text(final(self).current_path) == Some(
                old(self).frames()[old(self).frames().len() - 2].path,
            ),
    {
        if self.stack.len() == 0 {
            return None;
        }
        let popped = self.stack.pop().unwrap();
        let n = self.stack.len();
        if n > 0 {
            let path = self.stack[n - 1].path.clone();
            self.current_path = Some(path);
            Some((popped.entries, popped.selected_index))
        } else {
            self.current_path = None;
            None
        }
    }

    /// The path shown as the place on display: the directory entered, or
    /// `/` at the top level.
    pub fn breadcrumb(&self) -> (r: String)
        ensures
            r@ == match self.current_path {
                Some(path) => path@,
                None => "/"@,
            },
    {
        match &self.current_path {
            Some(path) => path.clone(),
            None => String::from_str("/"),
        }
    }
}

/// The cursor of the list on display.
#[derive(Debug, Clone, Copy, PartialEq, Eq, Structural)]
pub struct ListState {
    pub selected: Option<usize>,
}

impl ListState {
    /// Puts the cursor on `index`, or takes it off the list.
    pub fn select(&mut self, index: Option<usize>)
        ensures
            final(self).selected == index,
    {
        self.selected = index;
    }

    /// Where the cursor is.
    pub fn selected(&self) -> (r: Option<usize>)
        ensures
            r == self.selected,
    {
        self.selected
    }
}

/// The known sizes of a list of entries, summed up.
pub open spec fn listed_bytes(entries: Seq<EntryView>) -> int {
    total(Seq::new(entries.len(), |i: int| size_rank(entries[i])))
}

/// One more entry adds its known size.
pub proof fn lemma_listed_bytes_push(entries: Seq<EntryView>, e: EntryView)
    ensures
        listed_bytes(entries.push(e)) == listed_bytes(entries) + size_rank(e),
        listed_bytes(entries) >= 0,
    decreases entries.len(),
{
    let more = entries.push(e);
    let f = Seq::new(entries.len(), |i: int| size_rank(entries[i]));
    let g = Seq::new(more.len(), |i: int| size_rank(more[i]));
    assert(g =~= f.push(size_rank(e)));
    lemma_total_push(f, size_rank(e));
    if entries.len() > 0 {
        lemma_listed_bytes_push(entries.drop_last(), entries.last());
        assert(entries.drop_last().push(entries.last()) =~= entries);
    }
}

/// The position of the first entry with the path `path`.
pub open spec fn first_position(entries: Seq<EntryView>, path: Seq<char>) -> Option<int>
    decreases entries.len(),
{
    if entries.len() == 0 {
        None
    } else {
        match first_position(entries.drop_last(), path) {
            Some(i) => Some(i),
            None => if entries.last().path == path {
                Some(entries.len() - 1)
            } else {
                None
            },
        }
    }
}

/// The first position of a path is a position of the list, the entry there
/// has the path, and no entry before it has; and a path has no first
/// position only where no entry has it.
pub proof fn lemma_first_position(entries: Seq<EntryView>, path: Seq<char>)
    ensures
        match first_position(entries, path) {
            Some(i) => 0 <= i < entries.len() && entries[i].path == path && forall|k: int|
                0 <= k < i ==> (#[trigger] entries[k]).path != path,
            None => forall|k: int| 0 <= k < entries.len() ==> (#[trigger] entries[k]).path != path,
        },
    decreases entries.len(),
{
    if entries.len() > 0 {
        let front = entries.drop_last();
        lemma_first_position(front, path);
        match first_position(front, path) {
            Some(i) => {
                assert forall|k: int| 0 <= k < i implies (#[trigger] entries[k]).path != path by {
                    assert(entries[k] == front[k]);
                }
            },
            None => {
                assert forall|k: int| 0 <= k < entries.len() - 1 implies (
                #[trigger] entries[k]).path != path by {
                    assert(entries[k] == front[k]);
                }
            },
        }
    }
}

/// The position at which the path is first met is its first position.
pub proof fn lemma_first_position_found(entries: Seq<EntryView>, path: Seq<char>, i: int)
    requires
        0 <= i < entries.len(),
        entries[i].path == path,
        forall|k: int| 0 <= k < i ==> (#[trigger] entries[k]).path != path,
    ensures
        first_position(entries, path) == Some(i),
{
    lemma_first_position(entries, path);
}

/// The entry with its size made known.
pub open spec fn entry_with_size(e: EntryView, size: u64) -> EntryView {
    EntryView { size: Some(size), ..e }
}

/// Whether a size that arrives for `path` is taken by the list: the first
/// entry with that path has no size yet.
pub open spec fn awaits_size(entries: Seq<EntryView>, path: Seq<char>) -> bool {
    match first_position(entries, path) {
        Some(i) => entries[i].size is None,
        None => false,
    }
}

/// The list after the size of `path` arrived: the first entry with that
/// path takes the size where it has none. A size that is known stays.
pub open spec fn sized(entries: Seq<EntryView>, path: Seq<char>, size: u64) -> Seq<EntryView> {
    match first_position(entries, path) {
        Some(i) => if entries[i].size is None {
            entries.update(i, entry_with_size(entries[i], size))
        } else {
            entries
        },
        None => entries,
    }
}

/// A size that arrives a second time changes nothing in the list: the
/// entry has its size, and a size is written at most once.
pub proof fn lemma_sized_is_idempotent(
    entries: Seq<EntryView>,
    path: Seq<char>,
    first: u64,
    second: u64,
)
    ensures
        sized(sized(entries, path, first), path, second) == sized(entries, path, first),
        !awaits_size(sized(entries, path, first), path),
{
    lemma_first_position(entries, path);
    let once = sized(entries, path, first);
    match first_position(entries, path) {
        Some(i) => {
            lemma_first_position_found(once, path, i);
        },
        None => {},
    }
}

/// Whether the name matches the search query: the query occurs in the
/// name, upper and lower case taken as the same.
pub open spec fn matches_query(name: Seq<char>, query: Seq<char>) -> bool {
    has_substring(lowercase_text(name), lowercase_text(query))
}

/// The entries whose names match the query, in their order; all entries
/// for the empty query.
pub open spec fn search_results(entries: Seq<EntryView>, query: Seq<char>) -> Seq<EntryView>
    decreases entries.len(),
{
    if query.len() == 0 || entries.len() == 0 {
        entries
    } else {
        let rest = search_results(entries.drop_last(), query);
        if matches_query(entries.last().name, query) {
            rest.push(entries.last())
        } else {
            rest
        }
    }
}

/// The entry that stands for a marked path when it is handed to the
/// cleaner: named by the last component of the path, or by the path where
/// it has none.
pub open spec fn selected_item(item: (Seq<char>, SelectedEntry)) -> EntryView {
    EntryView {
        kind: item.1.kind,
        category: None,
        path: item.0,
        name: match file_name_text(item.0) {
            Some(name) => name,
            None => item.0,
        },
        size: item.1.size,
        modified_at: None,
    }
}

/// The selection with every entry of the list marked that was not marked.
pub open spec fn all_marked(sel: Seq<(Seq<char>, SelectedEntry)>, entries: Seq<EntryView>) -> Seq<
    (Seq<char>, SelectedEntry),
>
    decreases entries.len(),
{
    if entries.len() == 0 {
        sel
    } else {
        let e = entries.last();
        marked(
            all_marked(sel, entries.drop_last()),
            e.path,
            SelectedEntry { kind: e.kind, size: e.size },
        )
    }
}

/// The selection without the entries of the list.
pub open spec fn all_unmarked(sel: Seq<(Seq<char>, SelectedEntry)>, entries: Seq<EntryView>) -> Seq<
    (Seq<char>, SelectedEntry),
>
    decreases entries.len(),
{
    if entries.len() == 0 {
        sel
    } else {
        without(all_unmarked(sel, entries.drop_last()), entries.last().path)
    }
}

/// Whether every entry of the list is marked.
pub open spec fn all_selected(sel: Seq<(Seq<char>, SelectedEntry)>, entries: Seq<EntryView>)
    -> bool {
    forall|i: int| 0 <= i < entries.len() ==> has_path(sel, (#[trigger] entries[i]).path)
}

/// The position of the first entry with the path `path`.
pub fn find_path(entries: &Vec<CleanableEntry>, path: &str) -> (r: Option<usize>)
    ensures
        match r {
            Some(i) => first_position(entry_views(entries@), path@) == Some(i as int),
            None => first_position(entry_views(entries@), path@) is None,
        },
{
    let ghost views = entry_views(entries@);
    let wanted = String::from_str(path);
    let mut i: usize = 0;
    while i < entries.len()
        invariant
            i <= entries.len(),
            wanted@ == path@,
            views == entry_views(entries@),
            forall|k: int| 0 <= k < i ==> (#[trigger] views[k]).path != path@,
        decreases entries.len() - i,
    {
        if entries[i].path == wanted {
            proof {
                lemma_first_position_found(views, path@, i as int);
            }
            return Some(i);
        }
        i += 1;
    }
    proof {
        lemma_first_position(views, path@);
    }
    None
}

/// Gives the first entry with the path `path` the size `size`, where that
/// entry has no size yet, and returns whether it did.
pub fn fill_entry_size(entries: &mut Vec<CleanableEntry>, path: &str, size: u64) -> (r: bool)
    ensures
        entry_views(final(entries)@) == sized(entry_views(old(entries)@), path@, size),
        r == awaits_size(entry_views(old(entries)@), path@),
        !r ==> final(entries)@ == old(entries)@,
        final(entries)@.len() == old(entries)@.len(),
{
    let ghost views = entry_views(entries@);
    proof {
        lemma_first_position(views, path@);
    }
    match find_path(entries, path) {
        Some(i) => {
            if entries[i].size.is_none() {
                let e = &entries[i];
                let filled_in = CleanableEntry {
                    kind: e.kind,
                    category: e.category,
                    path: e.path.clone(),
                    name: e.name.clone(),
                    size: Some(size),
                    modified_at: e.modified_at,
                };
                entries.set(i, filled_in);
                true
            } else {
                false
            }
        },
        None => false,
    }
}

/// The known sizes of `entries`, summed up; `u64::MAX` where the sum does
/// not fit.
pub fn sum_sizes(entries: &Vec<CleanableEntry>) -> (r: u64)
    ensures
        r == sat_u64(listed_bytes(entry_views(entries@))),
{
    let ghost all = entry_views(entries@);
    let mut sum: u64 = 0;
    let mut i: usize = 0;
    while i < entries.len()
        invariant
            i <= entries.len(),
            all == entry_views(entries@),
            sum == sat_u64(listed_bytes(all.subrange(0, i as int))),
        decreases entries.len() - i,
    {
        proof {
            lemma_listed_bytes_push(all.subrange(0, i as int), all[i as int]);
            assert(all.subrange(0, i as int).push(all[i as int]) =~= all.subrange(0, i + 1));
        }
        match entries[i].size {
            Some(n) => {
                sum = sum.saturating_add(n);
            },
            None => {},
        }
        i += 1;
    }
    assert(all.subrange(0, i as int) =~= all);
    sum
}

/// A copy of a list of entries.
pub fn clone_entries(entries: &Vec<CleanableEntry>) -> (r: Vec<CleanableEntry>)
    ensures
        r@ == entries@,
{
    let mut r: Vec<CleanableEntry> = Vec::new();
    let mut i: usize = 0;
    while i < entries.len()
        invariant
            i <= entries.len(),
            r@ == entries@.subrange(0, i as int),
        decreases entries.len() - i,
    {
        r.push(entries[i].clone());
        i += 1;
    }
    r
}

} // verus!
