//! The controller's side of a scan and of a deletion: starting and
//! cancelling jobs, taking in the messages of the accepted job, and the
//! steps that lead from marked entries to a deletion.
//!
//! Starting a job and cancelling one are the same act: the number of the
//! accepted job goes up, so that no running worker is current any more and
//! every message still under way is stale.

use vstd::prelude::*;
use vstd::string::*;
use crate::app::{App, CleanableEntry, ListState, Mode, NavFrameView};
use crate::app_state::{preparing_text, scanning_text};
use crate::clean_run::{CleanRun, CleanRunState};
use crate::cleaner::{CleanResult, Cleaner, entry_views, item_is_safe};
use crate::job::CancelToken;
use crate::scanner::{ScanKind, ScanMessage};
use crate::text::{join2, opt_text};

verus! {

/// The number of the job after job `n`: one more, and zero after the
/// largest number.
pub open spec fn next_generation(n: u64) -> u64 {
    if n == u64::MAX {
        0
    } else {
        (n + 1) as u64
    }
}

/// The job after a job is never the same job.
pub proof fn lemma_next_generation_differs(n: u64)
    ensures
        next_generation(n) != n,
{
}

/// The state after a new job was started or the running one cancelled.
pub open spec fn bumped(app: App) -> App {
    App { scan_generation: next_generation(app.scan_generation), ..app }
}

/// Makes the next job the accepted one, publishes its number for the
/// workers, and returns it. Every earlier job is stale from now on.
pub fn bump_generation(app: &mut App, token: &CancelToken) -> (job_id: u64)
    ensures
        *final(app) == bumped(*old(app)),
        job_id == final(app).scan_generation,
        job_id != old(app).scan_generation,
{
    app.scan_generation = app.scan_generation.wrapping_add(1);
    token.publish(app.scan_generation);
    app.scan_generation
}

/// Cancels the running scan: no job that runs is the accepted one any more,
/// and the interface is no longer waiting for one.
pub fn cancel_scan(app: &mut App, token: &CancelToken)
    ensures
        *final(app) == (App {
            scan_in_progress: false,
            mode: if old(app).mode == Mode::Scanning {
                Mode::Normal
            } else {
                old(app).mode
            },
            scan_progress: 0,
            ..bumped(*old(app))
        }),
        final(app).scan_generation != old(app).scan_generation,
{
    bump_generation(app, token);
    app.scan_in_progress = false;
    if app.mode == Mode::Scanning {
        app.mode = Mode::Normal;
    }
    app.scan_progress = 0;
}

/// What the start of a scan of the top level brings about, of whatever
/// kind: the interface waits for the job, at the top level, with nothing on
/// display and no top-level entry kept.
pub open spec fn top_scan_started(before: App, after: App, kind: ScanKind) -> bool {
    &&& after == (App {
        scan_kind: kind,
        scan_in_progress: true,
        mode: Mode::Scanning,
        scan_progress: 0,
        current_scan_path: after.current_scan_path,
        navigation: after.navigation,
        entries: after.entries,
        root_entries: after.root_entries,
        total_size: 0,
        list_state: ListState { selected: None },
        ..bumped(before)
    })
    &&& after.navigation.current_path is None
    &&& after.navigation.frames() == Seq::<NavFrameView>::empty()
    &&& after.entries@.len() == 0
    &&& after.root_entries@.len() == 0
}

/// Starts the scan of the catalog of well-known locations, and returns the
/// number of its job.
pub fn start_root_scan(app: &mut App, token: &CancelToken) -> (job_id: u64)
    ensures
        top_scan_started(*old(app), *final(app), ScanKind::Root),
        final(app).current_scan_path@ == preparing_text(),
        job_id == final(app).scan_generation,
        job_id != old(app).scan_generation,
{
    let job_id = bump_generation(app, token);
    app.scan_kind = ScanKind::Root;
    app.scan_in_progress = true;
    app.mode = Mode::Scanning;
    app.scan_progress = 0;
    app.current_scan_path = String::from_str("准备扫描...");
    app.navigation.reset_root();
    app.clear_entries();
    app.clear_root_entries();
    job_id
}

/// Starts the listing of the directory `path`, and returns the number of
/// its job.
pub fn start_dir_scan(app: &mut App, path: &str, token: &CancelToken) -> (job_id: u64)
    ensures
        *final(app) == (App {
            scan_kind: ScanKind::ListDir,
            scan_in_progress: true,
            mode: Mode::Normal,
            scan_progress: 0,
            current_scan_path: final(app).current_scan_path,
            entries: final(app).entries,
            total_size: 0,
            list_state: ListState { selected: None },
            ..bumped(*old(app))
        }),
        final(app).current_scan_path@ == path@,
        final(app).entries@.len() == 0,
        job_id == final(app).scan_generation,
        job_id != old(app).scan_generation,
{
    let job_id = bump_generation(app, token);
    app.scan_kind = ScanKind::ListDir;
    app.scan_in_progress = true;
    app.mode = Mode::Normal;
    app.scan_progress = 0;
    app.current_scan_path = String::from_str(path);
    app.clear_entries();
    job_id
}

/// Starts the disk scan of `path`, and returns the number of its job.
pub fn start_disk_scan(app: &mut App, path: &str, token: &CancelToken) -> (job_id: u64)
    ensures
        top_scan_started(*old(app), *final(app), ScanKind::DiskScan),
        final(app).current_scan_path@ == scanning_text(path@),
        job_id == final(app).scan_generation,
        job_id != old(app).scan_generation,
{
    let job_id = bump_generation(app, token);
    app.scan_kind = ScanKind::DiskScan;
    app.scan_in_progress = true;
    app.mode = Mode::Scanning;
    app.scan_progress = 0;
    app.current_scan_path = join2("扫描: ", path);
    app.navigation.reset_root();
    app.clear_entries();
    app.clear_root_entries();
    job_id
}

/// The state with the end of the scan not yet noted: `after` with what
/// noting the end changes taken from `before`.
pub open spec fn before_finish(before: App, after: App) -> App {
    App {
        scan_in_progress: before.scan_in_progress,
        mode: before.mode,
        scan_progress: before.scan_progress,
        ..after
    }
}

/// What taking in a message of the accepted job brings about.
pub open spec fn message_applied(before: App, after: App, msg: ScanMessage) -> bool {
    match msg {
        ScanMessage::Progress { progress, path, .. } => after == (App {
            scan_progress: progress,
            current_scan_path: path,
            ..before
        }),
        ScanMessage::RootItem { entry, .. } => before.took_root_entry(after, entry),
        ScanMessage::DirEntry { entry, .. } => before.took_dir_entry(after, entry),
        ScanMessage::DirEntrySize { path, size, .. } => before.took_size(after, path@, size),
        ScanMessage::Done { .. } => {
            let sorted = before_finish(before, after);
            &&& after == sorted.scan_finished()
            &&& if before.scan_kind == ScanKind::ListDir {
                before.dir_sorted(sorted)
            } else {
                sorted == before.with_root_sorted(sorted) && before.root_sorted(sorted)
            }
        },
        ScanMessage::Error { message, .. } => after == (App {
            error_message: Some(message),
            ..before
        }).scan_finished(),
    }
}

/// Takes in one message of a scan, and returns whether it ended the scan.
/// A message of a job other than the accepted one is stale: it is
/// discarded and changes nothing.
pub fn handle_scan_message(app: &mut App, msg: ScanMessage) -> (ended: bool)
    ensures
        msg@.job() != old(app).scan_generation ==> !ended && *final(app) == *old(app),
        msg@.job() == old(app).scan_generation ==> ended == msg@.is_terminal() && message_applied(
            *old(app),
            *final(app),
            msg,
        ),
{
    if msg.job_id() != app.scan_generation {
        return false;
    }
    match msg {
        ScanMessage::Progress { progress, path, .. } => {
            app.scan_progress = progress;
            app.current_scan_path = path;
            false
        },
        ScanMessage::RootItem { entry, .. } => {
            app.apply_root_entry(entry);
            false
        },
        ScanMessage::DirEntry { entry, .. } => {
            app.apply_dir_entry(entry);
            false
        },
        ScanMessage::DirEntrySize { path, size, .. } => {
            app.apply_entry_size(path.as_str(), size);
            false
        },
        ScanMessage::Done { .. } => {
            match app.scan_kind {
                ScanKind::ListDir => app.sort_dir_entries(),
                _ => app.sort_root_entries(),
            }
            app.finish_scan();
            true
        },
        ScanMessage::Error { message, .. } => {
            app.set_error(message);
            app.finish_scan();
            true
        },
    }
}

/// A key pressed while the deletion waits to be confirmed.
#[derive(Debug, Clone, Copy, PartialEq, Eq, Structural)]
pub enum ConfirmKey {
    /// Go ahead with the deletion.
    Confirm,
    /// Leave without deleting.
    Cancel,
    /// Show the preview of the deletion, or hide it.
    Preview,
    ScrollDown,
    ScrollUp,
    /// Any other key.
    Other,
}

/// What the controller is to do after a key of the confirmation.
#[derive(Debug, Clone, Copy, PartialEq, Eq, Structural)]
pub enum ConfirmAction {
    /// Nothing.
    Nothing,
    /// Carry out the deletion.
    Execute,
    /// Work out the preview and hand it to [`App::set_dry_run`].
    Preview,
}

/// The state after a key of the confirmation. Confirming leaves the
/// confirmation; so does cancelling. The preview is hidden where it is
/// shown, and asked for where it is not. No key changes what is marked.
pub open spec fn confirm_next(app: App, key: ConfirmKey) -> App {
    match key {
        ConfirmKey::Confirm => App { mode: Mode::Normal, ..app },
        ConfirmKey::Cancel => App { mode: Mode::Normal, ..app },
        ConfirmKey::Preview => App { dry_run_active: false, ..app },
        ConfirmKey::ScrollDown => App {
            confirm_scroll: if app.confirm_scroll < usize::MAX {
                (app.confirm_scroll + 1) as usize
            } else {
                usize::MAX
            },
            ..app
        },
        ConfirmKey::ScrollUp => App {
            confirm_scroll: if app.confirm_scroll > 0 {
                (app.confirm_scroll - 1) as usize
            } else {
                0usize
            },
            ..app
        },
        ConfirmKey::Other => app,
    }
}

/// What is to be done after a key of the confirmation.
pub open spec fn confirm_action(app: App, key: ConfirmKey) -> ConfirmAction {
    match key {
        ConfirmKey::Confirm => ConfirmAction::Execute,
        ConfirmKey::Preview => if app.dry_run_active {
            ConfirmAction::Nothing
        } else {
            ConfirmAction::Preview
        },
        _ => ConfirmAction::Nothing,
    }
}

/// Takes a key while the deletion waits to be confirmed, and says what the
/// controller is to do.
pub fn handle_confirm_mode(app: &mut App, key: ConfirmKey) -> (action: ConfirmAction)
    ensures
        *final(app) == confirm_next(*old(app), key),
        action == confirm_action(*old(app), key),
        final(app).selections == old(app).selections,
{
    match key {
        ConfirmKey::Confirm => {
            app.mode = Mode::Normal;
            ConfirmAction::Execute
        },
        ConfirmKey::Cancel => {
            app.cancel_confirm();
            ConfirmAction::Nothing
        },
        ConfirmKey::Preview => {
            if app.dry_run_active {
                app.dry_run_active = false;
                ConfirmAction::Nothing
            } else {
                ConfirmAction::Preview
            }
        },
        ConfirmKey::ScrollDown => {
            app.scroll_confirm(true);
            ConfirmAction::Nothing
        },
        ConfirmKey::ScrollUp => {
            app.scroll_confirm(false);
            ConfirmAction::Nothing
        },
        ConfirmKey::Other => ConfirmAction::Nothing,
    }
}

/// The text of the error for a path that may not be deleted.
pub open spec fn unsafe_path_text(path: Seq<char>) -> Seq<char> {
    "不安全的路径: "@ + path
}

/// The first lines of the error for a deletion that failed in part.
pub open spec fn partial_failure_text() -> Seq<char> {
    "部分清理失败:"@
}

/// The text of the error for a deletion that failed in part: a heading,
/// then the line of each failed item on a line of its own.
pub open spec fn failure_report(errors: Seq<Seq<char>>) -> Seq<char>
    decreases errors.len(),
{
    if errors.len() == 0 {
        partial_failure_text() + "\n"@
    } else if errors.len() == 1 {
        partial_failure_text() + "\n"@ + errors[0]
    } else {
        failure_report(errors.drop_last()) + "\n"@ + errors.last()
    }
}

/// Prepares the deletion of `items`, and fails closed: the deletion is
/// refused as a whole, before anything is touched, unless every item passed
/// the safety check. `canonical` gives for each item its path with every
/// symbolic link resolved, as found just now, or `None` where it could not
/// be resolved. Returns the run that carries the deletion out, or the
/// position of the first item that may not be deleted.
pub fn execute_clean(
    items: Vec<CleanableEntry>,
    canonical: &Vec<Option<String>>,
    home: Option<&str>,
    use_trash: bool,
) -> (r: Result<CleanRun, usize>)
    ensures
        match r {
            Ok(run) => run@ == CleanRunState::initial(entry_views(items@), use_trash) && forall|
                k: int,
            |
                0 <= k < items@.len() ==> item_is_safe(canonical@, k, opt_text(home)),
            Err(i) => i < items@.len() && !item_is_safe(canonical@, i as int, opt_text(home))
                && forall|k: int| 0 <= k < i ==> item_is_safe(canonical@, k, opt_text(home)),
        },
{
    match Cleaner::first_unsafe(&items, canonical, home) {
        Some(i) => Err(i),
        None => Ok(CleanRun::new(items, use_trash)),
    }
}

/// Notes that the deletion of `path` was refused.
pub fn refuse_clean(app: &mut App, path: &str)
    ensures
        *final(app) == (App { error_message: final(app).error_message, ..*old(app) }),
        final(app).error_message is Some,
        final(app).error_message.unwrap()@ == unsafe_path_text(path@),
        final(app).selections == old(app).selections,
{
    app.set_error(join2("不安全的路径: ", path));
}

/// Takes in the account of a deletion of `item_count` items, and returns
/// whether a new scan is due. After a deletion without failure the freed
/// bytes are noted and nothing is marked any more. After a failure the
/// failed items are reported and what is marked stays marked.
pub fn finish_clean(app: &mut App, result: &CleanResult, item_count: usize) -> (rescan: bool)
    ensures
        rescan == result.success,
        result.success ==> *final(app) == (App {
            last_clean_result: Some((result.freed_space, item_count)),
            selections: final(app).selections,
            ..*old(app)
        }) && final(app).selections@.len() == 0,
        !result.success ==> *final(app) == (App {
            error_message: final(app).error_message,
            ..*old(app)
        }) && final(app).error_message is Some && final(app).error_message.unwrap()@
            == failure_report(result@.errors),
{
    if result.success {
        app.last_clean_result = Some((result.freed_space, item_count));
        app.clear_selections();
        true
    } else {
        let ghost lines = result@.errors;
        let mut text = String::from_str("部分清理失败:");
        let mut i: usize = 0;
        if result.errors.len() == 0 {
            text.append("\n");
            app.set_error(text);
            return false;
        }
        while i < result.errors.len()
            invariant
                i <= result.errors.len(),
                lines == result@.errors,
                result.errors.len() > 0,
                i > 0 ==> text@ == failure_report(lines.subrange(0, i as int)),
                i == 0 ==> text@ == partial_failure_text(),
            decreases result.errors.len() - i,
        {
            proof {
                let more = lines.subrange(0, i + 1);
                assert(more.drop_last() =~= lines.subrange(0, i as int));
            }
            text.append("\n");
            text.append(result.errors[i].as_str());
            i += 1;
        }
        assert(lines.subrange(0, i as int) =~= lines);
        app.set_error(text);
        false
    }
}

} // verus!
