//! The editor's asset state: the project's roots, the indexed assets, the
//! selection, the scan and watch status, and what the last asset command
//! said. Scans and watchers touch the disk, so a command that needs one
//! hands back a step that says what to run; the outcome comes back through
//! `finish_scan` or `finish_start_watching`.
use crate::asset_index::{first_with_id, kind_summary_text, AssetIndex, AssetSelection};
use crate::asset_record::AssetRecord;
use crate::asset_scan::{
    apply_selection_after_scan, diagnostic_is, parent_str, parent_text, AssetRoot, AssetScan,
    AssetScanRequest,
};
use crate::asset_watch::{
    asset_watch_error_text, AssetWatchError, AssetWatchEvent, AssetWatchEventKind,
    AssetWatchStatus,
};
use crate::assets::{path_text, AssetDiagnostic, AssetId};
use crate::diagnostic::Severity;
use crate::editor_commands::{route, AssetCommand, EditorCommand, EditorCommandRouter};
use crate::editor_display::{
    asset_ui_snapshot_with_scroll, is_asset_snapshot, AssetScanStatus, AssetUiSnapshot,
    AssetUiState,
};
use crate::text::{concat2, concat3, decimal, u64_to_text};
use vstd::prelude::*;

verus! {

/// The answer to an asset command: which command, and what it says.
#[derive(Debug, Clone, PartialEq, Eq)]
pub struct AssetCommandResult {
    command_id: String,
    message: String,
}

impl View for AssetCommandResult {
    type V = (Seq<char>, Seq<char>);

    closed spec fn view(&self) -> (Seq<char>, Seq<char>) {
        (self.command_id@, self.message@)
    }
}

impl AssetCommandResult {
    pub fn new(command_id: &str, message: &str) -> (r: Self)
        ensures
            r@ == (command_id@, message@),
    {
        AssetCommandResult { command_id: command_id.to_owned(), message: message.to_owned() }
    }

    pub fn command_id(&self) -> (r: &str)
        ensures
            r@ == self@.0,
    {
        self.command_id.as_str()
    }

    pub fn message(&self) -> (r: &str)
        ensures
            r@ == self@.1,
    {
        self.message.as_str()
    }
}

/// What an asset command asks of its caller: nothing more, to stop the
/// watcher, to run a scan of a request and hand it to `finish_scan`, or to
/// start a watcher on a root and hand the outcome to
/// `finish_start_watching`.
#[derive(Debug)]
pub enum AssetStep {
    Done(AssetCommandResult),
    StopWatcher(AssetCommandResult),
    RunScan { request: AssetScanRequest, refresh: bool },
    StartWatcher(String),
}

pub struct AssetStateView {
    pub project_root: Option<Seq<char>>,
    pub asset_root: Option<Seq<char>>,
    pub index: Seq<AssetRecord>,
    pub selected: Option<AssetId>,
    pub scan_status: AssetScanStatus,
    pub watch_status: AssetWatchStatus,
    pub diagnostics: Seq<AssetDiagnostic>,
    pub scanned_count: Option<usize>,
    pub last_result: Option<(Seq<char>, Seq<char>)>,
    pub dirty: bool,
    pub watching: bool,
}

pub open spec fn opt_text(o: Option<String>) -> Option<Seq<char>> {
    match o {
        Some(s) => Some(s@),
        None => None,
    }
}

/// The state with no project: nothing indexed, nothing watched.
pub open spec fn no_project_view() -> AssetStateView {
    AssetStateView {
        project_root: None,
        asset_root: None,
        index: Seq::empty(),
        selected: None,
        scan_status: AssetScanStatus::UnavailableNoProject,
        watch_status: AssetWatchStatus::Stopped,
        diagnostics: Seq::empty(),
        scanned_count: None,
        last_result: None,
        dirty: false,
        watching: false,
    }
}

/// The state of a project just opened: its roots, nothing scanned yet.
pub open spec fn opened_view(project_root: Seq<char>, asset_root: Seq<char>) -> AssetStateView {
    AssetStateView {
        project_root: Some(project_root),
        asset_root: Some(asset_root),
        scan_status: AssetScanStatus::Ready,
        ..no_project_view()
    }
}

pub open spec fn with_last(v: AssetStateView, res: (Seq<char>, Seq<char>)) -> AssetStateView {
    AssetStateView { last_result: Some(res), ..v }
}

/// `v` with its watcher stopped.
pub open spec fn watcher_stopped(v: AssetStateView) -> AssetStateView {
    AssetStateView { watching: false, watch_status: AssetWatchStatus::Stopped, ..v }
}

/// The first record of `index` with the identifier `id`, if any.
pub open spec fn record_with_id(index: Seq<AssetRecord>, id: AssetId) -> Option<AssetRecord> {
    if exists|i: int| first_with_id(index, id@, i) {
        Some(index[choose|i: int| first_with_id(index, id@, i)])
    } else {
        None
    }
}

/// What `asset.show_selected` says.
pub open spec fn show_selected_text(v: AssetStateView, project_loaded: bool) -> Seq<char> {
    if !project_loaded {
        "No project open"@
    } else {
        match v.selected {
            None => "No asset selected"@,
            Some(id) => match record_with_id(v.index, id) {
                None => "No asset selected"@,
                Some(rec) => "Selected asset: "@ + path_text(rec.path@),
            },
        }
    }
}

/// What `asset.reveal_root` says.
pub open spec fn reveal_root_text(v: AssetStateView, project_loaded: bool) -> Seq<char> {
    if !project_loaded {
        "No project open"@
    } else {
        match v.asset_root {
            None => "No asset root loaded"@,
            Some(root) => "Asset root: "@ + root,
        }
    }
}

pub open spec fn scan_command_id(refresh: bool) -> Seq<char> {
    if refresh {
        "asset.refresh"@
    } else {
        "asset.scan"@
    }
}

/// What a command does to the state and what it asks of its caller.
pub open spec fn executed(
    before: AssetStateView,
    after: AssetStateView,
    c: AssetCommand,
    project_loaded: bool,
    step: AssetStep,
) -> bool {
    match c {
        AssetCommand::Scan | AssetCommand::Refresh => {
            let cid = scan_command_id(c == AssetCommand::Refresh);
            if !project_loaded {
                step matches AssetStep::Done(res) && res@ == (cid, "No project open"@) && after
                    == with_last(before, res@)
            } else if before.project_root is None || before.asset_root is None {
                step matches AssetStep::Done(res) && res@ == (cid, "No asset root loaded"@)
                    && after == with_last(before, res@)
            } else {
                &&& step matches AssetStep::RunScan { request, refresh } && refresh == (c
                    == AssetCommand::Refresh) && request.root_view() == AssetRoot::new_spec(
                    before.project_root->Some_0,
                    before.asset_root->Some_0,
                )
                &&& after == AssetStateView { scan_status: AssetScanStatus::Scanning, ..before }
            }
        },
        AssetCommand::StartWatching => if !project_loaded {
            step matches AssetStep::Done(res) && res@ == ("asset.start_watching"@, "No project open"@)
                && after == with_last(before, res@)
        } else if before.asset_root is None {
            step matches AssetStep::Done(res) && res@ == (
                "asset.start_watching"@,
                "No asset root loaded"@,
            ) && after == with_last(before, res@)
        } else {
            step matches AssetStep::StartWatcher(root) && root@ == before.asset_root->Some_0
                && after == watcher_stopped(before)
        },
        AssetCommand::StopWatching => step matches AssetStep::StopWatcher(res) && res@ == (
            "asset.stop_watching"@,
            "Stopped asset watcher"@,
        ) && after == with_last(watcher_stopped(before), res@),
        AssetCommand::ClearSelection => step matches AssetStep::Done(res) && res@ == (
            "asset.clear_selection"@,
            "Cleared asset selection"@,
        ) && after == with_last(AssetStateView { selected: None, ..before }, res@),
        AssetCommand::ShowSelected => step matches AssetStep::Done(res) && res@ == (
            "asset.show_selected"@,
            show_selected_text(before, project_loaded),
        ) && after == with_last(before, res@),
        AssetCommand::RevealRoot => step matches AssetStep::Done(res) && res@ == (
            "asset.reveal_root"@,
            reveal_root_text(before, project_loaded),
        ) && after == with_last(before, res@),
    }
}

/// Whether a diagnostic among `d` is an error.
pub open spec fn has_error(d: Seq<AssetDiagnostic>) -> bool {
    exists|i: int| 0 <= i < d.len() && d[i].severity == Severity::Error
}

/// What a scan or refresh says: how many assets, and the first problem.
pub open spec fn scan_message_text(refresh: bool, count: nat, d: Seq<AssetDiagnostic>) -> Seq<char> {
    let verb = if refresh {
        "Refreshed"@
    } else {
        "Scanned"@
    };
    let head = verb + " "@ + decimal(count) + " asset(s)"@;
    if d.len() == 0 {
        head
    } else {
        head + "; "@ + d[0].field@ + ": "@ + d[0].message@
    }
}

/// The selection after a scan: kept while the index still holds it.
pub open spec fn selection_after(selected: Option<AssetId>, index: Seq<AssetRecord>) -> Option<AssetId> {
    match selected {
        Some(id) => if exists|i: int| 0 <= i < index.len() && index[i].id@ == id@ {
            selected
        } else {
            None
        },
        None => None,
    }
}

/// What a finished scan does to the state, and what it says.
pub open spec fn scan_finished(
    before: AssetStateView,
    after: AssetStateView,
    refresh: bool,
    index: Seq<AssetRecord>,
    diagnostics: Seq<AssetDiagnostic>,
    res: (Seq<char>, Seq<char>),
) -> bool {
    let dirty = if refresh {
        false
    } else {
        before.dirty
    };
    let status = if has_error(diagnostics) {
        AssetScanStatus::Error
    } else if dirty {
        AssetScanStatus::Dirty
    } else {
        AssetScanStatus::Ready
    };
    &&& res == (scan_command_id(refresh), scan_message_text(refresh, index.len(), diagnostics))
    &&& after == AssetStateView {
        index,
        selected: selection_after(before.selected, index),
        diagnostics,
        scanned_count: Some(index.len() as usize),
        dirty,
        scan_status: status,
        last_result: Some(res),
        ..before
    }
}

/// The messages of the error events among `events`, in order.
pub open spec fn watch_errors(events: Seq<AssetWatchEvent>) -> Seq<Seq<char>>
    decreases events.len(),
{
    if events.len() == 0 {
        Seq::empty()
    } else {
        let rest = watch_errors(events.drop_last());
        match events.last().kind {
            AssetWatchEventKind::Error(m) => rest.push(m@),
            _ => rest,
        }
    }
}

/// Whether an event among `events` is a change rather than an error.
pub open spec fn has_change(events: Seq<AssetWatchEvent>) -> bool {
    exists|i: int| 0 <= i < events.len() && !(events[i].kind is Error)
}

/// Everything but the diagnostics and the scan and watch status is left
/// as it was.
pub open spec fn same_but_status(a: AssetStateView, b: AssetStateView) -> bool {
    &&& a.project_root == b.project_root
    &&& a.asset_root == b.asset_root
    &&& a.index == b.index
    &&& a.selected == b.selected
    &&& a.scanned_count == b.scanned_count
    &&& a.last_result == b.last_result
    &&& a.watching == b.watching
}

/// Each error message became a `watch` warning, in order, after the
/// diagnostics there were.
pub open spec fn warned(before: Seq<AssetDiagnostic>, after: Seq<AssetDiagnostic>, msgs: Seq<Seq<char>>) -> bool {
    &&& after.len() == before.len() + msgs.len()
    &&& after.take(before.len() as int) == before
    &&& forall|k: int| 0 <= k < msgs.len() ==> diagnostic_is(
        #[trigger] after[before.len() + k],
        Severity::Warning,
        "watch"@,
        msgs[k],
    )
}

/// The message of the last result, as the status line shows it.
pub open spec fn last_message(v: AssetStateView) -> Option<Seq<char>> {
    match v.last_result {
        Some(res) => Some(res.1),
        None => None,
    }
}

pub struct AssetState {
    project_root: Option<String>,
    asset_root: Option<String>,
    index: AssetIndex,
    selection: AssetSelection,
    scan_status: AssetScanStatus,
    watch_status: AssetWatchStatus,
    diagnostics: Vec<AssetDiagnostic>,
    scanned_count: Option<usize>,
    last_result: Option<AssetCommandResult>,
    dirty: bool,
    watching: bool,
}

impl View for AssetState {
    type V = AssetStateView;

    closed spec fn view(&self) -> AssetStateView {
        AssetStateView {
            project_root: opt_text(self.project_root),
            asset_root: opt_text(self.asset_root),
            index: self.index@,
            selected: self.selection@,
            scan_status: self.scan_status,
            watch_status: self.watch_status,
            diagnostics: self.diagnostics@,
            scanned_count: self.scanned_count,
            last_result: match self.last_result {
                Some(r) => Some(r@),
                None => None,
            },
            dirty: self.dirty,
            watching: self.watching,
        }
    }
}

fn copy_text(s: &Option<String>) -> (r: Option<String>)
    ensures
        opt_text(r) == opt_text(*s),
{
    match s {
        Some(t) => Some(t.clone()),
        None => None,
    }
}

impl AssetState {
    fn reset(&mut self)
        ensures
            final(self)@ == no_project_view(),
    {
        self.project_root = None;
        self.asset_root = None;
        self.index = AssetIndex::new();
        self.selection = AssetSelection::none();
        self.scan_status = AssetScanStatus::UnavailableNoProject;
        self.watch_status = AssetWatchStatus::Stopped;
        self.diagnostics = Vec::new();
        self.scanned_count = None;
        self.last_result = None;
        self.dirty = false;
        self.watching = false;
    }

    /// Runs the asset command named by `id`; `None` when `id` names no
    /// asset command.
    pub fn execute_command_id(&mut self, id: &str, project_loaded: bool) -> (r: Option<AssetStep>)
        ensures
            match route(id@) {
                Some(EditorCommand::Asset(c)) => r matches Some(step) && executed(
                    old(self)@,
                    final(self)@,
                    c,
                    project_loaded,
                    step,
                ),
                _ => r is None && final(self)@ == old(self)@,
            },
    {
        match EditorCommandRouter::parse(id) {
            Some(EditorCommand::Asset(c)) => Some(self.execute(c, project_loaded)),
            _ => None,
        }
    }

    /// Runs an asset command.
    pub fn execute(&mut self, command: AssetCommand, project_loaded: bool) -> (r: AssetStep)
        ensures
            executed(old(self)@, final(self)@, command, project_loaded, r),
    {
        match command {
            AssetCommand::Scan => self.begin_scan(project_loaded, false),
            AssetCommand::Refresh => self.begin_scan(project_loaded, true),
            AssetCommand::StartWatching => self.begin_start_watching(project_loaded),
            AssetCommand::StopWatching => {
                self.watching = false;
                self.watch_status = AssetWatchStatus::Stopped;
                let res = AssetCommandResult::new("asset.stop_watching", "Stopped asset watcher");
                self.last_result = Some(res.clone_result());
                AssetStep::StopWatcher(res)
            },
            AssetCommand::ClearSelection => {
                self.selection.clear();
                let res = AssetCommandResult::new(
                    "asset.clear_selection",
                    "Cleared asset selection",
                );
                self.last_result = Some(res.clone_result());
                AssetStep::Done(res)
            },
            AssetCommand::ShowSelected => {
                let message = self.show_selected(project_loaded);
                let res = AssetCommandResult::new("asset.show_selected", message.as_str());
                self.last_result = Some(res.clone_result());
                AssetStep::Done(res)
            },
            AssetCommand::RevealRoot => {
                let message = self.reveal_root(project_loaded);
                let res = AssetCommandResult::new("asset.reveal_root", message.as_str());
                self.last_result = Some(res.clone_result());
                AssetStep::Done(res)
            },
        }
    }

    fn done(&mut self, command_id: &str, message: &str) -> (r: AssetStep)
        ensures
            r matches AssetStep::Done(res) && res@ == (command_id@, message@),
            final(self)@ == with_last(old(self)@, (command_id@, message@)),
    {
        let res = AssetCommandResult::new(command_id, message);
        self.last_result = Some(res.clone_result());
        AssetStep::Done(res)
    }

    fn begin_scan(&mut self, project_loaded: bool, refresh: bool) -> (r: AssetStep)
        ensures
            executed(
                old(self)@,
                final(self)@,
                if refresh {
                    AssetCommand::Refresh
                } else {
                    AssetCommand::Scan
                },
                project_loaded,
                r,
            ),
    {
        let command_id = if refresh {
            "asset.refresh"
        } else {
            "asset.scan"
        };
        proof {
            reveal_strlit("asset.refresh");
            reveal_strlit("asset.scan");
        }
        if !project_loaded {
            return self.done(command_id, "No project open");
        }
        let request = match (&self.project_root, &self.asset_root) {
            (Some(p), Some(a)) => AssetScanRequest::new(p.as_str(), a.as_str()),
            _ => {
                return self.done(command_id, "No asset root loaded");
            },
        };
        self.scan_status = AssetScanStatus::Scanning;
        AssetStep::RunScan { request, refresh }
    }

    fn begin_start_watching(&mut self, project_loaded: bool) -> (r: AssetStep)
        ensures
            executed(old(self)@, final(self)@, AssetCommand::StartWatching, project_loaded, r),
    {
        if !project_loaded {
            return self.done("asset.start_watching", "No project open");
        }
        let root = match &self.asset_root {
            Some(a) => a.clone(),
            None => {
                return self.done("asset.start_watching", "No asset root loaded");
            },
        };
        self.watching = false;
        self.watch_status = AssetWatchStatus::Stopped;
        AssetStep::StartWatcher(root)
    }

    fn show_selected(&self, project_loaded: bool) -> (r: String)
        ensures
            r@ == show_selected_text(self@, project_loaded),
    {
        if !project_loaded {
            return String::from_str("No project open");
        }
        let id = match self.selection.selected() {
            Some(id) => id,
            None => {
                return String::from_str("No asset selected");
            },
        };
        match self.index.find(id) {
            None => {
                proof {
                    assert(!exists|i: int| first_with_id(self.index@, id@, i));
                }
                String::from_str("No asset selected")
            },
            Some(record) => {
                proof {
                    let k = choose|k: int| first_with_id(self.index@, id@, k) && self.index@[k] == *record;
                    let c = choose|i: int| first_with_id(self.index@, id@, i);
                    assert(c == k);
                }
                concat2("Selected asset: ", record.path.display().as_str())
            },
        }
    }

    fn reveal_root(&self, project_loaded: bool) -> (r: String)
        ensures
            r@ == reveal_root_text(self@, project_loaded),
    {
        if !project_loaded {
            return String::from_str("No project open");
        }
        match &self.asset_root {
            None => String::from_str("No asset root loaded"),
            Some(root) => concat2("Asset root: ", root.as_str()),
        }
    }

    /// Takes the scan that a `RunScan` step asked for.
    pub fn finish_scan(&mut self, refresh: bool, scan: AssetScan) -> (r: AssetCommandResult)
        ensures
            scan_finished(
                old(self)@,
                final(self)@,
                refresh,
                scan.index@,
                scan.diagnostics@,
                r@,
            ),
    {
        apply_selection_after_scan(&scan, &mut self.selection);
        let count = scan.index.len();
        self.index = scan.index;
        self.diagnostics = scan.diagnostics;
        self.scanned_count = Some(count);
        if refresh {
            self.dirty = false;
        }
        let mut error = false;
        let mut i: usize = 0;
        while i < self.diagnostics.len()
            invariant
                i <= self.diagnostics@.len(),
                error <==> exists|j: int| 0 <= j < i && self.diagnostics@[j].severity == Severity::Error,
            decreases self.diagnostics@.len() - i,
        {
            if self.diagnostics[i].severity == Severity::Error {
                error = true;
            }
            i = i + 1;
        }
        self.scan_status = if error {
            AssetScanStatus::Error
        } else if self.dirty {
            AssetScanStatus::Dirty
        } else {
            AssetScanStatus::Ready
        };
        let verb = if refresh {
            "Refreshed "
        } else {
            "Scanned "
        };
        let number = u64_to_text(count as u64);
        let head = concat3(verb, number.as_str(), " asset(s)");
        let message = if self.diagnostics.len() == 0 {
            head
        } else {
            let summary = self.diagnostics[0].summary();
            concat3(head.as_str(), "; ", summary.as_str())
        };
        let command_id = if refresh {
            "asset.refresh"
        } else {
            "asset.scan"
        };
        proof {
            reveal_strlit("Refreshed ");
            reveal_strlit("Scanned ");
            reveal_strlit("Refreshed");
            reveal_strlit("Scanned");
            reveal_strlit(" ");
            reveal_strlit("asset.refresh");
            reveal_strlit("asset.scan");
            let v = if refresh { "Refreshed"@ } else { "Scanned"@ };
            assert(verb@ =~= v + " "@);
            assert(self.diagnostics@ == scan.diagnostics@);
            assert(message@ == scan_message_text(refresh, scan.index@.len(), scan.diagnostics@));
            assert(self.selection@ == selection_after(old(self)@.selected, scan.index@));
            assert(self.scan_status == (if has_error(scan.diagnostics@) {
                AssetScanStatus::Error
            } else if self.dirty {
                AssetScanStatus::Dirty
            } else {
                AssetScanStatus::Ready
            }));
        }
        let res = AssetCommandResult::new(command_id, message.as_str());
        self.last_result = Some(res.clone_result());
        res
    }

    /// Takes the outcome of starting the watcher that a `StartWatcher`
    /// step asked for: its status, or the error that stopped it.
    pub fn finish_start_watching(&mut self, outcome: Result<AssetWatchStatus, AssetWatchError>) -> (r:
        AssetCommandResult)
        ensures
            match outcome {
                Ok(status) => {
                    &&& r@ == ("asset.start_watching"@, "Started asset watcher"@)
                    &&& final(self)@ == with_last(
                        AssetStateView { watch_status: status, watching: true, ..old(self)@ },
                        r@,
                    )
                },
                Err(e) => {
                    let m = asset_watch_error_text(e);
                    &&& r@ == ("asset.start_watching"@, m)
                    &&& final(self)@.watch_status matches AssetWatchStatus::Error(t) && t@ == m
                    &&& final(self)@.scan_status == AssetScanStatus::Error
                    &&& warned(old(self)@.diagnostics, final(self)@.diagnostics, seq![m])
                    &&& final(self)@.dirty == old(self)@.dirty
                    &&& same_but_status(
                        AssetStateView { last_result: Some(r@), ..old(self)@ },
                        final(self)@,
                    )
                },
            },
    {
        match outcome {
            Ok(status) => {
                self.watch_status = status;
                self.watching = true;
                let res = AssetCommandResult::new("asset.start_watching", "Started asset watcher");
                self.last_result = Some(res.clone_result());
                res
            },
            Err(e) => {
                let message = e.message();
                self.watch_status = AssetWatchStatus::Error(message.clone());
                self.scan_status = AssetScanStatus::Error;
                let ghost before = self.diagnostics@;
                self.diagnostics.push(AssetDiagnostic::warning("watch", message.as_str()));
                proof {
                    assert(self.diagnostics@.take(before.len() as int) =~= before);
                }
                let res = AssetCommandResult::new("asset.start_watching", message.as_str());
                self.last_result = Some(res.clone_result());
                res
            },
        }
    }

    /// Takes the events a watcher reported: each error becomes a `watch`
    /// warning and the watch status; any change marks the index dirty.
    pub fn apply_watch_events(&mut self, events: &[AssetWatchEvent])
        ensures
            same_but_status(old(self)@, final(self)@),
            warned(old(self)@.diagnostics, final(self)@.diagnostics, watch_errors(events@)),
            watch_errors(events@).len() > 0 ==> (final(self)@.watch_status matches AssetWatchStatus::Error(
                t,
            ) && t@ == watch_errors(events@).last()),
            watch_errors(events@).len() == 0 ==> final(self)@.watch_status == old(
                self,
            )@.watch_status,
            final(self)@.dirty == (old(self)@.dirty || has_change(events@)),
            final(self)@.scan_status == (if has_change(events@) {
                AssetScanStatus::Dirty
            } else if watch_errors(events@).len() > 0 {
                AssetScanStatus::Error
            } else {
                old(self)@.scan_status
            }),
    {
        let ghost start = self@;
        proof {
            assert(events@.take(0) =~= Seq::<AssetWatchEvent>::empty());
            assert(self@.diagnostics.take(self@.diagnostics.len() as int) =~= self@.diagnostics);
        }
        let mut changed = false;
        let mut i: usize = 0;
        while i < events.len()
            invariant
                i <= events@.len(),
                same_but_status(start, self@),
                warned(start.diagnostics, self@.diagnostics, watch_errors(events@.take(i as int))),
                watch_errors(events@.take(i as int)).len() > 0 ==> (self@.watch_status matches AssetWatchStatus::Error(
                    t,
                ) && t@ == watch_errors(events@.take(i as int)).last()),
                watch_errors(events@.take(i as int)).len() == 0 ==> self@.watch_status
                    == start.watch_status,
                watch_errors(events@.take(i as int)).len() == 0 ==> self@.scan_status
                    == start.scan_status,
                watch_errors(events@.take(i as int)).len() > 0 ==> self@.scan_status
                    == AssetScanStatus::Error,
                self@.dirty == start.dirty,
                changed == has_change(events@.take(i as int)),
            decreases events@.len() - i,
        {
            proof {
                assert(events@.take(i + 1).drop_last() =~= events@.take(i as int));
            }
            match &events[i].kind {
                AssetWatchEventKind::Error(message) => {
                    let ghost before = self@.diagnostics;
                    self.diagnostics.push(AssetDiagnostic::warning("watch", message.as_str()));
                    self.watch_status = AssetWatchStatus::Error(message.clone());
                    self.scan_status = AssetScanStatus::Error;
                    proof {
                        let msgs = watch_errors(events@.take(i as int));
                        let now = watch_errors(events@.take(i + 1));
                        assert(now == msgs.push(message@));
                        assert(self@.diagnostics.take(start.diagnostics.len() as int)
                            =~= before.take(start.diagnostics.len() as int));
                        assert forall|k: int| 0 <= k < now.len() implies diagnostic_is(
                            #[trigger] self@.diagnostics[start.diagnostics.len() + k],
                            Severity::Warning,
                            "watch"@,
                            now[k],
                        ) by {
                            if k < msgs.len() {
                                assert(self@.diagnostics[start.diagnostics.len() + k]
                                    == before[start.diagnostics.len() + k]);
                            }
                        }
                    }
                },
                _ => {
                    changed = true;
                    proof {
                        assert(watch_errors(events@.take(i + 1)) == watch_errors(
                            events@.take(i as int),
                        ));
                        assert(!(events@.take(i + 1)[i as int].kind is Error));
                    }
                },
            }
            proof {
                if has_change(events@.take(i as int)) {
                    let j = choose|j: int| 0 <= j < i && !((#[trigger] events@.take(i as int)[j]).kind is Error);
                    assert(events@.take(i + 1)[j] == events@.take(i as int)[j]);
                }
                if has_change(events@.take(i + 1)) {
                    let j = choose|j: int| 0 <= j < i + 1 && !((#[trigger] events@.take(i + 1)[j]).kind is Error);
                    if j < i {
                        assert(events@.take(i + 1)[j] == events@.take(i as int)[j]);
                    }
                }
            }
            i = i + 1;
        }
        proof {
            assert(events@.take(events@.len() as int) =~= events@);
        }
        if changed {
            self.dirty = true;
            self.scan_status = AssetScanStatus::Dirty;
        }
    }

    /// Selects the asset `id` when the index holds it.
    pub fn select_asset(&mut self, id: AssetId) -> (r: bool)
        ensures
            r == exists|i: int| 0 <= i < old(self)@.index.len() && old(self)@.index[i].id@ == id@,
            r ==> final(self)@ == (AssetStateView {
                selected: Some(id),
                last_result: None,
                ..old(self)@
            }),
            !r ==> final(self)@ == old(self)@,
    {
        match self.index.find(id) {
            None => false,
            Some(_) => {
                self.selection.select(id);
                self.last_result = None;
                true
            },
        }
    }

    /// Selects the asset on row `row_index` of the index.
    pub fn select_row(&mut self, row_index: usize) -> (r: bool)
        ensures
            row_index < old(self)@.index.len() ==> r && final(self)@ == (AssetStateView {
                selected: Some(old(self)@.index[row_index as int].id),
                last_result: None,
                ..old(self)@
            }),
            row_index >= old(self)@.index.len() ==> !r && final(self)@ == old(self)@,
    {
        let records = self.index.records();
        if row_index >= records.len() {
            return false;
        }
        let id = records[row_index].id;
        self.select_asset(id)
    }

    /// A project was opened with these roots: everything else starts over.
    pub fn on_project_opened(&mut self, project_root: &str, asset_root: &str)
        ensures
            final(self)@ == opened_view(project_root@, asset_root@),
    {
        self.reset();
        self.project_root = Some(project_root.to_owned());
        self.asset_root = Some(asset_root.to_owned());
        self.scan_status = AssetScanStatus::Ready;
    }

    /// The project was closed: no roots, nothing indexed or watched.
    pub fn on_project_closed(&mut self)
        ensures
            final(self)@ == no_project_view(),
    {
        self.reset();
    }

    /// Takes a scan made elsewhere as the state of a project rooted above
    /// the scanned root.
    pub fn load_fixture_scan(&mut self, scan: AssetScan)
        ensures
            final(self)@ == (AssetStateView {
                asset_root: opt_text(scan.root),
                project_root: match opt_text(scan.root) {
                    Some(root) => parent_text(root),
                    None => None,
                },
                index: scan.index@,
                diagnostics: scan.diagnostics@,
                scanned_count: Some(scan.index@.len() as usize),
                scan_status: AssetScanStatus::Ready,
                ..old(self)@
            }),
    {
        self.project_root = match &scan.root {
            Some(root) => parent_str(root.as_str()),
            None => None,
        };
        self.asset_root = copy_text(&scan.root);
        let count = scan.index.len();
        self.index = scan.index;
        self.diagnostics = scan.diagnostics;
        self.scanned_count = Some(count);
        self.scan_status = AssetScanStatus::Ready;
    }

    /// The asset panel, with its rows shown from the first.
    pub fn ui_snapshot(&self) -> (r: AssetUiSnapshot)
        ensures
            is_asset_snapshot(
                r,
                self@.index,
                self@.selected,
                self@.asset_root is Some,
                self@.scan_status,
                self@.watch_status,
                self@.diagnostics,
                last_message(self@),
                self@.dirty,
                self@.scanned_count is Some,
                0,
            ),
    {
        let last = match &self.last_result {
            Some(res) => Some(res.message()),
            None => None,
        };
        asset_ui_snapshot_with_scroll(
            &self.index,
            &self.selection,
            AssetUiState {
                project_loaded: self.asset_root.is_some(),
                scan_status: self.scan_status,
                watch_status: &self.watch_status,
                diagnostics: self.diagnostics.as_slice(),
                last_command_message: last,
                dirty: self.dirty,
                scanned: self.scanned_count.is_some(),
            },
            0,
        )
    }

    pub fn scanned_asset_count(&self) -> (r: Option<usize>)
        ensures
            r == self@.scanned_count,
    {
        self.scanned_count
    }

    pub fn index(&self) -> (r: &AssetIndex)
        ensures
            r@ == self@.index,
    {
        &self.index
    }

    pub fn selection(&self) -> (r: &AssetSelection)
        ensures
            r@ == self@.selected,
    {
        &self.selection
    }

    pub fn kind_summary(&self) -> (r: String)
        ensures
            r@ == kind_summary_text(self@.index),
    {
        self.index.kind_summary()
    }

    pub fn scan_status(&self) -> (r: AssetScanStatus)
        ensures
            r == self@.scan_status,
    {
        self.scan_status
    }

    pub fn watch_status(&self) -> (r: &AssetWatchStatus)
        ensures
            *r == self@.watch_status,
    {
        &self.watch_status
    }

    pub fn is_dirty(&self) -> (r: bool)
        ensures
            r == self@.dirty,
    {
        self.dirty
    }

    pub fn is_watching(&self) -> (r: bool)
        ensures
            r == self@.watching,
    {
        self.watching
    }

    pub fn last_command_result(&self) -> (r: Option<&AssetCommandResult>)
        ensures
            match self@.last_result {
                Some(v) => r matches Some(res) && res@ == v,
                None => r is None,
            },
    {
        match &self.last_result {
            Some(res) => Some(res),
            None => None,
        }
    }
}

impl AssetCommandResult {
    fn clone_result(&self) -> (r: Self)
        ensures
            r@ == self@,
    {
        AssetCommandResult { command_id: self.command_id.clone(), message: self.message.clone() }
    }
}

impl Default for AssetState {
    fn default() -> (r: Self)
        ensures
            r@ == no_project_view(),
    {
        AssetState {
            project_root: None,
            asset_root: None,
            index: AssetIndex::new(),
            selection: AssetSelection::none(),
            scan_status: AssetScanStatus::UnavailableNoProject,
            watch_status: AssetWatchStatus::Stopped,
            diagnostics: Vec::new(),
            scanned_count: None,
            last_result: None,
            dirty: false,
            watching: false,
        }
    }
}

} // verus!
