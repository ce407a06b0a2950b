//! What the editor's panels show: the viewport panel, and the asset panel's
//! rows, counts and status line.
use crate::asset_index::{kind_summary_text, AssetIndex, AssetSelection};
use crate::asset_record::AssetRecord;
use crate::assets::{asset_kind_label, path_text, AssetDiagnostic, AssetId};
use crate::asset_watch::AssetWatchStatus;
use crate::text::{concat2, concat3, decimal, u64_to_text};
use crate::viewport::{status_message_text, ViewportState, ViewportStatus};
use crate::adapter_protocol::{AdapterCapabilities, AdapterDiagnostic, AdapterName, AdapterVersion};
use crate::adapter_session::AdapterHostState;
use crate::text::{bool_text, bool_to_text};
use vstd::prelude::*;

verus! {

/// What the viewport panel shows.
#[derive(Debug, Clone, PartialEq, Eq)]
pub struct ViewportUiSnapshot {
    pub title: String,
    pub message: String,
    pub hint: String,
    pub status: ViewportStatus,
    pub show_preview_label: bool,
    pub frame_width: u32,
    pub frame_height: u32,
    pub frame_rgba: Vec<u8>,
    pub command_message: String,
}

/// What to do next, for each viewport status.
pub open spec fn viewport_hint_text(status: ViewportStatus) -> Seq<char> {
    match status {
        ViewportStatus::NoSource => "Open a project, connect an adapter, then run viewport.request_frame"@,
        ViewportStatus::WaitingForFrame => "Run viewport.request_frame from the command palette to load a preview"@,
        ViewportStatus::FrameAvailable => "Scroll to zoom, Alt+drag to pan, click to select scene objects"@,
        ViewportStatus::Error => "Check adapter diagnostics and retry viewport.request_frame"@,
    }
}

pub fn viewport_hint_for_status(status: ViewportStatus) -> (r: &'static str)
    ensures
        r@ == viewport_hint_text(status),
{
    match status {
        ViewportStatus::NoSource => "Open a project, connect an adapter, then run viewport.request_frame",
        ViewportStatus::WaitingForFrame => "Run viewport.request_frame from the command palette to load a preview",
        ViewportStatus::FrameAvailable => "Scroll to zoom, Alt+drag to pan, click to select scene objects",
        ViewportStatus::Error => "Check adapter diagnostics and retry viewport.request_frame",
    }
}

/// The viewport panel for a viewport state and the message of the last
/// viewport command, if any: an error shows its diagnostic where there is
/// one, any other status its own text.
pub fn viewport_ui_snapshot(state: &ViewportState, last_command_message: Option<&str>) -> (r: ViewportUiSnapshot)
    ensures
        r.title@ == "Viewport"@,
        r.message@ == (if state.status == ViewportStatus::Error && state.last_diagnostic is Some {
            state.last_diagnostic->Some_0.message@
        } else {
            status_message_text(state.status)
        }),
        r.hint@ == viewport_hint_text(state.status),
        r.status == state.status,
        r.show_preview_label == (state.status == ViewportStatus::FrameAvailable),
        match state.frame {
            Some(f) => r.frame_width == f.size.width && r.frame_height == f.size.height
                && r.frame_rgba@ == f.pixels.rgba@,
            None => r.frame_width == 0 && r.frame_height == 0 && r.frame_rgba@.len() == 0,
        },
        r.command_message@ == match last_command_message {
            Some(m) => m@,
            None => Seq::<char>::empty(),
        },
{
    let message = if state.status == ViewportStatus::Error {
        match &state.last_diagnostic {
            Some(d) => d.message.clone(),
            None => String::from_str(state.status_message()),
        }
    } else {
        String::from_str(state.status_message())
    };
    let (frame_width, frame_height, frame_rgba) = match &state.frame {
        Some(frame) => (frame.size.width, frame.size.height, copy_bytes(&frame.pixels.rgba)),
        None => (0, 0, Vec::new()),
    };
    ViewportUiSnapshot {
        title: String::from_str("Viewport"),
        message,
        hint: String::from_str(viewport_hint_for_status(state.status)),
        status: state.status,
        show_preview_label: state.status == ViewportStatus::FrameAvailable,
        frame_width,
        frame_height,
        frame_rgba,
        command_message: match last_command_message {
            Some(m) => m.to_owned(),
            None => String::new(),
        },
    }
}

fn copy_bytes(v: &Vec<u8>) -> (r: Vec<u8>)
    ensures
        r@ == v@,
{
    let mut out: Vec<u8> = Vec::new();
    let mut i: usize = 0;
    while i < v.len()
        invariant
            i <= v@.len(),
            out@ == v@.take(i as int),
        decreases v@.len() - i,
    {
        out.push(v[i]);
        assert(out@ =~= v@.take(i + 1));
        i = i + 1;
    }
    assert(v@.take(v@.len() as int) =~= v@);
    out
}

/// How many asset rows the panel shows at once.
pub const MAX_VISIBLE_ASSET_ROWS: usize = 8;

/// Where the asset scan stands.
#[derive(Debug, Clone, Copy, PartialEq, Eq, Structural)]
pub enum AssetScanStatus {
    UnavailableNoProject,
    Scanning,
    Ready,
    Dirty,
    Error,
}

/// What the asset panel needs of the editor's asset state.
pub struct AssetUiState<'a> {
    pub project_loaded: bool,
    pub scan_status: AssetScanStatus,
    pub watch_status: &'a AssetWatchStatus,
    pub diagnostics: &'a [AssetDiagnostic],
    pub last_command_message: Option<&'a str>,
    pub dirty: bool,
    pub scanned: bool,
}

/// A record's row: its name, path and kind.
pub open spec fn row_label_text(r: AssetRecord) -> Seq<char> {
    r.name@ + " - "@ + path_text(r.path@) + " ("@ + asset_kind_label(r.kind) + ")"@
}

pub fn asset_row_label(record: &AssetRecord) -> (r: String)
    ensures
        r@ == row_label_text(*record),
{
    let head = concat3(record.name.as_str(), " - ", record.path.display().as_str());
    let head = concat3(head.as_str(), " (", record.kind.label());
    concat2(head.as_str(), ")")
}

/// The first row shown: the requested one, but no later than the last
/// full window of rows.
pub open spec fn clamped_offset(scroll_offset: usize, total_rows: usize, visible_rows: usize) -> usize {
    let last = if total_rows >= visible_rows {
        (total_rows - visible_rows) as usize
    } else {
        0usize
    };
    if scroll_offset <= last {
        scroll_offset
    } else {
        last
    }
}

pub fn clamp_scroll_offset(scroll_offset: usize, total_rows: usize, visible_rows: usize) -> (r: usize)
    ensures
        r == clamped_offset(scroll_offset, total_rows, visible_rows),
{
    let last = total_rows.saturating_sub(visible_rows);
    if scroll_offset <= last {
        scroll_offset
    } else {
        last
    }
}

/// The position, within the rows shown from `scroll_offset`, of the first
/// record with the identifier `id`.
pub fn row_index_for_asset(index: &AssetIndex, id: AssetId, scroll_offset: usize) -> (r: Option<usize>)
    ensures
        r matches Some(k) ==> k < MAX_VISIBLE_ASSET_ROWS && scroll_offset + k < index@.len()
            && index@[scroll_offset + k].id@ == id@ && forall|j: int|
            scroll_offset <= j < scroll_offset + k ==> index@[j].id@ != id@,
        r is None ==> forall|j: int|
            scroll_offset <= j < scroll_offset + MAX_VISIBLE_ASSET_ROWS && j < index@.len()
                ==> index@[j].id@ != id@,
{
    let records = index.records();
    let n = records.len();
    let mut k: usize = 0;
    while k < MAX_VISIBLE_ASSET_ROWS
        invariant
            n == index@.len(),
            records@ == index@,
            k <= MAX_VISIBLE_ASSET_ROWS,
            forall|j: int| scroll_offset <= j < scroll_offset + k && j < n ==> index@[j].id@ != id@,
        decreases MAX_VISIBLE_ASSET_ROWS - k,
    {
        if scroll_offset >= n || k >= n - scroll_offset {
            return None;
        }
        if records[scroll_offset + k].id.get() == id.get() {
            return Some(k);
        }
        k = k + 1;
    }
    None
}

/// The selected asset, as the panel sums it up.
pub open spec fn selected_summary_text(index: Seq<AssetRecord>, selected: Option<AssetId>) -> Seq<
    char,
> {
    match selected {
        None => "Selected: None"@,
        Some(id) => if exists|i: int| 0 <= i < index.len() && index[i].id@ == id@ {
            let i = choose|i: int|
                0 <= i < index.len() && index[i].id@ == id@ && forall|j: int|
                    0 <= j < i ==> index[j].id@ != id@;
            "Selected: "@ + index[i].name@ + " | "@ + asset_kind_label(index[i].kind) + " | "@
                + path_text(index[i].path@)
        } else {
            "Selected: None"@
        },
    }
}

proof fn lemma_first_with_id_unique(s: Seq<AssetRecord>, id: u64, i: int, k: int)
    requires
        crate::asset_index::first_with_id(s, id, i),
        crate::asset_index::first_with_id(s, id, k),
    ensures
        i == k,
{
}

pub fn selected_asset_summary(index: &AssetIndex, selected: Option<AssetId>) -> (r: String)
    ensures
        r@ == selected_summary_text(index@, selected),
{
    let id = match selected {
        Some(id) => id,
        None => {
            return String::from_str("Selected: None");
        },
    };
    match index.find(id) {
        None => String::from_str("Selected: None"),
        Some(record) => {
            proof {
                let k = choose|k: int| crate::asset_index::first_with_id(index@, id@, k) && index@[k] == *record;
                let i = choose|i: int|
                    0 <= i < index@.len() && index@[i].id@ == id@ && forall|j: int|
                        0 <= j < i ==> index@[j].id@ != id@;
                lemma_first_with_id_unique(index@, id@, i, k);
            }
            let head = concat3("Selected: ", record.name.as_str(), " | ");
            let head = concat3(head.as_str(), record.kind.label(), " | ");
            concat2(head.as_str(), record.path.display().as_str())
        },
    }
}

pub open spec fn watch_label_text(status: AssetWatchStatus) -> Seq<char> {
    match status {
        AssetWatchStatus::Stopped => "Watch: stopped"@,
        AssetWatchStatus::Watching(_) => "Watch: watching"@,
        AssetWatchStatus::Error(_) => "Watch: error"@,
    }
}

pub fn watch_label(status: &AssetWatchStatus) -> (r: String)
    ensures
        r@ == watch_label_text(*status),
{
    match status {
        AssetWatchStatus::Stopped => String::from_str("Watch: stopped"),
        AssetWatchStatus::Watching(_) => String::from_str("Watch: watching"),
        AssetWatchStatus::Error(_) => String::from_str("Watch: error"),
    }
}

/// The asset count line of the panel.
pub open spec fn asset_count_text(
    index: Seq<AssetRecord>,
    project_loaded: bool,
    scan_status: AssetScanStatus,
    watch: AssetWatchStatus,
    diagnostics: Seq<AssetDiagnostic>,
    dirty: bool,
    scanned: bool,
) -> Seq<char> {
    if !project_loaded {
        "Assets unavailable - no project open"@
    } else if dirty || scan_status == AssetScanStatus::Dirty {
        "Asset index dirty - refresh recommended | "@ + watch_label_text(watch)
    } else if diagnostics.len() > 0 && scan_status == AssetScanStatus::Error {
        "Asset error: "@ + diagnostics[0].field@ + ": "@ + diagnostics[0].message@
    } else {
        match scan_status {
            AssetScanStatus::UnavailableNoProject => "Assets unavailable - no project open"@,
            AssetScanStatus::Scanning => "Scanning assets..."@,
            AssetScanStatus::Error => "Asset error"@,
            AssetScanStatus::Dirty => "Asset index dirty - refresh recommended | "@
                + watch_label_text(watch),
            AssetScanStatus::Ready => if index.len() == 0 && !scanned {
                "Assets not scanned - Run asset.scan | "@ + watch_label_text(watch)
            } else {
                "Assets: "@ + decimal(index.len()) + " | "@ + kind_summary_text(index) + " | "@
                    + watch_label_text(watch)
            },
        }
    }
}

pub fn asset_count_label(index: &AssetIndex, state: &AssetUiState) -> (r: String)
    ensures
        r@ == asset_count_text(
            index@,
            state.project_loaded,
            state.scan_status,
            *state.watch_status,
            state.diagnostics@,
            state.dirty,
            state.scanned,
        ),
{
    if !state.project_loaded {
        return String::from_str("Assets unavailable - no project open");
    }
    if state.dirty || state.scan_status == AssetScanStatus::Dirty {
        let w = watch_label(state.watch_status);
        return concat2("Asset index dirty - refresh recommended | ", w.as_str());
    }
    if state.diagnostics.len() > 0 && state.scan_status == AssetScanStatus::Error {
        let s = state.diagnostics[0].summary();
        return concat2("Asset error: ", s.as_str());
    }
    match state.scan_status {
        AssetScanStatus::UnavailableNoProject => String::from_str(
            "Assets unavailable - no project open",
        ),
        AssetScanStatus::Scanning => String::from_str("Scanning assets..."),
        AssetScanStatus::Error => String::from_str("Asset error"),
        AssetScanStatus::Dirty => {
            let w = watch_label(state.watch_status);
            concat2("Asset index dirty - refresh recommended | ", w.as_str())
        },
        AssetScanStatus::Ready => {
            let w = watch_label(state.watch_status);
            if index.is_empty() && !state.scanned {
                concat2("Assets not scanned - Run asset.scan | ", w.as_str())
            } else {
                let count = u64_to_text(index.len() as u64);
                let summary = index.kind_summary();
                let head = concat3("Assets: ", count.as_str(), " | ");
                let head = concat3(head.as_str(), summary.as_str(), " | ");
                concat2(head.as_str(), w.as_str())
            }
        },
    }
}

/// The asset part of the status line.
pub open spec fn status_suffix_text(
    index: Seq<AssetRecord>,
    selected: Option<AssetId>,
    scan_status: AssetScanStatus,
    diagnostics: Seq<AssetDiagnostic>,
    last_command_message: Option<Seq<char>>,
    dirty: bool,
    scanned: bool,
) -> Seq<char> {
    if last_command_message is Some {
        "Asset: "@ + last_command_message->Some_0
    } else if dirty {
        "Asset: Asset index dirty - refresh recommended"@
    } else if diagnostics.len() > 0 {
        "Asset: "@ + diagnostics[0].field@ + ": "@ + diagnostics[0].message@
    } else if selected is Some && exists|i: int|
        0 <= i < index.len() && index[i].id@ == selected->Some_0@ {
        let id = selected->Some_0;
        let i = choose|i: int|
            0 <= i < index.len() && index[i].id@ == id@ && forall|j: int|
                0 <= j < i ==> index[j].id@ != id@;
        "Asset: "@ + index[i].name@ + " ("@ + asset_kind_label(index[i].kind) + ")"@
    } else {
        match scan_status {
            AssetScanStatus::UnavailableNoProject => "Asset: No project open"@,
            AssetScanStatus::Scanning => "Asset: Scanning assets..."@,
            AssetScanStatus::Dirty => "Asset: Asset index dirty - refresh recommended"@,
            AssetScanStatus::Error => "Asset: Error"@,
            AssetScanStatus::Ready => if index.len() == 0 && !scanned {
                "Asset: Assets not scanned"@
            } else {
                "Assets: "@ + decimal(index.len())
            },
        }
    }
}

pub fn status_asset_suffix(index: &AssetIndex, selected: Option<AssetId>, state: &AssetUiState) -> (r: String)
    ensures
        r@ == status_suffix_text(
            index@,
            selected,
            state.scan_status,
            state.diagnostics@,
            match state.last_command_message {
                Some(m) => Some(m@),
                None => None,
            },
            state.dirty,
            state.scanned,
        ),
{
    match state.last_command_message {
        Some(m) => {
            return concat2("Asset: ", m);
        },
        None => {},
    }
    if state.dirty {
        return String::from_str("Asset: Asset index dirty - refresh recommended");
    }
    if state.diagnostics.len() > 0 {
        let s = state.diagnostics[0].summary();
        return concat2("Asset: ", s.as_str());
    }
    match selected {
        Some(id) => match index.find(id) {
            Some(record) => {
                proof {
                    let k = choose|k: int| crate::asset_index::first_with_id(index@, id@, k) && index@[k] == *record;
                    let i = choose|i: int|
                        0 <= i < index@.len() && index@[i].id@ == id@ && forall|j: int|
                            0 <= j < i ==> index@[j].id@ != id@;
                    lemma_first_with_id_unique(index@, id@, i, k);
                }
                let head = concat3("Asset: ", record.name.as_str(), " (");
                let head = concat3(head.as_str(), record.kind.label(), ")");
                return head;
            },
            None => {},
        },
        None => {},
    }
    match state.scan_status {
        AssetScanStatus::UnavailableNoProject => String::from_str("Asset: No project open"),
        AssetScanStatus::Scanning => String::from_str("Asset: Scanning assets..."),
        AssetScanStatus::Dirty => String::from_str("Asset: Asset index dirty - refresh recommended"),
        AssetScanStatus::Error => String::from_str("Asset: Error"),
        AssetScanStatus::Ready => {
            if index.is_empty() && !state.scanned {
                String::from_str("Asset: Assets not scanned")
            } else {
                let count = u64_to_text(index.len() as u64);
                concat2("Assets: ", count.as_str())
            }
        },
    }
}

/// What the asset panel shows: a title, the count line, one label per
/// visible row (empty past the last record), the selected asset, and the
/// asset part of the status line.
#[derive(Debug, Clone, PartialEq, Eq)]
pub struct AssetUiSnapshot {
    pub asset_section_title: String,
    pub asset_count: String,
    pub asset_row_labels: Vec<String>,
    pub asset_selected_summary: String,
    pub selected_row_index: Option<usize>,
    pub scroll_offset: usize,
    pub total_rows: usize,
    pub visible_rows: usize,
    pub status_asset_suffix: String,
}

/// The label of visible row `k` when the rows are shown from `offset`.
pub open spec fn visible_row_text(index: Seq<AssetRecord>, offset: int, k: int) -> Seq<char> {
    if offset + k < index.len() {
        row_label_text(index[offset + k])
    } else {
        Seq::<char>::empty()
    }
}

/// What the asset panel shows of an index, a selection and the asset
/// state, with rows shown from `scroll_offset` (clamped).
pub open spec fn is_asset_snapshot(
    r: AssetUiSnapshot,
    index: Seq<AssetRecord>,
    selected: Option<AssetId>,
    project_loaded: bool,
    scan_status: AssetScanStatus,
    watch: AssetWatchStatus,
    diagnostics: Seq<AssetDiagnostic>,
    last_message: Option<Seq<char>>,
    dirty: bool,
    scanned: bool,
    scroll_offset: usize,
) -> bool {
    &&& r.asset_section_title@ == "Assets"@
    &&& r.scroll_offset == clamped_offset(scroll_offset, index.len() as usize, MAX_VISIBLE_ASSET_ROWS)
    &&& r.total_rows == index.len()
    &&& r.visible_rows == MAX_VISIBLE_ASSET_ROWS
    &&& r.asset_row_labels@.len() == MAX_VISIBLE_ASSET_ROWS
    &&& forall|k: int| 0 <= k < MAX_VISIBLE_ASSET_ROWS ==> #[trigger] r.asset_row_labels@[k]@
        == visible_row_text(index, r.scroll_offset as int, k)
    &&& r.asset_count@ == asset_count_text(
        index,
        project_loaded,
        scan_status,
        watch,
        diagnostics,
        dirty,
        scanned,
    )
    &&& r.asset_selected_summary@ == selected_summary_text(index, selected)
    &&& selected is None ==> r.selected_row_index is None
    &&& selected matches Some(id) ==> match r.selected_row_index {
        Some(k) => k < MAX_VISIBLE_ASSET_ROWS && r.scroll_offset + k < index.len()
            && index[r.scroll_offset + k].id@ == id@ && forall|j: int|
            r.scroll_offset <= j < r.scroll_offset + k ==> index[j].id@ != id@,
        None => forall|j: int|
            r.scroll_offset <= j < r.scroll_offset + MAX_VISIBLE_ASSET_ROWS && j < index.len()
                ==> index[j].id@ != id@,
    }
    &&& r.status_asset_suffix@ == status_suffix_text(
        index,
        selected,
        scan_status,
        diagnostics,
        last_message,
        dirty,
        scanned,
    )
}

fn visible_row_labels(index: &AssetIndex, offset: usize) -> (r: Vec<String>)
    ensures
        r@.len() == MAX_VISIBLE_ASSET_ROWS,
        forall|k: int| 0 <= k < MAX_VISIBLE_ASSET_ROWS ==> #[trigger] r@[k]@ == visible_row_text(
            index@,
            offset as int,
            k,
        ),
{
    let records = index.records();
    let n = records.len();
    let mut labels: Vec<String> = Vec::new();
    let mut k: usize = 0;
    while k < MAX_VISIBLE_ASSET_ROWS
        invariant
            n == index@.len(),
            records@ == index@,
            k <= MAX_VISIBLE_ASSET_ROWS,
            labels@.len() == k,
            forall|j: int| 0 <= j < k ==> #[trigger] labels@[j]@ == visible_row_text(
                index@,
                offset as int,
                j,
            ),
        decreases MAX_VISIBLE_ASSET_ROWS - k,
    {
        if offset < n && k < n - offset {
            labels.push(asset_row_label(&records[offset + k]));
        } else {
            labels.push(String::new());
        }
        k = k + 1;
    }
    labels
}

/// The asset panel with its rows shown from `scroll_offset`, clamped to
/// the last full window.
pub fn asset_ui_snapshot_with_scroll(
    index: &AssetIndex,
    selection: &AssetSelection,
    state: AssetUiState,
    scroll_offset: usize,
) -> (r: AssetUiSnapshot)
    ensures
        is_asset_snapshot(
            r,
            index@,
            selection@,
            state.project_loaded,
            state.scan_status,
            *state.watch_status,
            state.diagnostics@,
            match state.last_command_message {
                Some(m) => Some(m@),
                None => None,
            },
            state.dirty,
            state.scanned,
            scroll_offset,
        ),
{
    let total_rows = index.len();
    let offset = clamp_scroll_offset(scroll_offset, total_rows, MAX_VISIBLE_ASSET_ROWS);
    let asset_row_labels = visible_row_labels(index, offset);
    let selected = selection.selected();
    let selected_row_index = match selected {
        Some(id) => row_index_for_asset(index, id, offset),
        None => None,
    };
    AssetUiSnapshot {
        asset_section_title: String::from_str("Assets"),
        asset_count: asset_count_label(index, &state),
        asset_row_labels,
        asset_selected_summary: selected_asset_summary(index, selected),
        selected_row_index,
        scroll_offset: offset,
        total_rows,
        visible_rows: MAX_VISIBLE_ASSET_ROWS,
        status_asset_suffix: status_asset_suffix(index, selected, &state),
    }
}

/// What the adapter panel shows.
#[derive(Debug, Clone, PartialEq, Eq)]
pub struct AdapterUiSnapshot {
    pub adapter_status: String,
    pub adapter_diagnostics: String,
    pub adapter_command: String,
    pub status_adapter_suffix: String,
}

pub open spec fn host_state_label(state: AdapterHostState) -> Seq<char> {
    match state {
        AdapterHostState::Disconnected => "Disconnected"@,
        AdapterHostState::Starting => "Starting"@,
        AdapterHostState::Connected => "Connected"@,
        AdapterHostState::Failed => "Failed"@,
        AdapterHostState::Stopped => "Stopped"@,
    }
}

pub fn state_label(state: AdapterHostState) -> (r: &'static str)
    ensures
        r@ == host_state_label(state),
{
    match state {
        AdapterHostState::Disconnected => "Disconnected",
        AdapterHostState::Starting => "Starting",
        AdapterHostState::Connected => "Connected",
        AdapterHostState::Failed => "Failed",
        AdapterHostState::Stopped => "Stopped",
    }
}

/// The capabilities as `name=true|false` pairs.
pub open spec fn capabilities_text(c: AdapterCapabilities) -> Seq<char> {
    "Capabilities: project="@ + bool_text(c.provides_project_info) + " scene="@ + bool_text(
        c.provides_scene_snapshot,
    ) + " diagnostics="@ + bool_text(c.provides_diagnostics) + " writeback="@ + bool_text(
        c.supports_property_writeback,
    ) + " viewport="@ + bool_text(c.supports_viewport_preview)
}

pub fn capabilities_summary(c: &AdapterCapabilities) -> (r: String)
    ensures
        r@ == capabilities_text(*c),
{
    let a = bool_to_text(c.provides_project_info);
    let b = bool_to_text(c.provides_scene_snapshot);
    let d = bool_to_text(c.provides_diagnostics);
    let w = bool_to_text(c.supports_property_writeback);
    let v = bool_to_text(c.supports_viewport_preview);
    let out = concat3("Capabilities: project=", a.as_str(), " scene=");
    let out = concat3(out.as_str(), b.as_str(), " diagnostics=");
    let out = concat3(out.as_str(), d.as_str(), " writeback=");
    let out = concat3(out.as_str(), w.as_str(), " viewport=");
    concat2(out.as_str(), v.as_str())
}

/// The adapter's status line: its name and version once connected, else
/// its state.
pub open spec fn connected_label_text(
    state: AdapterHostState,
    name: Option<Seq<char>>,
    version: Option<Seq<char>>,
) -> Seq<char> {
    if state == AdapterHostState::Connected && name is Some && version is Some {
        "Adapter: "@ + name->Some_0 + " "@ + version->Some_0 + " Connected"@
    } else {
        "Adapter: "@ + host_state_label(state)
    }
}

pub fn adapter_ui_snapshot(
    state: AdapterHostState,
    name: Option<&AdapterName>,
    version: Option<&AdapterVersion>,
    capabilities: Option<&AdapterCapabilities>,
    diagnostics: &[AdapterDiagnostic],
    last_result: Option<&str>,
) -> (r: AdapterUiSnapshot)
    ensures
        ({
            let connected = connected_label_text(
                state,
                match name {
                    Some(n) => Some(n@),
                    None => None,
                },
                match version {
                    Some(v) => Some(v@),
                    None => None,
                },
            );
            let caps = match capabilities {
                Some(c) => capabilities_text(*c),
                None => "Capabilities: None"@,
            };
            &&& r.adapter_status@ == connected + " | "@ + caps
            &&& r.adapter_diagnostics@ == "Adapter Diagnostics: "@ + decimal(diagnostics@.len())
            &&& r.adapter_command@ == match last_result {
                Some(m) => "Adapter Command: "@ + m@,
                None => "Adapter Command: None"@,
            }
            &&& r.status_adapter_suffix@ == connected
        }),
{
    let connected = match (state, name, version) {
        (AdapterHostState::Connected, Some(n), Some(v)) => {
            let head = concat3("Adapter: ", n.as_str(), " ");
            concat3(head.as_str(), v.as_str(), " Connected")
        },
        _ => concat2("Adapter: ", state_label(state)),
    };
    let caps = match capabilities {
        Some(c) => capabilities_summary(c),
        None => String::from_str("Capabilities: None"),
    };
    let count = u64_to_text(diagnostics.len() as u64);
    let command = match last_result {
        Some(m) => concat2("Adapter Command: ", m),
        None => String::from_str("Adapter Command: None"),
    };
    AdapterUiSnapshot {
        adapter_status: concat3(connected.as_str(), " | ", caps.as_str()),
        adapter_diagnostics: concat2("Adapter Diagnostics: ", count.as_str()),
        adapter_command: command,
        status_adapter_suffix: connected,
    }
}

} // verus!
