//! Asset roots and the scan of an asset directory tree.
//!
//! The scan is a state machine: the scanner says which directory it needs
//! read next, the caller reads it and hands the listing back, and the
//! scanner decides which entries become records, which directories it
//! descends into, and which failures it reports.
use crate::asset_index::{AssetIndex, AssetSelection};
use crate::asset_record::{record_name_source, AssetMetadata, AssetRecord};
use crate::assets::{
    asset_error_text, detect_kind_from_path, extension_of, file_name, law_normalized_path_is_stable,
    lemma_components_of_suffix,
    kind_for_optional_extension, path_asset_id, path_components, path_components_of,
    path_extension, path_text, stable_asset_id, stable_asset_id_from_path, AssetDiagnostic,
    AssetError, AssetKind,
};
use crate::diagnostic::Severity;
use crate::path_sort::{insert_by_key, lemma_insert_at, lemma_sort_by_key, sort_by_key, sorted_by_key};
use crate::text::{all_whitespace, ascii_lower_seq, ascii_lowercase_str, concat2, concat3, trim};
use crate::asset_index::record_path_key;
use vstd::prelude::*;

verus! {

/// A path that begins at the file-system root.
pub open spec fn is_absolute_text(s: Seq<char>) -> bool {
    s.len() > 0 && s[0] == '/'
}

/// `p` appended to `base` as `PathBuf::push` does: an absolute `p`
/// replaces `base`, and a separator is put between them where `base` does
/// not end with one.
pub open spec fn join_text(base: Seq<char>, p: Seq<char>) -> Seq<char> {
    if is_absolute_text(p) || base.len() == 0 {
        p
    } else if base.last() == '/' {
        base + p
    } else {
        base + "/"@ + p
    }
}

/// `s` without trailing separators, keeping a leading one.
pub open spec fn strip_trailing_separators(s: Seq<char>) -> Seq<char>
    decreases s.len(),
{
    if s.len() > 1 && s.last() == '/' {
        strip_trailing_separators(s.drop_last())
    } else {
        s
    }
}

/// The position of the last separator of `s`, if any.
pub open spec fn last_separator(s: Seq<char>) -> Option<int>
    decreases s.len(),
{
    if s.len() == 0 {
        None
    } else if s.last() == '/' {
        Some(s.len() - 1)
    } else {
        last_separator(s.drop_last())
    }
}

/// The directory that holds `s`: the text before its last name, without
/// trailing separators; the empty text for a bare name; none for the root
/// or the empty path.
pub open spec fn parent_text(s: Seq<char>) -> Option<Seq<char>> {
    let t = strip_trailing_separators(s);
    if t.len() == 0 || t == "/"@ {
        None
    } else {
        match last_separator(t) {
            None => Some(Seq::empty()),
            Some(k) => Some(
                if k == 0 {
                    "/"@
                } else {
                    strip_trailing_separators(t.take(k))
                },
            ),
        }
    }
}

fn is_absolute_str(s: &str) -> (r: bool)
    ensures
        r == is_absolute_text(s@),
{
    s.unicode_len() > 0 && s.get_char(0) == '/'
}

fn join_str(base: &str, p: &str) -> (r: String)
    ensures
        r@ == join_text(base@, p@),
{
    if is_absolute_str(p) || base.unicode_len() == 0 {
        p.to_owned()
    } else if base.get_char(base.unicode_len() - 1) == '/' {
        concat2(base, p)
    } else {
        concat3(base, "/", p)
    }
}

fn strip_trailing_separators_len(s: &str) -> (r: usize)
    ensures
        r <= s@.len(),
        s@.take(r as int) == strip_trailing_separators(s@),
{
    let mut n = s.unicode_len();
    assert(s@.take(n as int) =~= s@);
    while n > 1 && s.get_char(n - 1) == '/'
        invariant
            n <= s@.len(),
            strip_trailing_separators(s@.take(n as int)) == strip_trailing_separators(s@),
        decreases n,
    {
        assert(s@.take(n as int).drop_last() =~= s@.take(n - 1));
        n = n - 1;
    }
    n
}

pub fn parent_str(s: &str) -> (r: Option<String>)
    ensures
        r matches Some(p) ==> parent_text(s@) == Some(p@),
        r is None ==> parent_text(s@) is None,
{
    let n = strip_trailing_separators_len(s);
    let t = s.substring_char(0, n);
    assert(t@ =~= s@.take(n as int));
    if n == 0 || (n == 1 && t.get_char(0) == '/') {
        proof {
            if n == 1 {
                assert(t@ =~= "/"@) by {
                    reveal_strlit("/");
                }
            }
        }
        return None;
    }
    proof {
        if t@ == "/"@ {
            reveal_strlit("/");
            assert(t@.len() == 1);
        }
    }
    let mut k = n;
    assert(t@.take(k as int) =~= t@);
    while k > 0 && t.get_char(k - 1) != '/'
        invariant
            k <= n,
            n == t@.len(),
            last_separator(t@.take(k as int)) == last_separator(t@),
        decreases k,
    {
        assert(t@.take(k as int).drop_last() =~= t@.take(k - 1));
        k = k - 1;
    }
    if k == 0 {
        assert(t@.take(0) =~= Seq::<char>::empty());
        return Some(String::new());
    }
    assert(t@.take(k as int).drop_last() =~= t@.take(k - 1));
    let sep = k - 1;
    if sep == 0 {
        return Some(String::from_str("/"));
    }
    let head = t.substring_char(0, sep);
    assert(head@ =~= t@.take(sep as int));
    let m = strip_trailing_separators_len(head);
    let u = head.substring_char(0, m);
    assert(u@ =~= head@.take(m as int));
    Some(u.to_owned())
}

/// Where a project's assets live: the project root, and the asset root
/// resolved against it.
#[derive(Debug, Clone, PartialEq, Eq)]
pub struct AssetRoot {
    project_root: String,
    asset_root: String,
}

impl AssetRoot {
    /// The asset root `asset_root`, relative to `project_root` unless it is
    /// absolute.
    pub fn new(project_root: &str, asset_root: &str) -> (r: Self)
        ensures
            r.project_root_view() == project_root@,
            r.asset_root_view() == join_text(project_root@, asset_root@),
    {
        AssetRoot { project_root: project_root.to_owned(), asset_root: join_str(project_root, asset_root) }
    }

    /// The asset root `asset_root`, in a project rooted at the directory
    /// that holds it (`.` when it has none).
    pub fn from_asset_root(asset_root: &str) -> (r: Self)
        ensures
            ({
                let project = match parent_text(asset_root@) {
                    Some(p) => p,
                    None => "."@,
                };
                &&& r.project_root_view() == project
                &&& r.asset_root_view() == join_text(project, asset_root@)
            }),
    {
        match parent_str(asset_root) {
            Some(p) => Self::new(p.as_str(), asset_root),
            None => Self::new(".", asset_root),
        }
    }

    pub closed spec fn project_root_view(&self) -> Seq<char> {
        self.project_root@
    }

    pub closed spec fn asset_root_view(&self) -> Seq<char> {
        self.asset_root@
    }

    pub fn project_root(&self) -> (r: &str)
        ensures
            r@ == self.project_root_view(),
    {
        self.project_root.as_str()
    }

    pub fn asset_root(&self) -> (r: &str)
        ensures
            r@ == self.asset_root_view(),
    {
        self.asset_root.as_str()
    }
}

/// A request to scan an asset root.
#[derive(Debug, Clone, PartialEq, Eq)]
pub struct AssetScanRequest {
    root: AssetRoot,
}

impl AssetScanRequest {
    pub fn new(project_root: &str, asset_root: &str) -> (r: Self)
        ensures
            r.root_view() == AssetRoot::new_spec(project_root@, asset_root@),
    {
        AssetScanRequest { root: AssetRoot::new(project_root, asset_root) }
    }

    pub fn from_asset_root(asset_root: &str) -> (r: Self)
        ensures
            r.root_view().0 == (match parent_text(asset_root@) {
                Some(p) => p,
                None => "."@,
            }),
            r.root_view().1 == join_text(r.root_view().0, asset_root@),
    {
        AssetScanRequest { root: AssetRoot::from_asset_root(asset_root) }
    }

    /// The project root and asset root of the request.
    pub closed spec fn root_view(&self) -> (Seq<char>, Seq<char>) {
        (self.root.project_root_view(), self.root.asset_root_view())
    }

    pub fn root(&self) -> (r: &AssetRoot)
        ensures
            (r.project_root_view(), r.asset_root_view()) == self.root_view(),
    {
        &self.root
    }
}

impl AssetRoot {
    /// The project and asset roots that `new` gives.
    pub open spec fn new_spec(project_root: Seq<char>, asset_root: Seq<char>) -> (
        Seq<char>,
        Seq<char>,
    ) {
        (project_root, join_text(project_root, asset_root))
    }
}

/// The outcome of a scan: the root scanned, the request, the index of the
/// assets found and the problems met.
#[derive(Debug, Clone, PartialEq, Eq)]
pub struct AssetScan {
    pub root: Option<String>,
    pub request: Option<AssetScanRequest>,
    pub index: AssetIndex,
    pub diagnostics: Vec<AssetDiagnostic>,
}

impl AssetScan {
    pub fn empty() -> (r: Self)
        ensures
            r.root is None,
            r.request is None,
            r.index@.len() == 0,
            r.diagnostics@.len() == 0,
    {
        AssetScan { root: None, request: None, index: AssetIndex::new(), diagnostics: Vec::new() }
    }

    /// The scan of the built-in demo assets, rooted at `assets`.
    pub fn from_demo_index(index: AssetIndex) -> (r: Self)
        ensures
            r.root matches Some(p) && p@ == "assets"@,
            r.request is None,
            r.index == index,
            r.diagnostics@.len() == 0,
    {
        AssetScan {
            root: Some(String::from_str("assets")),
            request: None,
            index,
            diagnostics: Vec::new(),
        }
    }

    /// Begins the scan of a request; the scanner drives it to the end.
    pub fn scan(request: AssetScanRequest) -> (r: AssetScanner)
        ensures
            r.request() == request,
            r@ == ScannerView::initial(request.root_view()),
    {
        AssetScanner::new(request)
    }

    /// Begins the scan of an asset root given on its own.
    pub fn scan_root(root: &str) -> (r: AssetScanner)
        ensures
            r.request().root_view().0 == (match parent_text(root@) {
                Some(p) => p,
                None => "."@,
            }),
            r.request().root_view().1 == join_text(r.request().root_view().0, root@),
            r@ == ScannerView::initial(r.request().root_view()),
    {
        Self::scan(AssetScanRequest::from_asset_root(root))
    }

    pub fn asset_count(&self) -> (r: usize)
        ensures
            r == self.index@.len(),
    {
        self.index.len()
    }

    pub fn diagnostics(&self) -> (r: &[AssetDiagnostic])
        ensures
            r@ == self.diagnostics@,
    {
        self.diagnostics.as_slice()
    }
}

/// Whether the asset root exists, and whether it is a directory.
#[derive(Debug, Clone, Copy, PartialEq, Eq)]
pub enum AssetRootState {
    Missing,
    NotDirectory,
    Directory,
}

/// What was read of an entry's file. Times are milliseconds since the Unix
/// epoch.
#[derive(Debug, Clone, PartialEq, Eq)]
pub struct FileFacts {
    pub file_size: u64,
    pub modified_time: Option<u64>,
}

/// One entry of a directory listing: its path, whether it is a directory,
/// and its metadata or the error met reading it.
#[derive(Debug, PartialEq, Eq)]
pub struct ScannedEntry {
    pub path: String,
    pub is_directory: bool,
    pub metadata: Result<FileFacts, String>,
}

/// The listing of a directory: its entries, each read or failed, or the
/// error met opening it.
#[derive(Debug, PartialEq, Eq)]
pub enum DirectoryListing {
    Read(Vec<Result<ScannedEntry, String>>),
    Failed(String),
}

/// What the scanner needs next.
#[derive(Debug, Clone, PartialEq, Eq)]
pub enum ScanStep {
    ReadDirectory(String),
    Continue,
    Finished,
}

/// The scanner's state: the remaining entries of each directory being
/// walked (innermost last), the records and diagnostics so far, and the
/// directory whose listing it waits for.
pub struct ScannerView {
    pub project_root: Seq<char>,
    pub root: Seq<char>,
    pub frames: Seq<Seq<ScannedEntry>>,
    pub records: Seq<AssetRecord>,
    pub diagnostics: Seq<AssetDiagnostic>,
    pub pending: Option<Seq<char>>,
}

impl ScannerView {
    pub open spec fn initial(roots: (Seq<char>, Seq<char>)) -> ScannerView {
        ScannerView {
            project_root: roots.0,
            root: roots.1,
            frames: Seq::empty(),
            records: Seq::empty(),
            diagnostics: Seq::empty(),
            pending: None,
        }
    }
}

/// The key by which a directory's entries are walked: their path.
pub open spec fn entry_path_key() -> spec_fn(ScannedEntry) -> Seq<Seq<char>> {
    |e: ScannedEntry| path_components(e.path@)
}

/// A diagnostic with the given severity, field and message.
pub open spec fn diagnostic_is(d: AssetDiagnostic, s: Severity, field: Seq<char>, message: Seq<
    char,
>) -> bool {
    d.severity == s && d.field@ == field && d.message@ == message
}

/// `path` relative to `project_root`: what follows the root's components
/// when they begin the path (and both are absolute or both relative), else
/// the path itself.
pub open spec fn relative_path_text(project_root: Seq<char>, path: Seq<char>) -> Seq<char> {
    let pc = path_components(project_root);
    let qc = path_components(path);
    if is_absolute_text(project_root) == is_absolute_text(path) && pc.len() <= qc.len() && qc.take(
        pc.len() as int,
    ) == pc {
        path_text(qc.skip(pc.len() as int))
    } else {
        path
    }
}

/// Hidden entries, whose name begins with `.` (the `.elcarax` folder among
/// them), are not indexed.
pub open spec fn skipped_path(path: Seq<char>) -> bool {
    match file_name(path_components(path)) {
        Some(n) => n.len() > 0 && n[0] == '.',
        None => false,
    }
}

/// The lower-case extension of the file `path` names.
pub open spec fn lower_extension(path: Seq<char>) -> Option<Seq<char>> {
    match path_extension(path) {
        Some(e) => Some(ascii_lower_seq(e)),
        None => None,
    }
}

/// The record the scan makes of an entry, given the entry's path relative
/// to the project.
pub open spec fn record_fits_entry(rec: AssetRecord, rel: Seq<char>, e: ScannedEntry) -> bool {
    &&& rec.id@ == path_asset_id(rel)
    &&& rec.name@ == trim(record_name_source(rel))
    &&& rec.path@ == path_components(rel)
    &&& rec.kind == (if e.is_directory {
        AssetKind::Folder
    } else {
        kind_for_optional_extension(path_extension(rel))
    })
    &&& rec.source_path matches Some(p) && p@ == e.path@
    &&& (match (rec.extension, lower_extension(e.path@)) {
        (Some(x), Some(y)) => x@ == y,
        (None, None) => true,
        _ => false,
    })
    &&& match e.metadata {
        Ok(f) => {
            &&& rec.file_size == (if e.is_directory {
                None
            } else {
                Some(f.file_size)
            })
            &&& rec.modified_time == f.modified_time
            &&& rec.diagnostics@.len() == 0
        },
        Err(m) => {
            &&& rec.file_size is None
            &&& rec.modified_time is None
            &&& rec.diagnostics@.len() == 1
            &&& diagnostic_is(
                rec.diagnostics@[0],
                Severity::Warning,
                "metadata"@,
                "Failed to read metadata for "@ + e.path@ + ": "@ + m@,
            )
        },
    }
}

/// What visiting an entry does: adds its record, or, where no record can
/// be made of its path, a diagnostic saying why.
pub open spec fn visited(before: ScannerView, after: ScannerView, e: ScannedEntry) -> bool {
    let rel = relative_path_text(before.project_root, e.path@);
    &&& after.project_root == before.project_root
    &&& after.root == before.root
    &&& if rel.len() == 0 || all_whitespace(record_name_source(rel)) {
        let err = if rel.len() == 0 {
            AssetError::EmptyAssetPath
        } else {
            AssetError::EmptyAssetName
        };
        &&& after.records == before.records
        &&& after.diagnostics.len() == before.diagnostics.len() + 1
        &&& after.diagnostics.take(before.diagnostics.len() as int) == before.diagnostics
        &&& diagnostic_is(after.diagnostics.last(), Severity::Warning, "record"@, asset_error_text(err))
    } else {
        &&& after.diagnostics == before.diagnostics
        &&& after.records.len() == before.records.len() + 1
        &&& after.records.take(before.records.len() as int) == before.records
        &&& record_fits_entry(after.records.last(), rel, e)
    }
}

/// Every record's identifier is the stable identifier of its path: it
/// depends on nothing but the path, so scanning the same paths again gives
/// the same identifiers.
pub open spec fn ids_follow_paths(records: Seq<AssetRecord>) -> bool {
    forall|i: int|
        0 <= i < records.len() ==> #[trigger] records[i].id@ == path_asset_id(
            path_text(records[i].path@),
        )
}

/// Whether components name a hidden entry: one whose name begins with `.`.
pub open spec fn hidden_name(components: Seq<Seq<char>>) -> bool {
    match file_name(components) {
        Some(n) => n.len() > 0 && n[0] == '.',
        None => false,
    }
}

/// No record is of a hidden entry.
pub open spec fn no_hidden_records(records: Seq<AssetRecord>) -> bool {
    forall|i: int| 0 <= i < records.len() ==> !hidden_name(#[trigger] records[i].path@)
}

/// The record made of an entry that is not hidden is not of a hidden entry:
/// its path relative to the project ends with the entry's own name.
proof fn lemma_visit_keeps_unhidden(before: ScannerView, after: ScannerView, e: ScannedEntry)
    requires
        no_hidden_records(before.records),
        visited(before, after, e),
        !skipped_path(e.path@),
    ensures
        no_hidden_records(after.records),
{
    let rel = relative_path_text(before.project_root, e.path@);
    if !(rel.len() == 0 || all_whitespace(record_name_source(rel))) {
        let pc = path_components(before.project_root);
        let qc = path_components(e.path@);
        if is_absolute_text(before.project_root) == is_absolute_text(e.path@) && pc.len() <= qc.len()
            && qc.take(pc.len() as int) == pc {
            lemma_components_of_suffix(e.path@, pc.len() as int);
            let t = qc.skip(pc.len() as int);
            if t.len() == 0 {
                assert(path_text(t) =~= Seq::<char>::empty());
            } else {
                assert(t.last() == qc.last());
            }
        }
        assert forall|i: int| 0 <= i < after.records.len() implies !hidden_name(
            #[trigger] after.records[i].path@,
        ) by {
            if i < before.records.len() {
                assert(after.records[i] == after.records.take(before.records.len() as int)[i]);
            }
        }
    }
}

proof fn lemma_visit_keeps_ids(before: ScannerView, after: ScannerView, e: ScannedEntry)
    requires
        ids_follow_paths(before.records),
        visited(before, after, e),
    ensures
        ids_follow_paths(after.records),
{
    let rel = relative_path_text(before.project_root, e.path@);
    if !(rel.len() == 0 || all_whitespace(record_name_source(rel))) {
        law_normalized_path_is_stable(rel);
        assert forall|i: int| 0 <= i < after.records.len() implies #[trigger] after.records[i].id@
            == path_asset_id(path_text(after.records[i].path@)) by {
            if i < before.records.len() {
                assert(after.records[i] == after.records.take(before.records.len() as int)[i]);
            }
        }
    }
}

/// Sorting records keeps what holds of each of them.
proof fn lemma_sort_keeps_records(records: Seq<AssetRecord>)
    ensures
        ids_follow_paths(records) ==> ids_follow_paths(sort_by_key(records, record_path_key())),
        no_hidden_records(records) ==> no_hidden_records(sort_by_key(records, record_path_key())),
{
    broadcast use vstd::seq_lib::group_to_multiset_ensures;

    let sorted = sort_by_key(records, record_path_key());
    lemma_sort_by_key(records, record_path_key());
    assert forall|i: int| 0 <= i < sorted.len() implies records.contains(#[trigger] sorted[i]) by {
        assert(sorted.contains(sorted[i]));
        assert(sorted.to_multiset().count(sorted[i]) > 0);
        assert(records.to_multiset().count(sorted[i]) > 0);
    }
    if ids_follow_paths(records) {
        assert forall|i: int| 0 <= i < sorted.len() implies #[trigger] sorted[i].id@ == path_asset_id(
            path_text(sorted[i].path@),
        ) by {
            assert(records.contains(sorted[i]));
            let j = choose|j: int| 0 <= j < records.len() && records[j] == sorted[i];
            assert(records[j].id@ == path_asset_id(path_text(records[j].path@)));
        }
    }
    if no_hidden_records(records) {
        assert forall|i: int| 0 <= i < sorted.len() implies !hidden_name(#[trigger] sorted[i].path@) by {
            assert(records.contains(sorted[i]));
            let j = choose|j: int| 0 <= j < records.len() && records[j] == sorted[i];
            assert(!hidden_name(records[j].path@));
        }
    }
}

/// One step of a scan as far as its records go: they stay as they were, or
/// an entry that is not hidden is visited.
pub open spec fn scanner_step(before: ScannerView, after: ScannerView) -> bool {
    &&& after.project_root == before.project_root
    &&& after.root == before.root
    &&& (after.records == before.records || exists|e: ScannedEntry| #[trigger] visited_unhidden(before, after, e))
}

/// `after` is `before` with the entry `e`, which is not hidden, visited.
pub open spec fn visited_unhidden(before: ScannerView, after: ScannerView, e: ScannedEntry) -> bool {
    !skipped_path(e.path@) && visited(before, after, e)
}

/// Whatever the directories held, a scan that started with no records and
/// went step by step ends with records whose identifiers are the stable
/// identifiers of their paths and none of which is of a hidden entry; its
/// index, sorted by path, keeps both.
pub proof fn law_scan_walk(views: Seq<ScannerView>)
    requires
        views.len() > 0,
        views[0].records.len() == 0,
        forall|i: int| 0 <= i < views.len() - 1 ==> scanner_step(#[trigger] views[i], views[i + 1]),
    ensures
        ids_follow_paths(views.last().records),
        no_hidden_records(views.last().records),
        sorted_by_key(sort_by_key(views.last().records, record_path_key()), record_path_key()),
        ids_follow_paths(sort_by_key(views.last().records, record_path_key())),
        no_hidden_records(sort_by_key(views.last().records, record_path_key())),
    decreases views.len(),
{
    if views.len() > 1 {
        let init = views.drop_last();
        assert forall|i: int| 0 <= i < init.len() - 1 implies scanner_step(#[trigger] init[i], init[i + 1]) by {
            assert(init[i] == views[i] && init[i + 1] == views[i + 1]);
        }
        law_scan_walk(init);
        let b = views[views.len() - 2];
        let a = views.last();
        assert(init.last() == b);
        assert(scanner_step(b, a));
        if a.records != b.records {
            let e = choose|e: ScannedEntry| #[trigger] visited_unhidden(b, a, e);
            lemma_visit_keeps_ids(b, a, e);
            lemma_visit_keeps_unhidden(b, a, e);
        }
    }
    lemma_sort_by_key(views.last().records, record_path_key());
    lemma_sort_keeps_records(views.last().records);
}

/// Two scans agree on identifiers: records of the same path, in scans whose
/// identifiers follow their paths (as every scan's do), have the same
/// identifier.
pub proof fn law_scans_agree_on_ids(a: Seq<AssetRecord>, b: Seq<AssetRecord>)
    requires
        ids_follow_paths(a),
        ids_follow_paths(b),
    ensures
        forall|i: int, j: int|
            0 <= i < a.len() && 0 <= j < b.len() && #[trigger] a[i].path@ == #[trigger] b[j].path@
                ==> a[i].id@ == b[j].id@,
{
}

/// The scan of one asset root, driven step by step.
pub struct AssetScanner {
    request: AssetScanRequest,
    project_root: String,
    root: String,
    frames: Vec<Vec<ScannedEntry>>,
    records: Vec<AssetRecord>,
    diagnostics: Vec<AssetDiagnostic>,
    pending: Option<String>,
}

impl View for AssetScanner {
    type V = ScannerView;

    closed spec fn view(&self) -> ScannerView {
        ScannerView {
            project_root: self.project_root@,
            root: self.root@,
            frames: self.frames@.map_values(|f: Vec<ScannedEntry>| f@),
            records: self.records@,
            diagnostics: self.diagnostics@,
            pending: match self.pending {
                Some(p) => Some(p@),
                None => None,
            },
        }
    }
}

pub fn project_relative_path(project_root: &str, path: &str) -> (r: String)
    ensures
        r@ == relative_path_text(project_root@, path@),
{
    let pc = path_components_of(project_root);
    let qc = path_components_of(path);
    let ghost pv = pc@.map_values(|c: String| c@);
    let ghost qv = qc@.map_values(|c: String| c@);
    if is_absolute_str(project_root) != is_absolute_str(path) || pc.len() > qc.len() {
        return path.to_owned();
    }
    let mut i: usize = 0;
    while i < pc.len()
        invariant
            pc.len() <= qc.len(),
            i <= pc.len(),
            pv == pc@.map_values(|c: String| c@),
            qv == qc@.map_values(|c: String| c@),
            pv == path_components(project_root@),
            qv == path_components(path@),
            is_absolute_text(project_root@) == is_absolute_text(path@),
            forall|j: int| 0 <= j < i ==> pv[j] == qv[j],
        decreases pc.len() - i,
    {
        if !crate::text::str_eq(pc[i].as_str(), qc[i].as_str()) {
            proof {
                assert(pv[i as int] == pc@[i as int]@);
                assert(qv[i as int] == qc@[i as int]@);
                assert(qv.take(pv.len() as int)[i as int] == qv[i as int]);
                assert(qv.take(pv.len() as int) != pv);
            }
            return path.to_owned();
        }
        i = i + 1;
    }
    assert(qv.take(pv.len() as int) =~= pv);
    let mut rest: Vec<String> = Vec::new();
    let mut j: usize = pc.len();
    assert(qv.skip(pc.len() as int).take(0) =~= Seq::<Seq<char>>::empty());
    while j < qc.len()
        invariant
            pc.len() <= j <= qc.len(),
            qv == qc@.map_values(|c: String| c@),
            pv.len() == pc.len(),
            rest@.map_values(|c: String| c@) == qv.skip(pc.len() as int).take(j - pc.len()),
        decreases qc.len() - j,
    {
        let ghost before = rest@;
        let c = qc[j].clone();
        rest.push(c);
        proof {
            assert(rest@.map_values(|c: String| c@) =~= before.map_values(|c: String| c@).push(
                qv[j as int],
            ));
            assert(qv.skip(pc.len() as int).take(j + 1 - pc.len()) =~= qv.skip(
                pc.len() as int,
            ).take(j - pc.len()).push(qv[j as int]));
        }
        j = j + 1;
    }
    assert(qv.skip(pc.len() as int).take(qc.len() - pc.len()) =~= qv.skip(pc.len() as int));
    crate::text::join_strings(&rest, "/")
}

/// Whether the scan leaves `path` out: its name begins with `.`.
pub fn should_skip_path(path: &str) -> (r: bool)
    ensures
        r == skipped_path(path@),
{
    let components = path_components_of(path);
    let n = components.len();
    proof {
        assert(components@.map_values(|c: String| c@).len() == n);
    }
    if n == 0 {
        return false;
    }
    let last = &components[n - 1];
    assert(last@ == path_components(path@).last());
    if crate::text::str_eq(last.as_str(), "..") {
        return false;
    }
    last.as_str().unicode_len() > 0 && last.as_str().get_char(0) == '.'
}

fn extension_for_path(path: &str) -> (r: Option<String>)
    ensures
        r matches Some(x) ==> lower_extension(path@) == Some(x@),
        r is None ==> lower_extension(path@) is None,
{
    match extension_of(path) {
        Some(e) => Some(ascii_lowercase_str(e.as_str())),
        None => None,
    }
}

impl AssetScanner {
    pub fn new(request: AssetScanRequest) -> (r: Self)
        ensures
            r.request() == request,
            r@ == ScannerView::initial(request.root_view()),
            ids_follow_paths(r@.records),
            no_hidden_records(r@.records),
    {
        let project_root = request.root().project_root().to_owned();
        let root = request.root().asset_root().to_owned();
        let scanner = AssetScanner {
            request,
            project_root,
            root,
            frames: Vec::new(),
            records: Vec::new(),
            diagnostics: Vec::new(),
            pending: None,
        };
        assert(scanner@.frames =~= Seq::<Seq<ScannedEntry>>::empty());
        assert(scanner@.records =~= Seq::<AssetRecord>::empty());
        assert(scanner@.diagnostics =~= Seq::<AssetDiagnostic>::empty());
        scanner
    }

    pub closed spec fn request(&self) -> AssetScanRequest {
        self.request
    }

    /// Starts from what is known of the root: a missing root or one that is
    /// not a directory ends the scan with a diagnostic; a directory is read
    /// first.
    pub fn start(&mut self, state: AssetRootState) -> (r: ScanStep)
        ensures
            scanner_step(old(self)@, final(self)@),
            final(self).request() == old(self).request(),
            final(self)@.project_root == old(self)@.project_root,
            final(self)@.root == old(self)@.root,
            final(self)@.frames == old(self)@.frames,
            final(self)@.records == old(self)@.records,
            state == AssetRootState::Missing ==> r == ScanStep::Finished && final(self)@.pending
                == old(self)@.pending && final(self)@.diagnostics.len()
                == old(self)@.diagnostics.len() + 1 && final(self)@.diagnostics.drop_last()
                == old(self)@.diagnostics && diagnostic_is(
                final(self)@.diagnostics.last(),
                Severity::Warning,
                "root"@,
                "Asset root does not exist: "@ + old(self)@.root,
            ),
            state == AssetRootState::NotDirectory ==> r == ScanStep::Finished && final(self)@.pending == old(self)@.pending && final(self)@.diagnostics.len()
                == old(self)@.diagnostics.len() + 1 && final(self)@.diagnostics.drop_last()
                == old(self)@.diagnostics && diagnostic_is(
                final(self)@.diagnostics.last(),
                Severity::Error,
                "root"@,
                "Asset root is not a directory: "@ + old(self)@.root,
            ),
            state == AssetRootState::Directory ==> (r matches ScanStep::ReadDirectory(d) && d@
                == old(self)@.root) && final(self)@.pending == Some(old(self)@.root)
                && final(self)@.diagnostics == old(self)@.diagnostics,
    {
        match state {
            AssetRootState::Missing => {
                let message = concat2("Asset root does not exist: ", self.root.as_str());
                self.diagnostics.push(AssetDiagnostic::warning("root", message.as_str()));
                ScanStep::Finished
            },
            AssetRootState::NotDirectory => {
                let message = concat2("Asset root is not a directory: ", self.root.as_str());
                self.diagnostics.push(AssetDiagnostic::error("root", message.as_str()));
                ScanStep::Finished
            },
            AssetRootState::Directory => {
                self.pending = Some(self.root.clone());
                ScanStep::ReadDirectory(self.root.clone())
            },
        }
    }

    /// Takes the listing of the directory the scanner waits for: a failed
    /// read is reported, each failed entry is reported, and the entries read
    /// are walked next, in path order. Without such a directory the listing
    /// is ignored.
    pub fn on_listing(&mut self, listing: DirectoryListing) -> (r: ScanStep)
        ensures
            scanner_step(old(self)@, final(self)@),
            r == ScanStep::Continue,
            final(self).request() == old(self).request(),
            final(self)@.project_root == old(self)@.project_root,
            final(self)@.root == old(self)@.root,
            final(self)@.records == old(self)@.records,
            final(self)@.pending is None,
            old(self)@.pending is None ==> final(self)@ == old(self)@,
            old(self)@.pending matches Some(dir) ==> match listing {
                DirectoryListing::Failed(m) => {
                    &&& final(self)@.frames == old(self)@.frames
                    &&& final(self)@.diagnostics.len() == old(self)@.diagnostics.len() + 1
                    &&& final(self)@.diagnostics.drop_last() == old(self)@.diagnostics
                    &&& diagnostic_is(
                        final(self)@.diagnostics.last(),
                        Severity::Warning,
                        "scan"@,
                        "Failed to read "@ + dir + ": "@ + m@,
                    )
                },
                DirectoryListing::Read(entries) => {
                    &&& final(self)@.frames == old(self)@.frames.push(
                        sort_by_key(read_entries(entries@), entry_path_key()),
                    )
                    &&& final(self)@.diagnostics.take(old(self)@.diagnostics.len() as int)
                        == old(self)@.diagnostics
                    &&& final(self)@.diagnostics.len() == old(self)@.diagnostics.len()
                        + entry_errors(entries@).len()
                    &&& forall|j: int|
                        0 <= j < entry_errors(entries@).len() ==> diagnostic_is(
                            #[trigger] final(self)@.diagnostics[old(self)@.diagnostics.len() + j],
                            Severity::Warning,
                            "scan"@,
                            "Failed to read entry in "@ + dir + ": "@ + entry_errors(entries@)[j],
                        )
                },
            },
    {
        let dir = match self.pending.take() {
            Some(d) => d,
            None => {
                return ScanStep::Continue;
            },
        };
        match listing {
            DirectoryListing::Failed(m) => {
                let message = concat3("Failed to read ", dir.as_str(), ": ");
                let message = concat2(message.as_str(), m.as_str());
                self.diagnostics.push(AssetDiagnostic::warning("scan", message.as_str()));
            },
            DirectoryListing::Read(entries) => {
                let ghost key = entry_path_key();
                let ghost input = entries@;
                let ghost start = self.diagnostics@;
                let ghost s0 = *self;
                let mut rest = entries;
                let mut frame: Vec<ScannedEntry> = Vec::new();
                let n = rest.len();
                let mut i: usize = 0;
                assert(input.take(0) =~= Seq::<Result<ScannedEntry, String>>::empty());
                while i < n
                    invariant
                        n == input.len(),
                        i <= n,
                        rest@ == input.skip(i as int),
                        key == entry_path_key(),
                        frame@ == sort_by_key(read_entries(input.take(i as int)), key),
                        self.diagnostics@.take(start.len() as int) == start,
                        self.diagnostics@.len() == start.len() + entry_errors(
                            input.take(i as int),
                        ).len(),
                        forall|j: int|
                            0 <= j < entry_errors(input.take(i as int)).len() ==> diagnostic_is(
                                #[trigger] self.diagnostics@[start.len() + j],
                                Severity::Warning,
                                "scan"@,
                                "Failed to read entry in "@ + dir@ + ": "@ + entry_errors(
                                    input.take(i as int),
                                )[j],
                            ),
                        self.pending is None,
                        self.request == s0.request,
                        self.project_root == s0.project_root,
                        self.root == s0.root,
                        self.frames == s0.frames,
                        self.records == s0.records,
                    decreases n - i,
                {
                    let item = rest.remove(0);
                    proof {
                        assert(input.take(i + 1).drop_last() =~= input.take(i as int));
                        assert(input.take(i + 1).last() == input[i as int]);
                        assert(input.skip(i as int).remove(0) =~= input.skip(i + 1));
                    }
                    match item {
                        Ok(entry) => {
                            proof {
                                assert(read_entries(input.take(i + 1)).drop_last() =~= read_entries(
                                    input.take(i as int),
                                ));
                                assert(entry_errors(input.take(i + 1)) =~= entry_errors(
                                    input.take(i as int),
                                ));
                            }
                            insert_entry(&mut frame, entry);
                        },
                        Err(m) => {
                            assert(read_entries(input.take(i + 1)) =~= read_entries(
                                input.take(i as int),
                            ));
                            let ghost before = self.diagnostics@;
                            let message = concat3("Failed to read entry in ", dir.as_str(), ": ");
                            let message = concat2(message.as_str(), m.as_str());
                            self.diagnostics.push(
                                AssetDiagnostic::warning("scan", message.as_str()),
                            );
                            proof {
                                assert(self.diagnostics@.take(start.len() as int) =~= start) by {
                                    assert(self.diagnostics@.take(start.len() as int)
                                        =~= before.take(start.len() as int));
                                }
                                assert forall|j: int|
                                    0 <= j < entry_errors(input.take(i + 1)).len() implies diagnostic_is(
                                    #[trigger] self.diagnostics@[start.len() + j],
                                    Severity::Warning,
                                    "scan"@,
                                    "Failed to read entry in "@ + dir@ + ": "@ + entry_errors(
                                        input.take(i + 1),
                                    )[j],
                                ) by {
                                    if j < entry_errors(input.take(i as int)).len() {
                                        assert(self.diagnostics@[start.len() + j]
                                            == before[start.len() + j]);
                                    }
                                }
                            }
                        },
                    }
                    i = i + 1;
                }
                assert(input.take(n as int) =~= input);
                let ghost frames_before = self.frames@;
                self.frames.push(frame);
                proof {
                    assert(self.frames@.map_values(|f: Vec<ScannedEntry>| f@) =~= frames_before.map_values(
                        |f: Vec<ScannedEntry>| f@,
                    ).push(sort_by_key(read_entries(input), key)));
                }
            },
        }
        ScanStep::Continue
    }

    /// One step of the walk. While a listing is awaited it asks for it
    /// again; when every directory is done the scan is finished; an emptied
    /// directory is closed; otherwise its next entry is taken: skipped when
    /// hidden, else made a record, and a directory is read next.
    pub fn advance(&mut self) -> (r: ScanStep)
        ensures
            scanner_step(old(self)@, final(self)@),
            final(self).request() == old(self).request(),
            final(self)@.project_root == old(self)@.project_root,
            final(self)@.root == old(self)@.root,
            ids_follow_paths(old(self)@.records) ==> ids_follow_paths(final(self)@.records),
            no_hidden_records(old(self)@.records) ==> no_hidden_records(final(self)@.records),
            old(self)@.pending is Some ==> (r matches ScanStep::ReadDirectory(d) && old(self)@.pending == Some(d@)) && final(self)@ == old(self)@,
            old(self)@.pending is None && old(self)@.frames.len() == 0 ==> r == ScanStep::Finished
                && final(self)@ == old(self)@,
            old(self)@.pending is None && old(self)@.frames.len() > 0
                && old(self)@.frames.last().len() == 0 ==> r == ScanStep::Continue && final(self)@.frames == old(self)@.frames.drop_last() && final(self)@.records == old(self)@.records && final(self)@.diagnostics == old(self)@.diagnostics && final(self)@.pending is None,
            old(self)@.pending is None && old(self)@.frames.len() > 0
                && old(self)@.frames.last().len() > 0 ==> ({
                let e = old(self)@.frames.last()[0];
                let frames = old(self)@.frames.update(
                    old(self)@.frames.len() - 1,
                    old(self)@.frames.last().drop_first(),
                );
                &&& final(self)@.frames == frames
                &&& skipped_path(e.path@) ==> r == ScanStep::Continue && final(self)@.records == old(self)@.records && final(self)@.diagnostics == old(self)@.diagnostics && final(self)@.pending is None
                &&& !skipped_path(e.path@) ==> visited(old(self)@, final(self)@, e)
                &&& !skipped_path(e.path@) && e.is_directory ==> (r matches ScanStep::ReadDirectory(
                    d,
                ) && d@ == e.path@) && final(self)@.pending == Some(e.path@)
                &&& !skipped_path(e.path@) && !e.is_directory ==> r == ScanStep::Continue && final(self)@.pending is None
            }),
    {
        match &self.pending {
            Some(p) => {
                return ScanStep::ReadDirectory(p.clone());
            },
            None => {},
        }
        let depth = self.frames.len();
        if depth == 0 {
            return ScanStep::Finished;
        }
        let ghost frames_before = self.frames@;
        let mut top = self.frames.pop().unwrap();
        proof {
            assert(self.frames@ =~= frames_before.drop_last());
            assert(top@ == old(self)@.frames.last());
        }
        if top.len() == 0 {
            proof {
                assert(self.frames@.map_values(|f: Vec<ScannedEntry>| f@) =~= old(self)@.frames.drop_last());
            }
            return ScanStep::Continue;
        }
        let entry = top.remove(0);
        let ghost rest = top@;
        self.frames.push(top);
        proof {
            assert(self.frames@.map_values(|f: Vec<ScannedEntry>| f@) =~= old(self)@.frames.update(
                old(self)@.frames.len() - 1,
                old(self)@.frames.last().drop_first(),
            ));
        }
        if should_skip_path(entry.path.as_str()) {
            return ScanStep::Continue;
        }
        let is_directory = entry.is_directory;
        let path = entry.path.clone();
        let ghost e = entry;
        let ghost mid = self@;
        self.visit(entry);
        proof {
            if ids_follow_paths(old(self)@.records) {
                assert(mid.records == old(self)@.records);
                lemma_visit_keeps_ids(mid, self@, e);
            }
            if no_hidden_records(old(self)@.records) {
                assert(mid.records == old(self)@.records);
                lemma_visit_keeps_unhidden(mid, self@, e);
            }
            assert(visited_unhidden(old(self)@, self@, e));
        }
        if is_directory {
            self.pending = Some(path.clone());
            assert(visited_unhidden(old(self)@, self@, e));
            ScanStep::ReadDirectory(path)
        } else {
            ScanStep::Continue
        }
    }

    /// Makes the record of an entry, or reports why none can be made.
    fn visit(&mut self, e: ScannedEntry)
        requires
            old(self)@.pending is None,
        ensures
            visited(old(self)@, final(self)@, e),
            final(self)@.frames == old(self)@.frames,
            final(self)@.pending is None,
            final(self).request() == old(self).request(),
    {
        let relative = project_relative_path(self.project_root.as_str(), e.path.as_str());
        let id = stable_asset_id_from_path(relative.as_str());
        let kind = detect_kind_from_path(relative.as_str(), e.is_directory);
        let mut diagnostics: Vec<AssetDiagnostic> = Vec::new();
        let (file_size, modified_time) = match &e.metadata {
            Ok(f) => {
                let size = if e.is_directory {
                    None
                } else {
                    Some(f.file_size)
                };
                (size, f.modified_time)
            },
            Err(m) => {
                let message = concat3("Failed to read metadata for ", e.path.as_str(), ": ");
                let message = concat2(message.as_str(), m.as_str());
                diagnostics.push(AssetDiagnostic::warning("metadata", message.as_str()));
                (None, None)
            },
        };
        let metadata = AssetMetadata::empty().with_source_path(e.path.as_str()).with_extension(
            extension_for_path(e.path.as_str()),
        ).with_file_size(file_size).with_modified_time(modified_time).with_diagnostics(
            diagnostics,
        );
        match AssetRecord::new(id, relative.as_str(), kind) {
            Ok(record) => {
                let ghost before = self.records@;
                self.records.push(record.with_metadata(metadata));
                assert(self.records@.take(before.len() as int) =~= before);
            },
            Err(err) => {
                let ghost before = self.diagnostics@;
                let message = err.message();
                self.diagnostics.push(AssetDiagnostic::warning("record", message.as_str()));
                assert(self.diagnostics@.take(before.len() as int) =~= before);
            },
        }
    }

    /// The scan as it stands: its records indexed by path, with its
    /// diagnostics.
    pub fn into_scan(self) -> (r: AssetScan)
        ensures
            r.root matches Some(p) && p@ == self@.root,
            r.request == Some(self.request()),
            r.index@ == sort_by_key(self@.records, crate::asset_index::record_path_key()),
            r.diagnostics@ == self@.diagnostics,
            sorted_by_key(r.index@, crate::asset_index::record_path_key()),
            ids_follow_paths(self@.records) ==> ids_follow_paths(r.index@),
            no_hidden_records(self@.records) ==> no_hidden_records(r.index@),
    {
        proof {
            lemma_sort_keeps_records(self@.records);
        }
        AssetScan {
            root: Some(self.root),
            request: Some(self.request),
            index: AssetIndex::from_records(self.records),
            diagnostics: self.diagnostics,
        }
    }
}

/// The entries of a listing that were read, in listing order.
pub open spec fn read_entries(items: Seq<Result<ScannedEntry, String>>) -> Seq<ScannedEntry>
    decreases items.len(),
{
    if items.len() == 0 {
        Seq::empty()
    } else {
        let before = read_entries(items.drop_last());
        match items.last() {
            Ok(e) => before.push(e),
            Err(_) => before,
        }
    }
}

/// The error texts of the entries of a listing that failed, in listing
/// order.
pub open spec fn entry_errors(items: Seq<Result<ScannedEntry, String>>) -> Seq<Seq<char>>
    decreases items.len(),
{
    if items.len() == 0 {
        Seq::empty()
    } else {
        let before = entry_errors(items.drop_last());
        match items.last() {
            Ok(_) => before,
            Err(m) => before.push(m@),
        }
    }
}

fn insert_entry(entries: &mut Vec<ScannedEntry>, entry: ScannedEntry)
    ensures
        final(entries)@ == insert_by_key(old(entries)@, entry, entry_path_key()),
{
    let ghost key = entry_path_key();
    let n = entries.len();
    let target = path_components_of(entry.path.as_str());
    let mut k: usize = 0;
    while k < n
        invariant
            n == entries@.len(),
            k <= n,
            entries@ == old(entries)@,
            key == entry_path_key(),
            target@.map_values(|c: String| c@) == path_components(entry.path@),
            forall|i: int| 0 <= i < k ==> crate::assets::path_compare(
                key(entries@[i]),
                key(entry),
            ) <= 0,
        ensures
            k <= n,
            entries@ == old(entries)@,
            forall|i: int| 0 <= i < k ==> crate::assets::path_compare(
                key(entries@[i]),
                key(entry),
            ) <= 0,
            k == n || crate::assets::path_compare(key(entries@[k as int]), key(entry)) > 0,
        decreases n - k,
    {
        let here = path_components_of(entries[k].path.as_str());
        let c = crate::assets::compare_component_lists(&here, &target);
        if c > 0 {
            break;
        }
        k = k + 1;
    }
    proof {
        lemma_insert_at(entries@, entry, key, k as int);
    }
    entries.insert(k, entry);
}

/// Keeps a selection only while the scanned index still holds the selected
/// asset.
pub fn apply_selection_after_scan(scan: &AssetScan, selection: &mut AssetSelection)
    ensures
        (old(selection)@ matches Some(id) && exists|i: int|
            0 <= i < scan.index@.len() && scan.index@[i].id@ == id@) ==> final(selection)@ == old(selection)@,
        !(old(selection)@ matches Some(id) && exists|i: int|
            0 <= i < scan.index@.len() && scan.index@[i].id@ == id@) ==> final(selection)@ is None,
{
    match selection.selected() {
        Some(id) => {
            if scan.index.find(id).is_some() {
                return;
            }
        },
        None => {},
    }
    selection.clear();
}

} // verus!
