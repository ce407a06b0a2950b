//! The asset index, kept ordered by path, its per-kind counts, and the
//! selection of one asset in it.
use crate::asset_record::AssetRecord;
use crate::assets::{asset_kind_label, compare_paths, AssetId, AssetKind};
use crate::path_sort::{
    insert_by_key, lemma_insert_at, lemma_insert_contents, lemma_insert_sorted, sort_by_key,
    sorted_by_key,
};
use crate::text::{decimal, join_seq, join_strings, u64_to_text};
use vstd::prelude::*;

verus! {

/// The key by which the index orders its records: their path.
pub open spec fn record_path_key() -> spec_fn(AssetRecord) -> Seq<Seq<char>> {
    |r: AssetRecord| r.path@
}

/// Inserts `record` after every leading record whose path is not above its
/// own.
fn insert_record(records: &mut Vec<AssetRecord>, record: AssetRecord)
    ensures
        final(records)@ == insert_by_key(old(records)@, record, record_path_key()),
        sorted_by_key(old(records)@, record_path_key()) ==> sorted_by_key(
            final(records)@,
            record_path_key(),
        ),
{
    let ghost key = record_path_key();
    let n = records.len();
    let mut k: usize = 0;
    while k < n
        invariant
            n == records@.len(),
            k <= n,
            records@ == old(records)@,
            key == record_path_key(),
            forall|i: int| 0 <= i < k ==> crate::assets::path_compare(
                key(records@[i]),
                key(record),
            ) <= 0,
        ensures
            k <= n,
            records@ == old(records)@,
            forall|i: int| 0 <= i < k ==> crate::assets::path_compare(
                key(records@[i]),
                key(record),
            ) <= 0,
            k == n || crate::assets::path_compare(key(records@[k as int]), key(record)) > 0,
        decreases n - k,
    {
        let c = compare_paths(&records[k].path, &record.path);
        if c > 0 {
            break;
        }
        k = k + 1;
    }
    proof {
        lemma_insert_at(records@, record, key, k as int);
        if sorted_by_key(records@, key) {
            lemma_insert_sorted(records@, record, key);
        }
    }
    records.insert(k, record);
}

/// The project's assets, ordered by path; records with equal paths keep the
/// order in which they came.
#[derive(Debug, Clone, PartialEq, Eq)]
pub struct AssetIndex {
    records: Vec<AssetRecord>,
}

impl View for AssetIndex {
    type V = Seq<AssetRecord>;

    closed spec fn view(&self) -> Seq<AssetRecord> {
        self.records@
    }
}

/// The first position holding a record with the identifier `id`.
pub open spec fn first_with_id(s: Seq<AssetRecord>, id: u64, i: int) -> bool {
    &&& 0 <= i < s.len()
    &&& s[i].id@ == id
    &&& forall|j: int| 0 <= j < i ==> s[j].id@ != id
}

impl AssetIndex {
    pub fn new() -> (r: Self)
        ensures
            r@ == Seq::<AssetRecord>::empty(),
            sorted_by_key(r@, record_path_key()),
    {
        AssetIndex { records: Vec::new() }
    }

    /// The index of `records`, stably sorted by path.
    pub fn from_records(records: Vec<AssetRecord>) -> (r: Self)
        ensures
            r@ == sort_by_key(records@, record_path_key()),
            sorted_by_key(r@, record_path_key()),
    {
        let ghost key = record_path_key();
        let ghost input = records@;
        let mut rest = records;
        let mut out: Vec<AssetRecord> = Vec::new();
        let mut i: usize = 0;
        let n = rest.len();
        assert(input.take(0) =~= Seq::<AssetRecord>::empty());
        while i < n
            invariant
                n == input.len(),
                i <= n,
                rest@ == input.skip(i as int),
                out@ == sort_by_key(input.take(i as int), key),
                sorted_by_key(out@, key),
                key == record_path_key(),
            decreases n - i,
        {
            let record = rest.remove(0);
            assert(record == input[i as int]);
            assert(input.take(i + 1).drop_last() =~= input.take(i as int));
            assert(input.take(i + 1).last() == input[i as int]);
            insert_record(&mut out, record);
            assert(input.skip(i as int).remove(0) =~= input.skip(i + 1));
            i = i + 1;
        }
        assert(input.take(n as int) =~= input);
        AssetIndex { records: out }
    }

    /// Adds a record after every record whose path is not above its own.
    pub fn insert(&mut self, record: AssetRecord)
        ensures
            final(self)@ == insert_by_key(old(self)@, record, record_path_key()),
            sorted_by_key(old(self)@, record_path_key()) ==> sorted_by_key(
                final(self)@,
                record_path_key(),
            ),
            sorted_by_key(old(self)@, record_path_key()) ==> final(self)@ == sort_by_key(
                old(self)@.push(record),
                record_path_key(),
            ),
    {
        proof {
            if sorted_by_key(self@, record_path_key()) {
                crate::path_sort::law_insert_is_stable_sort(self@, record, record_path_key());
            }
        }
        insert_record(&mut self.records, record);
    }

    /// The records, ordered by path.
    pub fn records(&self) -> (r: &[AssetRecord])
        ensures
            r@ == self@,
    {
        self.records.as_slice()
    }

    pub fn len(&self) -> (r: usize)
        ensures
            r == self@.len(),
    {
        self.records.len()
    }

    pub fn is_empty(&self) -> (r: bool)
        ensures
            r == (self@.len() == 0),
    {
        self.records.len() == 0
    }

    /// The record with the lowest path, if any.
    pub fn first(&self) -> (r: Option<&AssetRecord>)
        ensures
            self@.len() == 0 ==> r is None,
            self@.len() > 0 ==> r == Some(&self@[0]),
    {
        if self.records.len() == 0 {
            None
        } else {
            Some(&self.records[0])
        }
    }

    /// The first record with the identifier `id`, if any.
    pub fn find(&self, id: AssetId) -> (r: Option<&AssetRecord>)
        ensures
            r is None <==> forall|i: int| 0 <= i < self@.len() ==> self@[i].id@ != id@,
            r matches Some(rec) ==> exists|i: int| first_with_id(self@, id@, i) && self@[i] == *rec,
    {
        let n = self.records.len();
        let mut i: usize = 0;
        while i < n
            invariant
                n == self@.len(),
                i <= n,
                forall|j: int| 0 <= j < i ==> self@[j].id@ != id@,
            decreases n - i,
        {
            if self.records[i].id.get() == id.get() {
                assert(first_with_id(self@, id@, i as int));
                return Some(&self.records[i]);
            }
            i = i + 1;
        }
        None
    }

    /// How many records there are of each kind.
    pub fn kind_counts(&self) -> (r: AssetKindCounts)
        ensures
            forall|k: AssetKind| #[trigger] r.count(k) == kind_count(self@, k),
    {
        let mut counts: Vec<usize> = vec![0, 0, 0, 0, 0, 0, 0, 0, 0];
        let n = self.records.len();
        let mut i: usize = 0;
        assert(self@.take(0) =~= Seq::<AssetRecord>::empty());
        while i < n
            invariant
                n == self@.len(),
                i <= n,
                counts@.len() == 9,
                forall|k: AssetKind| #[trigger]
                    counts@[kind_rank(k)] == kind_count(self@.take(i as int), k),
            decreases n - i,
        {
            let kind = self.records[i].kind;
            let slot = kind_rank_of(kind);
            proof {
                assert(self@.take(i + 1).drop_last() =~= self@.take(i as int));
                lemma_kind_count_bound(self@.take(i as int), kind);
            }
            let c = counts[slot];
            counts.set(slot, c + 1);
            proof {
                assert forall|k: AssetKind| #[trigger]
                    counts@[kind_rank(k)] == kind_count(self@.take(i + 1), k) by {
                    if k != kind {
                        lemma_kind_rank_injective(k, kind);
                    }
                }
            }
            i = i + 1;
        }
        assert(self@.take(n as int) =~= self@);
        AssetKindCounts { counts }
    }

    /// The counts as text: `Label=count` for each kind present, in kind
    /// order, joined with `, `; `none` for an empty index.
    pub fn kind_summary(&self) -> (r: String)
        ensures
            r@ == kind_summary_text(self@),
    {
        let counts = self.kind_counts();
        let mut parts: Vec<String> = Vec::new();
        let mut i: usize = 0;
        while i < 9
            invariant
                i <= 9,
                parts@.map_values(|p: String| p@) == summary_parts(self@, i as nat),
                forall|k: AssetKind| #[trigger] counts.count(k) == kind_count(self@, k),
            decreases 9 - i,
        {
            let kind = kind_at_rank(i);
            let c = counts.get(&kind);
            let ghost before = parts@;
            match c {
                Some(c) => {
                    let label = kind.label();
                    let number = u64_to_text(c as u64);
                    let part = crate::text::concat3(label, "=", number.as_str());
                    parts.push(part);
                    proof {
                        assert(parts@.map_values(|p: String| p@) =~= before.map_values(
                            |p: String| p@,
                        ).push(part@));
                    }
                },
                None => {},
            }
            i = i + 1;
        }
        if parts.len() == 0 {
            return String::from_str("none");
        }
        join_strings(&parts, ", ")
    }
}

impl Default for AssetIndex {
    fn default() -> (r: Self)
        ensures
            r@ == Seq::<AssetRecord>::empty(),
    {
        AssetIndex::new()
    }
}

/// The position of a kind in the order that kinds are declared and sorted.
pub open spec fn kind_rank(k: AssetKind) -> int {
    match k {
        AssetKind::Audio => 0,
        AssetKind::Folder => 1,
        AssetKind::Image => 2,
        AssetKind::Material => 3,
        AssetKind::Model => 4,
        AssetKind::Scene => 5,
        AssetKind::Script => 6,
        AssetKind::Text => 7,
        AssetKind::Unknown => 8,
    }
}

/// The kind at a position of that order.
pub open spec fn kind_with_rank(i: int) -> AssetKind {
    if i == 0 {
        AssetKind::Audio
    } else if i == 1 {
        AssetKind::Folder
    } else if i == 2 {
        AssetKind::Image
    } else if i == 3 {
        AssetKind::Material
    } else if i == 4 {
        AssetKind::Model
    } else if i == 5 {
        AssetKind::Scene
    } else if i == 6 {
        AssetKind::Script
    } else if i == 7 {
        AssetKind::Text
    } else {
        AssetKind::Unknown
    }
}

proof fn lemma_kind_rank_injective(a: AssetKind, b: AssetKind)
    requires
        a != b,
    ensures
        kind_rank(a) != kind_rank(b),
{
}

fn kind_rank_of(k: AssetKind) -> (r: usize)
    ensures
        r == kind_rank(k),
        r < 9,
{
    match k {
        AssetKind::Audio => 0,
        AssetKind::Folder => 1,
        AssetKind::Image => 2,
        AssetKind::Material => 3,
        AssetKind::Model => 4,
        AssetKind::Scene => 5,
        AssetKind::Script => 6,
        AssetKind::Text => 7,
        AssetKind::Unknown => 8,
    }
}

fn kind_at_rank(i: usize) -> (r: AssetKind)
    ensures
        r == kind_with_rank(i as int),
{
    if i == 0 {
        AssetKind::Audio
    } else if i == 1 {
        AssetKind::Folder
    } else if i == 2 {
        AssetKind::Image
    } else if i == 3 {
        AssetKind::Material
    } else if i == 4 {
        AssetKind::Model
    } else if i == 5 {
        AssetKind::Scene
    } else if i == 6 {
        AssetKind::Script
    } else if i == 7 {
        AssetKind::Text
    } else {
        AssetKind::Unknown
    }
}

/// How many of the records are of kind `k`.
pub open spec fn kind_count(s: Seq<AssetRecord>, k: AssetKind) -> nat
    decreases s.len(),
{
    if s.len() == 0 {
        0
    } else {
        kind_count(s.drop_last(), k) + if s.last().kind == k {
            1nat
        } else {
            0nat
        }
    }
}

proof fn lemma_kind_count_bound(s: Seq<AssetRecord>, k: AssetKind)
    ensures
        kind_count(s, k) <= s.len(),
    decreases s.len(),
{
    if s.len() > 0 {
        lemma_kind_count_bound(s.drop_last(), k);
    }
}

/// The summary entries for the first `i` kinds of the kind order.
pub open spec fn summary_parts(s: Seq<AssetRecord>, i: nat) -> Seq<Seq<char>>
    decreases i,
{
    if i == 0 {
        Seq::empty()
    } else {
        let k = kind_with_rank(i - 1);
        let before = summary_parts(s, (i - 1) as nat);
        if kind_count(s, k) > 0 {
            before.push(asset_kind_label(k) + "="@ + decimal(kind_count(s, k)))
        } else {
            before
        }
    }
}

pub open spec fn kind_summary_text(s: Seq<AssetRecord>) -> Seq<char> {
    let parts = summary_parts(s, 9);
    if parts.len() == 0 {
        "none"@
    } else {
        join_seq(parts, ", "@)
    }
}

/// The number of assets of each kind.
#[derive(Debug, PartialEq, Eq)]
pub struct AssetKindCounts {
    counts: Vec<usize>,
}

impl AssetKindCounts {
    #[verifier::type_invariant]
    closed spec fn nine_slots(&self) -> bool {
        self.counts@.len() == 9
    }

    /// The count of kind `k`.
    pub closed spec fn count(&self, k: AssetKind) -> nat {
        self.counts@[kind_rank(k)] as nat
    }

    /// The count of `kind`, or none where there is no asset of that kind.
    pub fn get(&self, kind: &AssetKind) -> (r: Option<usize>)
        ensures
            self.count(*kind) == 0 ==> r is None,
            self.count(*kind) > 0 ==> r == Some(self.count(*kind) as usize),
    {
        proof {
            use_type_invariant(self);
        }
        let c = self.counts[kind_rank_of(*kind)];
        if c == 0 {
            None
        } else {
            Some(c)
        }
    }

    /// Whether no kind has any asset.
    pub fn is_empty(&self) -> (r: bool)
        ensures
            r == forall|k: AssetKind| #[trigger] self.count(k) == 0,
    {
        proof {
            use_type_invariant(self);
        }
        let mut i: usize = 0;
        while i < 9
            invariant
                i <= 9,
                self.counts@.len() == 9,
                forall|j: int| 0 <= j < i ==> self.counts@[j] == 0,
            decreases 9 - i,
        {
            if self.counts[i] != 0 {
                let ghost k = kind_with_rank(i as int);
                assert(kind_rank(k) == i);
                assert(self.count(k) != 0);
                return false;
            }
            i = i + 1;
        }
        proof {
            assert forall|k: AssetKind| #[trigger] self.count(k) == 0 by {
                assert(0 <= kind_rank(k) < 9);
            }
        }
        true
    }

    /// The kinds present and their counts, in kind order.
    pub fn entries(&self) -> (r: Vec<(AssetKind, usize)>)
        ensures
            forall|j: int|
                0 <= j < r@.len() ==> r@[j].1 > 0 && r@[j].1 == self.count(r@[j].0),
            forall|j: int, l: int|
                0 <= j < l < r@.len() ==> kind_rank(r@[j].0) < kind_rank(r@[l].0),
            forall|k: AssetKind|
                #![trigger self.count(k)]
                self.count(k) > 0 ==> exists|j: int| 0 <= j < r@.len() && r@[j].0 == k,
    {
        proof {
            use_type_invariant(self);
        }
        let mut out: Vec<(AssetKind, usize)> = Vec::new();
        let mut i: usize = 0;
        while i < 9
            invariant
                i <= 9,
                self.counts@.len() == 9,
                forall|j: int|
                    0 <= j < out@.len() ==> out@[j].1 > 0 && out@[j].1 == self.count(out@[j].0)
                        && kind_rank(out@[j].0) < i,
                forall|j: int, l: int|
                    0 <= j < l < out@.len() ==> kind_rank(out@[j].0) < kind_rank(out@[l].0),
                forall|k: AssetKind|
                    #![trigger self.count(k)]
                    kind_rank(k) < i && self.count(k) > 0 ==> exists|j: int|
                        0 <= j < out@.len() && out@[j].0 == k,
            decreases 9 - i,
        {
            let kind = kind_at_rank(i);
            let c = self.counts[i];
            assert(kind_rank(kind) == i);
            let ghost before = out@;
            if c > 0 {
                out.push((kind, c));
                assert(out@[out@.len() - 1].0 == kind);
            }
            proof {
                assert forall|k: AssetKind|
                    #![trigger self.count(k)]
                    kind_rank(k) < i + 1 && self.count(k) > 0 implies exists|j: int|
                        0 <= j < out@.len() && out@[j].0 == k by {
                    if kind_rank(k) == i {
                        if k != kind {
                            lemma_kind_rank_injective(k, kind);
                        }
                        assert(out@[before.len() as int].0 == k);
                    } else {
                        let j = choose|j: int| 0 <= j < before.len() && before[j].0 == k;
                        assert(out@[j] == before[j]);
                    }
                }
            }
            i = i + 1;
        }
        proof {
            assert forall|k: AssetKind|
                #![trigger self.count(k)]
                self.count(k) > 0 implies exists|j: int| 0 <= j < out@.len() && out@[j].0 == k by {
                assert(kind_rank(k) < 9);
            }
        }
        out
    }
}

/// At most one asset is selected, by its identifier.
#[derive(Debug, Clone, Copy, PartialEq, Eq)]
pub struct AssetSelection {
    selected: Option<AssetId>,
}

impl View for AssetSelection {
    type V = Option<AssetId>;

    closed spec fn view(&self) -> Option<AssetId> {
        self.selected
    }
}

impl AssetSelection {
    pub fn none() -> (r: Self)
        ensures
            r@ is None,
    {
        AssetSelection { selected: None }
    }

    pub fn selected(&self) -> (r: Option<AssetId>)
        ensures
            r == self@,
    {
        self.selected
    }

    pub fn select(&mut self, id: AssetId)
        ensures
            final(self)@ == Some(id),
    {
        self.selected = Some(id);
    }

    pub fn clear(&mut self)
        ensures
            final(self)@ is None,
    {
        self.selected = None;
    }

    /// Selects the first asset of the index; clears the selection and
    /// answers false when the index is empty.
    pub fn select_first(&mut self, index: &AssetIndex) -> (r: bool)
        ensures
            r == (index@.len() > 0),
            index@.len() == 0 ==> final(self)@ is None,
            index@.len() > 0 ==> final(self)@ == Some(index@[0].id),
    {
        match index.first() {
            Some(first) => {
                self.select(first.id);
                true
            },
            None => {
                self.clear();
                false
            },
        }
    }
}

impl Default for AssetSelection {
    fn default() -> (r: Self)
        ensures
            r@ is None,
    {
        AssetSelection::none()
    }
}

} // verus!
