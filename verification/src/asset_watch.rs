//! Change events from watching an asset root, and how a burst of them is
//! merged into one.
use crate::assets::{compare_component_lists, lemma_path_compare_zero, path_components, path_components_of};
use crate::path_sort::{insert_by_key, lemma_insert_at, lemma_insert_sorted, sorted_by_key};
use crate::text::concat2;
use vstd::prelude::*;

verus! {

#[derive(Debug, Clone, PartialEq, Eq)]
pub enum AssetWatchEventKind {
    Created,
    Modified,
    Removed,
    Changed,
    Error(String),
}

/// A change under the watched root, with the paths it concerns.
#[derive(Debug, Clone, PartialEq, Eq)]
pub struct AssetWatchEvent {
    pub kind: AssetWatchEventKind,
    pub paths: Vec<String>,
}

impl AssetWatchEvent {
    /// A change of one path, made without a watcher.
    pub fn synthetic_change(path: &str) -> (r: Self)
        ensures
            r.kind == AssetWatchEventKind::Changed,
            r.paths@.len() == 1,
            r.paths@[0]@ == path@,
    {
        let mut paths: Vec<String> = Vec::new();
        paths.push(path.to_owned());
        AssetWatchEvent { kind: AssetWatchEventKind::Changed, paths }
    }
}

#[derive(Debug, Clone, PartialEq, Eq)]
pub enum AssetWatchStatus {
    Stopped,
    Watching(String),
    Error(String),
}

#[derive(Debug, Clone, PartialEq, Eq)]
pub enum AssetWatchError {
    StartFailed(String),
    WatchFailed(String),
}

pub open spec fn asset_watch_error_text(e: AssetWatchError) -> Seq<char> {
    match e {
        AssetWatchError::StartFailed(m) => "asset watcher start failed: "@ + m@,
        AssetWatchError::WatchFailed(m) => "asset watcher failed: "@ + m@,
    }
}

impl AssetWatchError {
    pub fn message(&self) -> (r: String)
        ensures
            r@ == asset_watch_error_text(*self),
    {
        match self {
            AssetWatchError::StartFailed(m) => concat2("asset watcher start failed: ", m.as_str()),
            AssetWatchError::WatchFailed(m) => concat2("asset watcher failed: ", m.as_str()),
        }
    }
}

/// The key by which watched paths are ordered and told apart: their
/// components.
pub open spec fn string_path_key() -> spec_fn(String) -> Seq<Seq<char>> {
    |s: String| path_components(s@)
}

/// Some path of `s` has the components of `p`.
pub open spec fn has_same_path(s: Seq<String>, p: String) -> bool {
    exists|j: int| 0 <= j < s.len() && path_components(#[trigger] s[j]@) == path_components(p@)
}

/// `p` added to an ordered set of paths: ignored when an equal path is
/// there, else inserted in order.
pub open spec fn add_path(s: Seq<String>, p: String) -> Seq<String> {
    if has_same_path(s, p) {
        s
    } else {
        insert_by_key(s, p, string_path_key())
    }
}

/// The paths `ps` added in turn.
pub open spec fn add_paths(s: Seq<String>, ps: Seq<String>) -> Seq<String>
    decreases ps.len(),
{
    if ps.len() == 0 {
        s
    } else {
        add_paths(add_path(s, ps[0]), ps.drop_first())
    }
}

/// The paths of `events` added in turn, event by event.
pub open spec fn merged_paths(s: Seq<String>, events: Seq<AssetWatchEvent>) -> Seq<String>
    decreases events.len(),
{
    if events.len() == 0 {
        s
    } else {
        merged_paths(add_paths(s, events[0].paths@), events.drop_first())
    }
}

/// The message of the last error event, if any.
pub open spec fn last_error(events: Seq<AssetWatchEvent>) -> Option<Seq<char>>
    decreases events.len(),
{
    if events.len() == 0 {
        None
    } else {
        match events.last().kind {
            AssetWatchEventKind::Error(m) => Some(m@),
            _ => last_error(events.drop_last()),
        }
    }
}

fn add_path_exec(acc: &mut Vec<String>, p: String)
    ensures
        final(acc)@ == add_path(old(acc)@, p),
{
    let target = path_components_of(p.as_str());
    let n = acc.len();
    let mut j: usize = 0;
    while j < n
        invariant
            n == acc@.len(),
            j <= n,
            acc@ == old(acc)@,
            target@.map_values(|c: String| c@) == path_components(p@),
            forall|i: int| 0 <= i < j ==> path_components(#[trigger] acc@[i]@) != path_components(p@),
        decreases n - j,
    {
        let here = path_components_of(acc[j].as_str());
        let c = compare_component_lists(&here, &target);
        proof {
            lemma_path_compare_zero(path_components(acc@[j as int]@), path_components(p@));
        }
        if c == 0 {
            assert(has_same_path(acc@, p));
            return;
        }
        j = j + 1;
    }
    assert(!has_same_path(acc@, p));
    let ghost key = string_path_key();
    let mut k: usize = 0;
    while k < n
        invariant
            n == acc@.len(),
            k <= n,
            acc@ == old(acc)@,
            key == string_path_key(),
            target@.map_values(|c: String| c@) == path_components(p@),
            forall|i: int| 0 <= i < k ==> crate::assets::path_compare(key(acc@[i]), key(p)) <= 0,
        ensures
            k <= n,
            acc@ == old(acc)@,
            forall|i: int| 0 <= i < k ==> crate::assets::path_compare(key(acc@[i]), key(p)) <= 0,
            k == n || crate::assets::path_compare(key(acc@[k as int]), key(p)) > 0,
        decreases n - k,
    {
        let here = path_components_of(acc[k].as_str());
        let c = compare_component_lists(&here, &target);
        if c > 0 {
            break;
        }
        k = k + 1;
    }
    proof {
        lemma_insert_at(acc@, p, key, k as int);
    }
    acc.insert(k, p);
}

/// Merges a burst of events: one event or none is left as it is; several
/// become one, an error carrying the last error's message if there was one
/// and a change otherwise, over all their paths, each once, in path order.
pub fn coalesce_events(events: Vec<AssetWatchEvent>) -> (r: Vec<AssetWatchEvent>)
    ensures
        events@.len() <= 1 ==> r@ == events@,
        events@.len() > 1 ==> r@.len() == 1 && r@[0].paths@ == merged_paths(
            Seq::empty(),
            events@,
        ) && match last_error(events@) {
            Some(m) => r@[0].kind matches AssetWatchEventKind::Error(x) && x@ == m,
            None => r@[0].kind == AssetWatchEventKind::Changed,
        },
{
    if events.len() <= 1 {
        return events;
    }
    let ghost all = events@;
    let mut paths: Vec<String> = Vec::new();
    let mut error: Option<String> = None;
    let n = events.len();
    let mut i: usize = 0;
    assert(all.skip(0) =~= all);
    assert(all.take(0) =~= Seq::<AssetWatchEvent>::empty());
    while i < n
        invariant
            n == all.len(),
            events@ == all,
            i <= n,
            merged_paths(Seq::empty(), all) == merged_paths(paths@, all.skip(i as int)),
            match error {
                Some(m) => last_error(all.take(i as int)) == Some(m@),
                None => last_error(all.take(i as int)) is None,
            },
        decreases n - i,
    {
        let event = &events[i];
        let ghost start = paths@;
        let ghost ps = event.paths@;
        let m = event.paths.len();
        let mut j: usize = 0;
        assert(ps.skip(0) =~= ps);
        while j < m
            invariant
                m == ps.len(),
                ps == event.paths@,
                j <= m,
                add_paths(start, ps) == add_paths(paths@, ps.skip(j as int)),
            decreases m - j,
        {
            let p = event.paths[j].clone();
            assert(ps.skip(j as int).drop_first() =~= ps.skip(j + 1));
            add_path_exec(&mut paths, p);
            j = j + 1;
        }
        proof {
            assert(all.skip(i as int).drop_first() =~= all.skip(i + 1));
            assert(all.skip(i as int)[0] == all[i as int]);
            assert(all.take(i + 1).drop_last() =~= all.take(i as int));
            assert(all.take(i + 1).last() == all[i as int]);
        }
        match &event.kind {
            AssetWatchEventKind::Error(message) => {
                error = Some(message.clone());
            },
            _ => {},
        }
        i = i + 1;
    }
    assert(all.skip(n as int) =~= Seq::<AssetWatchEvent>::empty());
    assert(all.take(n as int) =~= all);
    let kind = match error {
        Some(m) => AssetWatchEventKind::Error(m),
        None => AssetWatchEventKind::Changed,
    };
    let mut out: Vec<AssetWatchEvent> = Vec::new();
    out.push(AssetWatchEvent { kind, paths });
    out
}

/// No two paths have the same components.
pub open spec fn distinct_paths(s: Seq<String>) -> bool {
    forall|i: int, j: int|
        0 <= i < s.len() && 0 <= j < s.len() && i != j ==> path_components(#[trigger] s[i]@)
            != path_components(#[trigger] s[j]@)
}

/// The number of leading paths not above `p`.
spec fn leading_not_above(s: Seq<String>, p: String) -> int
    decreases s.len(),
{
    if s.len() == 0 {
        0
    } else if crate::assets::path_compare(path_components(s[0]@), path_components(p@)) <= 0 {
        1 + leading_not_above(s.drop_first(), p)
    } else {
        0
    }
}

proof fn lemma_leading_not_above(s: Seq<String>, p: String)
    ensures
        0 <= leading_not_above(s, p) <= s.len(),
        forall|i: int|
            0 <= i < leading_not_above(s, p) ==> crate::assets::path_compare(
                string_path_key()(s[i]),
                string_path_key()(p),
            ) <= 0,
        leading_not_above(s, p) == s.len() || crate::assets::path_compare(
            string_path_key()(s[leading_not_above(s, p)]),
            string_path_key()(p),
        ) > 0,
    decreases s.len(),
{
    if s.len() > 0 {
        let t = s.drop_first();
        lemma_leading_not_above(t, p);
        if crate::assets::path_compare(path_components(s[0]@), path_components(p@)) <= 0 {
            assert forall|i: int| 0 <= i < leading_not_above(s, p) implies crate::assets::path_compare(
                string_path_key()(s[i]),
                string_path_key()(p),
            ) <= 0 by {
                if i > 0 {
                    assert(s[i] == t[i - 1]);
                }
            }
            if leading_not_above(s, p) < s.len() {
                assert(s[leading_not_above(s, p)] == t[leading_not_above(t, p)]);
            }
        }
    }
}

proof fn lemma_add_path_distinct(s: Seq<String>, p: String)
    requires
        distinct_paths(s),
    ensures
        distinct_paths(add_path(s, p)),
{
    if !has_same_path(s, p) {
        let key = string_path_key();
        lemma_leading_not_above(s, p);
        let k = leading_not_above(s, p);
        lemma_insert_at(s, p, key, k);
        let r = s.insert(k, p);
        assert forall|i: int, j: int|
            0 <= i < r.len() && 0 <= j < r.len() && i != j implies path_components(
                #[trigger] r[i]@,
            ) != path_components(#[trigger] r[j]@) by {
            let si = if i < k { i } else { i - 1 };
            let sj = if j < k { j } else { j - 1 };
            if i != k && j != k {
                assert(r[i] == s[si]);
                assert(r[j] == s[sj]);
            } else if i == k {
                assert(r[j] == s[sj]);
                assert(!(path_components(s[sj]@) == path_components(p@)));
            } else {
                assert(r[i] == s[si]);
                assert(!(path_components(s[si]@) == path_components(p@)));
            }
        }
    }
}

proof fn lemma_add_paths_distinct(s: Seq<String>, ps: Seq<String>)
    requires
        distinct_paths(s),
    ensures
        distinct_paths(add_paths(s, ps)),
    decreases ps.len(),
{
    if ps.len() > 0 {
        lemma_add_path_distinct(s, ps[0]);
        lemma_add_paths_distinct(add_path(s, ps[0]), ps.drop_first());
    }
}

proof fn lemma_merged_paths_distinct(s: Seq<String>, events: Seq<AssetWatchEvent>)
    requires
        distinct_paths(s),
    ensures
        distinct_paths(merged_paths(s, events)),
    decreases events.len(),
{
    if events.len() > 0 {
        lemma_add_paths_distinct(s, events[0].paths@);
        lemma_merged_paths_distinct(add_paths(s, events[0].paths@), events.drop_first());
    }
}

/// Merging a burst of events names each path once: no two merged paths
/// have the same components.
pub proof fn law_merged_paths_are_distinct(events: Seq<AssetWatchEvent>)
    ensures
        distinct_paths(merged_paths(Seq::empty(), events)),
{
    lemma_merged_paths_distinct(Seq::empty(), events);
}

proof fn lemma_add_path_covers(s: Seq<String>, p: String)
    requires
        sorted_by_key(s, string_path_key()),
    ensures
        sorted_by_key(add_path(s, p), string_path_key()),
        has_same_path(add_path(s, p), p),
        forall|q: String| has_same_path(s, q) ==> has_same_path(add_path(s, p), q),
{
    let key = string_path_key();
    if !has_same_path(s, p) {
        lemma_insert_sorted(s, p, key);
        lemma_leading_not_above(s, p);
        let k = leading_not_above(s, p);
        lemma_insert_at(s, p, key, k);
        let r = s.insert(k, p);
        assert(r[k] == p);
        assert forall|q: String| has_same_path(s, q) implies has_same_path(r, q) by {
            let j = choose|j: int| 0 <= j < s.len() && path_components(#[trigger] s[j]@)
                == path_components(q@);
            if j < k {
                assert(r[j] == s[j]);
            } else {
                assert(r[j + 1] == s[j]);
            }
        }
    }
}

proof fn lemma_add_paths_covers(s: Seq<String>, ps: Seq<String>)
    requires
        sorted_by_key(s, string_path_key()),
    ensures
        sorted_by_key(add_paths(s, ps), string_path_key()),
        forall|q: String| has_same_path(s, q) ==> has_same_path(add_paths(s, ps), q),
        forall|i: int| 0 <= i < ps.len() ==> has_same_path(add_paths(s, ps), #[trigger] ps[i]),
    decreases ps.len(),
{
    if ps.len() > 0 {
        lemma_add_path_covers(s, ps[0]);
        let t = add_path(s, ps[0]);
        lemma_add_paths_covers(t, ps.drop_first());
        assert forall|i: int| 0 <= i < ps.len() implies has_same_path(
            add_paths(s, ps),
            #[trigger] ps[i],
        ) by {
            if i > 0 {
                assert(ps.drop_first()[i - 1] == ps[i]);
            }
        }
    }
}

proof fn lemma_merged_paths_covers(s: Seq<String>, events: Seq<AssetWatchEvent>)
    requires
        sorted_by_key(s, string_path_key()),
    ensures
        sorted_by_key(merged_paths(s, events), string_path_key()),
        forall|q: String| has_same_path(s, q) ==> has_same_path(merged_paths(s, events), q),
        forall|e: int, i: int|
            0 <= e < events.len() && 0 <= i < events[e].paths@.len() ==> has_same_path(
                merged_paths(s, events),
                #[trigger] events[e].paths@[i],
            ),
    decreases events.len(),
{
    if events.len() > 0 {
        lemma_add_paths_covers(s, events[0].paths@);
        let t = add_paths(s, events[0].paths@);
        lemma_merged_paths_covers(t, events.drop_first());
        assert forall|e: int, i: int|
            0 <= e < events.len() && 0 <= i < events[e].paths@.len() implies has_same_path(
                merged_paths(s, events),
                #[trigger] events[e].paths@[i],
            ) by {
            if e > 0 {
                assert(events.drop_first()[e - 1] == events[e]);
            }
        }
    }
}

/// Merging a burst of events gives its paths in path order, and every path
/// of every event is among them.
pub proof fn law_merged_paths_are_sorted_and_cover(events: Seq<AssetWatchEvent>)
    ensures
        sorted_by_key(merged_paths(Seq::empty(), events), string_path_key()),
        forall|e: int, i: int|
            0 <= e < events.len() && 0 <= i < events[e].paths@.len() ==> has_same_path(
                merged_paths(Seq::empty(), events),
                #[trigger] events[e].paths@[i],
            ),
{
    lemma_merged_paths_covers(Seq::empty(), events);
}

} // verus!
