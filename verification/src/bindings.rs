//! Key bindings of registered commands: lookup by chord and by command, and
//! the diagnostics for rejected and conflicting bindings.
use crate::command::{
    CommandId, CommandShortcut, CommandScope, KeyBinding, KeyBindingView, KeyChord, KeyChordView, KeyModifier,
    is_supported_key_name, modifier_rank, scope_rank, supported_key,
};
use crate::order::{
    char_codes, compare_text, lemma_char_codes_injective, lemma_seq_compare_antisym,
    lemma_seq_compare_range, lemma_seq_compare_step, lemma_seq_compare_trans,
    lemma_seq_compare_zero, seq_compare, text_compare,
};
use crate::registry::{CommandRegistry, CommandView};
use crate::text::str_eq;
use vstd::prelude::*;

verus! {

/// The ranks of a sequence of modifiers.
pub open spec fn modifier_ranks(ms: Seq<KeyModifier>) -> Seq<int> {
    ms.map_values(|m: KeyModifier| modifier_rank(m))
}

/// The order bindings are grouped and listed in: by scope, then by the
/// chord's modifiers, then by its key.
#[verifier::opaque]
pub open spec fn binding_key_compare(a: KeyBindingView, b: KeyBindingView) -> int {
    if scope_rank(a.scope) < scope_rank(b.scope) {
        -1
    } else if scope_rank(a.scope) > scope_rank(b.scope) {
        1
    } else if seq_compare(modifier_ranks(a.chord.modifiers), modifier_ranks(b.chord.modifiers))
        != 0 {
        seq_compare(modifier_ranks(a.chord.modifiers), modifier_ranks(b.chord.modifiers))
    } else {
        text_compare(a.chord.key, b.chord.key)
    }
}

proof fn lemma_modifier_ranks_injective(a: Seq<KeyModifier>, b: Seq<KeyModifier>)
    ensures
        modifier_ranks(a) == modifier_ranks(b) <==> a == b,
{
    if modifier_ranks(a) == modifier_ranks(b) {
        assert(a.len() == modifier_ranks(a).len());
        assert forall|i: int| 0 <= i < a.len() implies a[i] == b[i] by {
            assert(modifier_ranks(a)[i] == modifier_ranks(b)[i]);
        }
        assert(a =~= b);
    }
}

proof fn lemma_key_compare_facts(a: KeyBindingView, b: KeyBindingView)
    ensures
        binding_key_compare(a, b) == 0 <==> a == b,
        binding_key_compare(a, b) == -binding_key_compare(b, a),
        -1 <= binding_key_compare(a, b) <= 1,
{
    reveal(binding_key_compare);
    let ma = modifier_ranks(a.chord.modifiers);
    let mb = modifier_ranks(b.chord.modifiers);
    lemma_seq_compare_zero(ma, mb);
    lemma_seq_compare_antisym(ma, mb);
    lemma_seq_compare_range(ma, mb);
    lemma_seq_compare_zero(char_codes(a.chord.key), char_codes(b.chord.key));
    lemma_seq_compare_antisym(char_codes(a.chord.key), char_codes(b.chord.key));
    lemma_seq_compare_range(char_codes(a.chord.key), char_codes(b.chord.key));
    lemma_modifier_ranks_injective(a.chord.modifiers, b.chord.modifiers);
    lemma_char_codes_injective(a.chord.key, b.chord.key);
}

proof fn lemma_key_compare_trans(a: KeyBindingView, b: KeyBindingView, c: KeyBindingView)
    requires
        binding_key_compare(a, b) < 0,
        binding_key_compare(b, c) < 0,
    ensures
        binding_key_compare(a, c) < 0,
{
    reveal(binding_key_compare);
    let ma = modifier_ranks(a.chord.modifiers);
    let mb = modifier_ranks(b.chord.modifiers);
    let mc = modifier_ranks(c.chord.modifiers);
    lemma_seq_compare_zero(ma, mb);
    lemma_seq_compare_zero(mb, mc);
    lemma_seq_compare_zero(ma, mc);
    if seq_compare(ma, mb) < 0 && seq_compare(mb, mc) < 0 {
        lemma_seq_compare_trans(ma, mb, mc);
    }
    let ka = char_codes(a.chord.key);
    let kb = char_codes(b.chord.key);
    let kc = char_codes(c.chord.key);
    if seq_compare(ka, kb) < 0 && seq_compare(kb, kc) < 0 {
        lemma_seq_compare_trans(ka, kb, kc);
    }
}

fn compare_modifiers(a: &[KeyModifier], b: &[KeyModifier]) -> (r: i8)
    ensures
        r == seq_compare(modifier_ranks(a@), modifier_ranks(b@)),
{
    let ghost ra = modifier_ranks(a@);
    let ghost rb = modifier_ranks(b@);
    let n = a.len();
    let m = b.len();
    let mut i: usize = 0;
    assert(ra.skip(0) =~= ra);
    assert(rb.skip(0) =~= rb);
    while i < n && i < m
        invariant
            n == a@.len(),
            m == b@.len(),
            ra == modifier_ranks(a@),
            rb == modifier_ranks(b@),
            i <= n,
            i <= m,
            seq_compare(ra, rb) == seq_compare(ra.skip(i as int), rb.skip(i as int)),
        decreases n - i,
    {
        let x = a[i].rank();
        let y = b[i].rank();
        if x < y {
            return -1;
        }
        if x > y {
            return 1;
        }
        proof {
            lemma_seq_compare_step(ra, rb, i as int);
        }
        i = i + 1;
    }
    if i == n && i == m {
        0
    } else if i == n {
        -1
    } else {
        1
    }
}

/// Compares two bindings in grouping order.
pub fn compare_binding_keys(a: &KeyBinding, b: &KeyBinding) -> (r: i8)
    ensures
        r == binding_key_compare(a@, b@),
{
    reveal(binding_key_compare);
    let sa = a.scope().rank();
    let sb = b.scope().rank();
    if sa < sb {
        return -1;
    }
    if sa > sb {
        return 1;
    }
    let m = compare_modifiers(a.chord().modifiers(), b.chord().modifiers());
    if m != 0 {
        return m;
    }
    compare_text(a.chord().key(), b.chord().key())
}

/// Whether two bindings have the same scope and chord.
pub fn same_binding_key(a: &KeyBinding, b: &KeyBinding) -> (r: bool)
    ensures
        r == (a@ == b@),
{
    proof {
        lemma_key_compare_facts(a@, b@);
    }
    compare_binding_keys(a, b) == 0
}

/// A binding registered for a command, with the command's order.
#[derive(Debug, PartialEq, Eq)]
struct RegisteredBinding {
    command_id: CommandId,
    binding: KeyBinding,
    order: usize,
}

pub struct RegisteredBindingView {
    pub command_id: Seq<char>,
    pub binding: KeyBindingView,
    pub order: usize,
}

impl View for RegisteredBinding {
    type V = RegisteredBindingView;

    closed spec fn view(&self) -> RegisteredBindingView {
        RegisteredBindingView {
            command_id: self.command_id@,
            binding: self.binding@,
            order: self.order,
        }
    }
}

#[derive(Debug, PartialEq, Eq)]
pub enum CommandBindingDiagnostic {
    EmptyKeyChord { command_id: CommandId },
    UnsupportedKeyName { command_id: CommandId, key: String },
    Conflict { scope: CommandScope, chord: KeyChord, command_ids: Vec<CommandId> },
}

pub enum BindingDiagnosticView {
    EmptyKeyChord { command_id: Seq<char> },
    UnsupportedKeyName { command_id: Seq<char>, key: Seq<char> },
    Conflict { scope: CommandScope, chord: KeyChordView, command_ids: Seq<Seq<char>> },
}

impl View for CommandBindingDiagnostic {
    type V = BindingDiagnosticView;

    closed spec fn view(&self) -> BindingDiagnosticView {
        match self {
            CommandBindingDiagnostic::EmptyKeyChord { command_id } => {
                BindingDiagnosticView::EmptyKeyChord { command_id: command_id@ }
            },
            CommandBindingDiagnostic::UnsupportedKeyName { command_id, key } => {
                BindingDiagnosticView::UnsupportedKeyName { command_id: command_id@, key: key@ }
            },
            CommandBindingDiagnostic::Conflict { scope, chord, command_ids } => {
                BindingDiagnosticView::Conflict {
                    scope: *scope,
                    chord: chord@,
                    command_ids: command_ids@.map_values(|id: CommandId| id@),
                }
            },
        }
    }
}

pub struct BindingRegistryView {
    pub bindings: Seq<RegisteredBindingView>,
    pub diagnostics: Seq<BindingDiagnosticView>,
}

/// The registry after registering `binding` for `command_id` with `order`:
/// a binding without a key, or with an unsupported key, is reported instead
/// of kept.
pub open spec fn after_register(
    v: BindingRegistryView,
    command_id: Seq<char>,
    binding: KeyBindingView,
    order: usize,
) -> BindingRegistryView {
    if binding.chord.key.len() == 0 {
        BindingRegistryView {
            diagnostics: v.diagnostics.push(
                BindingDiagnosticView::EmptyKeyChord { command_id },
            ),
            ..v
        }
    } else if !supported_key(binding.chord.key) {
        BindingRegistryView {
            diagnostics: v.diagnostics.push(
                BindingDiagnosticView::UnsupportedKeyName { command_id, key: binding.chord.key },
            ),
            ..v
        }
    } else {
        BindingRegistryView {
            bindings: v.bindings.push(RegisteredBindingView { command_id, binding, order }),
            ..v
        }
    }
}

/// The bindings in the group of `key`, in their registration order.
#[verifier::opaque]
pub open spec fn group_of(bs: Seq<RegisteredBindingView>, key: KeyBindingView) -> Seq<
    RegisteredBindingView,
> {
    bs.filter(|b: RegisteredBindingView| b.binding == key)
}

/// The command identifiers in the group of `key`.
pub open spec fn group_ids(bs: Seq<RegisteredBindingView>, key: KeyBindingView) -> Seq<Seq<char>> {
    group_of(bs, key).map_values(|b: RegisteredBindingView| b.command_id)
}

/// The scope and chord a conflict diagnostic is about.
pub open spec fn conflict_key(d: BindingDiagnosticView) -> KeyBindingView {
    match d {
        BindingDiagnosticView::Conflict { scope, chord, .. } => KeyBindingView { chord, scope },
        _ => arbitrary(),
    }
}

/// `ds` are the conflicts among `bs`: one diagnostic for each scope and chord
/// bound more than once, in grouping order, naming the bound commands in
/// registration order.
pub open spec fn conflicts_of(bs: Seq<RegisteredBindingView>, ds: Seq<BindingDiagnosticView>) -> bool {
    &&& forall|k: int|
        0 <= k < ds.len() ==> {
            &&& #[trigger] ds[k] is Conflict
            &&& group_of(bs, conflict_key(ds[k])).len() >= 2
            &&& ds[k]->Conflict_command_ids == group_ids(bs, conflict_key(ds[k]))
        }
    &&& forall|k1: int, k2: int|
        0 <= k1 < k2 < ds.len() ==> binding_key_compare(
            conflict_key(#[trigger] ds[k1]),
            conflict_key(#[trigger] ds[k2]),
        ) < 0
    &&& forall|i: int|
        0 <= i < bs.len() && group_of(bs, #[trigger] bs[i].binding).len() >= 2 ==> exists|k: int|
            0 <= k < ds.len() && conflict_key(#[trigger] ds[k]) == bs[i].binding
}

/// A scope and chord bound twice is reported: the conflicts of `bs` hold
/// one about it, naming both commands.
pub proof fn law_shared_chord_is_reported(
    bs: Seq<RegisteredBindingView>,
    ds: Seq<BindingDiagnosticView>,
    i: int,
    j: int,
)
    requires
        conflicts_of(bs, ds),
        0 <= i < j < bs.len(),
        bs[i].binding == bs[j].binding,
    ensures
        exists|k: int|
            0 <= k < ds.len() && (#[trigger] ds[k] matches BindingDiagnosticView::Conflict {
                scope,
                chord,
                command_ids,
            } && scope == bs[i].binding.scope && chord == bs[i].binding.chord && command_ids.contains(
                bs[i].command_id,
            ) && command_ids.contains(bs[j].command_id)),
{
    let key = bs[i].binding;
    let p = |b: RegisteredBindingView| b.binding == key;
    let front = bs.take(j);
    let back = bs.skip(j);
    assert(bs =~= front + back);
    Seq::filter_distributes_over_add(front, back, p);
    assert(front[i] == bs[i]);
    front.lemma_filter_contains(p, i);
    assert(back[0] == bs[j]);
    back.lemma_filter_contains(p, 0);
    assert(front.filter(p).len() >= 1);
    assert(back.filter(p).len() >= 1);
    reveal(group_of);
    assert(group_of(bs, key) == bs.filter(p));
    assert(bs.filter(p) == (front + back).filter(p));
    assert(group_of(bs, key) == front.filter(p) + back.filter(p));
    assert(group_of(bs, key).len() >= 2);
    let k = choose|k: int| 0 <= k < ds.len() && conflict_key(#[trigger] ds[k]) == bs[i].binding;
    assert(ds[k] is Conflict);
    let g = group_of(bs, key);
    bs.lemma_filter_contains(p, i);
    bs.lemma_filter_contains(p, j);
    let gi = choose|x: int| 0 <= x < g.len() && g[x] == bs[i];
    let gj = choose|x: int| 0 <= x < g.len() && g[x] == bs[j];
    let ids = group_ids(bs, key);
    assert(ids[gi] == bs[i].command_id);
    assert(ids[gj] == bs[j].command_id);
    assert(ids.contains(bs[i].command_id));
    assert(ids.contains(bs[j].command_id));
}

/// The orders of `bs` never decrease.
pub open spec fn orders_non_decreasing(bs: Seq<RegisteredBindingView>) -> bool {
    forall|i: int, j: int| 0 <= i <= j < bs.len() ==> #[trigger] bs[i].order <= #[trigger] bs[j].order
}

/// The shortcuts of `cmds`, in order, as (command, binding, order) triples.
pub open spec fn shortcut_entries(cmds: Seq<CommandView>) -> Seq<(Seq<char>, KeyBindingView, usize)>
    decreases cmds.len(),
{
    if cmds.len() == 0 {
        Seq::empty()
    } else {
        let last = cmds.last();
        shortcut_entries(cmds.drop_last()) + last.shortcuts.map_values(
            |s: KeyBindingView| (last.id, s, last.order),
        )
    }
}

/// Registering each entry in turn.
pub open spec fn register_entries(
    v: BindingRegistryView,
    entries: Seq<(Seq<char>, KeyBindingView, usize)>,
) -> BindingRegistryView
    decreases entries.len(),
{
    if entries.len() == 0 {
        v
    } else {
        let e = entries.last();
        after_register(register_entries(v, entries.drop_last()), e.0, e.1, e.2)
    }
}

pub open spec fn starts_below(fs: Seq<usize>, bound: int) -> bool {
    forall|a: int| 0 <= a < fs.len() ==> #[trigger] fs[a] < bound
}

#[verifier::opaque]
pub open spec fn starts_sorted(bs: Seq<RegisteredBindingView>, fs: Seq<usize>) -> bool {
    forall|a: int, b: int|
        0 <= a < b < fs.len() ==> binding_key_compare(
            bs[#[trigger] fs[a] as int].binding,
            bs[#[trigger] fs[b] as int].binding,
        ) < 0
}

/// The binding at `j` (a name used to choose when facts about it are needed).
pub open spec fn binding_at(bs: Seq<RegisteredBindingView>, j: int) -> KeyBindingView {
    bs[j].binding
}

#[verifier::opaque]
pub open spec fn starts_cover(bs: Seq<RegisteredBindingView>, fs: Seq<usize>, upto: int) -> bool {
    forall|j: int|
        0 <= j < upto ==> exists|a: int|
            0 <= a < fs.len() && bs[#[trigger] fs[a] as int].binding == #[trigger] binding_at(bs, j)
}

/// `ds` reports, in order, the groups among the first `k` group starts that
/// hold more than one binding.
#[verifier::opaque]
pub open spec fn reported_groups(
    bs: Seq<RegisteredBindingView>,
    fs: Seq<usize>,
    k: int,
    ds: Seq<BindingDiagnosticView>,
) -> bool {
    &&& forall|x: int|
        0 <= x < ds.len() ==> {
            &&& #[trigger] ds[x] is Conflict
            &&& group_of(bs, conflict_key(ds[x])).len() >= 2
            &&& ds[x]->Conflict_command_ids == group_ids(bs, conflict_key(ds[x]))
        }
    &&& forall|x: int, b: int|
        0 <= x < ds.len() && k <= b < fs.len() ==> binding_key_compare(
            conflict_key(#[trigger] ds[x]),
            bs[#[trigger] fs[b] as int].binding,
        ) < 0
    &&& forall|x1: int, x2: int|
        0 <= x1 < x2 < ds.len() ==> binding_key_compare(
            conflict_key(#[trigger] ds[x1]),
            conflict_key(#[trigger] ds[x2]),
        ) < 0
    &&& forall|a: int|
        0 <= a < k && group_of(bs, bs[#[trigger] fs[a] as int].binding).len() >= 2 ==> exists|x: int|
            0 <= x < ds.len() && conflict_key(#[trigger] ds[x]) == bs[fs[a] as int].binding
}

proof fn lemma_report_group(
    bs: Seq<RegisteredBindingView>,
    fs: Seq<usize>,
    k: int,
    ds: Seq<BindingDiagnosticView>,
    d: BindingDiagnosticView,
)
    requires
        0 <= k < fs.len(),
        starts_below(fs, bs.len() as int),
        starts_sorted(bs, fs),
        reported_groups(bs, fs, k, ds),
        d is Conflict,
        conflict_key(d) == bs[fs[k] as int].binding,
        d->Conflict_command_ids == group_ids(bs, conflict_key(d)),
        group_ids(bs, conflict_key(d)).len() >= 2,
    ensures
        reported_groups(bs, fs, k + 1, ds.push(d)),
{
    reveal(reported_groups);
    reveal(starts_sorted);
    let ds2 = ds.push(d);
    assert(group_of(bs, conflict_key(d)).len() == group_ids(bs, conflict_key(d)).len());
    assert forall|x1: int, x2: int|
        0 <= x1 < x2 < ds2.len() implies binding_key_compare(
        conflict_key(#[trigger] ds2[x1]),
        conflict_key(#[trigger] ds2[x2]),
    ) < 0 by {
        assert(ds2[x1] == ds[x1]);
        if x2 == ds.len() {
            assert(binding_key_compare(conflict_key(ds[x1]), bs[fs[k] as int].binding) < 0);
        } else {
            assert(ds2[x2] == ds[x2]);
        }
    }
    assert forall|x: int, b: int|
        0 <= x < ds2.len() && k + 1 <= b < fs.len() implies binding_key_compare(
        conflict_key(#[trigger] ds2[x]),
        bs[#[trigger] fs[b] as int].binding,
    ) < 0 by {
        if x == ds.len() {
            assert(binding_key_compare(bs[fs[k] as int].binding, bs[fs[b] as int].binding) < 0);
        } else {
            assert(ds2[x] == ds[x]);
        }
    }
    assert forall|x: int| 0 <= x < ds2.len() implies {
        &&& #[trigger] ds2[x] is Conflict
        &&& group_of(bs, conflict_key(ds2[x])).len() >= 2
        &&& ds2[x]->Conflict_command_ids == group_ids(bs, conflict_key(ds2[x]))
    } by {
        if x < ds.len() {
            assert(ds2[x] == ds[x]);
        }
    }
    assert forall|a: int|
        0 <= a < k + 1 && group_of(bs, bs[#[trigger] fs[a] as int].binding).len() >= 2 implies exists|x: int|
        0 <= x < ds2.len() && conflict_key(#[trigger] ds2[x]) == bs[fs[a] as int].binding by {
        if a == k {
            assert(conflict_key(ds2[ds.len() as int]) == bs[fs[a] as int].binding);
        } else {
            let x = choose|x: int| 0 <= x < ds.len() && conflict_key(#[trigger] ds[x]) == bs[fs[a] as int].binding;
            assert(ds2[x] == ds[x]);
        }
    }
}

proof fn lemma_skip_group(
    bs: Seq<RegisteredBindingView>,
    fs: Seq<usize>,
    k: int,
    ds: Seq<BindingDiagnosticView>,
)
    requires
        0 <= k < fs.len(),
        reported_groups(bs, fs, k, ds),
        group_ids(bs, bs[fs[k] as int].binding).len() < 2,
    ensures
        reported_groups(bs, fs, k + 1, ds),
{
    reveal(reported_groups);
    assert(group_of(bs, bs[fs[k] as int].binding).len() == group_ids(bs, bs[fs[k] as int].binding).len());
}

proof fn lemma_reported_all(bs: Seq<RegisteredBindingView>, fs: Seq<usize>, ds: Seq<BindingDiagnosticView>)
    requires
        starts_cover(bs, fs, bs.len() as int),
        reported_groups(bs, fs, fs.len() as int, ds),
    ensures
        conflicts_of(bs, ds),
{
    reveal(reported_groups);
    reveal(starts_cover);
    assert forall|i: int|
        0 <= i < bs.len() && group_of(bs, #[trigger] bs[i].binding).len() >= 2 implies exists|x: int|
        0 <= x < ds.len() && conflict_key(#[trigger] ds[x]) == bs[i].binding by {
        assert(binding_at(bs, i) == bs[i].binding);
        let a = choose|a: int| 0 <= a < fs.len() && bs[#[trigger] fs[a] as int].binding == binding_at(bs, i);
        assert(group_of(bs, bs[fs[a] as int].binding).len() >= 2);
    }
}

/// The bindings of a set of commands.
#[derive(Debug)]
pub struct CommandBindingRegistry {
    bindings: Vec<RegisteredBinding>,
    diagnostics: Vec<CommandBindingDiagnostic>,
}

impl View for CommandBindingRegistry {
    type V = BindingRegistryView;

    closed spec fn view(&self) -> BindingRegistryView {
        BindingRegistryView {
            bindings: self.bindings@.map_values(|b: RegisteredBinding| b@),
            diagnostics: self.diagnostics@.map_values(|d: CommandBindingDiagnostic| d@),
        }
    }
}

/// What the bindings of `cmds` are: each shortcut registered in command
/// order, the rejected ones reported, then one diagnostic per conflict.
pub open spec fn bindings_of_commands(cmds: Seq<CommandView>, r: BindingRegistryView) -> bool {
    let registered = register_entries(
        BindingRegistryView { bindings: Seq::empty(), diagnostics: Seq::empty() },
        shortcut_entries(cmds),
    );
    &&& r.bindings == registered.bindings
    &&& r.diagnostics.take(registered.diagnostics.len() as int) == registered.diagnostics
    &&& r.diagnostics.len() >= registered.diagnostics.len()
    &&& conflicts_of(r.bindings, r.diagnostics.skip(registered.diagnostics.len() as int))
    &&& orders_non_decreasing(r.bindings)
}

impl CommandBindingRegistry {
    pub fn new() -> (r: Self)
        ensures
            r@.bindings.len() == 0,
            r@.diagnostics.len() == 0,
    {
        let r = CommandBindingRegistry { bindings: Vec::new(), diagnostics: Vec::new() };
        assert(r@.bindings =~= Seq::<RegisteredBindingView>::empty());
        assert(r@.diagnostics =~= Seq::<BindingDiagnosticView>::empty());
        r
    }

    /// Registers `binding` for `command_id`, or reports it when its key is
    /// empty or unsupported.
    pub fn register(&mut self, command_id: CommandId, binding: KeyBinding, order: usize)
        ensures
            final(self)@ == after_register(old(self)@, command_id@, binding@, order),
    {
        let ghost v = self@;
        let ghost id = command_id@;
        let ghost b = binding@;
        if binding.chord().key().unicode_len() == 0 {
            self.diagnostics.push(CommandBindingDiagnostic::EmptyKeyChord { command_id });
            assert(self@.diagnostics =~= v.diagnostics.push(
                BindingDiagnosticView::EmptyKeyChord { command_id: id },
            ));
            assert(self@.bindings =~= v.bindings);
            return ;
        }
        if !is_supported_key_name(binding.chord().key()) {
            let key = binding.chord().key().to_owned();
            self.diagnostics.push(CommandBindingDiagnostic::UnsupportedKeyName { command_id, key });
            assert(self@.diagnostics =~= v.diagnostics.push(
                BindingDiagnosticView::UnsupportedKeyName { command_id: id, key: b.chord.key },
            ));
            assert(self@.bindings =~= v.bindings);
            return ;
        }
        self.bindings.push(RegisteredBinding { command_id, binding, order });
        assert(self@.bindings =~= v.bindings.push(
            RegisteredBindingView { command_id: id, binding: b, order },
        ));
        assert(self@.diagnostics =~= v.diagnostics);
    }

    /// The command bound to `chord` in `scope`: of the bindings for it, the
    /// first with the least order.
    pub fn command_for_chord(&self, chord: &KeyChord, scope: CommandScope) -> (r: Option<&CommandId>)
        ensures
            r is None <==> forall|i: int|
                0 <= i < self@.bindings.len() ==> #[trigger] self@.bindings[i].binding
                    != (KeyBindingView { chord: chord@, scope }),
            r matches Some(id) ==> exists|i: int|
                0 <= i < self@.bindings.len() && #[trigger] self@.bindings[i].binding == (
                KeyBindingView { chord: chord@, scope }) && self@.bindings[i].command_id == id@
                    && (forall|j: int|
                    0 <= j < self@.bindings.len() && self@.bindings[j].binding == (KeyBindingView {
                        chord: chord@,
                        scope,
                    }) ==> #[trigger] self@.bindings[j].order >= self@.bindings[i].order && (j
                    < i ==> self@.bindings[j].order > self@.bindings[i].order)),
    {
        let key = KeyBinding::new(chord.clone(), scope);
        let ghost kv = KeyBindingView { chord: chord@, scope };
        let ghost bs = self@.bindings;
        let n = self.bindings.len();
        let mut best: Option<usize> = None;
        let mut i: usize = 0;
        while i < n
            invariant
                n == self.bindings@.len(),
                bs == self@.bindings,
                key@ == kv,
                i <= n,
                best is None <==> forall|j: int| 0 <= j < i ==> #[trigger] bs[j].binding != kv,
                best matches Some(b) ==> b < i && bs[b as int].binding == kv && forall|j: int|
                    0 <= j < i && #[trigger] bs[j].binding == kv ==> bs[j].order >= bs[b as int].order
                        && (j < b ==> bs[j].order > bs[b as int].order),
            decreases n - i,
        {
            assert(bs[i as int] == self.bindings@[i as int]@);
            if same_binding_key(&self.bindings[i].binding, &key) {
                match best {
                    None => {
                        best = Some(i);
                    },
                    Some(b) => {
                        if self.bindings[i].order < self.bindings[b].order {
                            best = Some(i);
                        }
                    },
                }
            }
            i = i + 1;
        }
        match best {
            None => None,
            Some(b) => {
                assert(bs[b as int] == self.bindings@[b as int]@);
                Some(&self.bindings[b].command_id)
            },
        }
    }

    /// The first binding registered for `command_id`.
    pub fn shortcut_for_command(&self, command_id: &CommandId) -> (r: Option<&KeyBinding>)
        ensures
            r is None <==> forall|i: int|
                0 <= i < self@.bindings.len() ==> #[trigger] self@.bindings[i].command_id
                    != command_id@,
            r matches Some(b) ==> exists|i: int|
                0 <= i < self@.bindings.len() && #[trigger] self@.bindings[i].command_id
                    == command_id@ && self@.bindings[i].binding == b@ && forall|j: int|
                    0 <= j < i ==> self@.bindings[j].command_id != command_id@,
    {
        let n = self.bindings.len();
        let mut i: usize = 0;
        while i < n
            invariant
                n == self.bindings@.len(),
                i <= n,
                forall|j: int| 0 <= j < i ==> #[trigger] self@.bindings[j].command_id != command_id@,
            decreases n - i,
        {
            assert(self@.bindings[i as int] == self.bindings@[i as int]@);
            if str_eq(self.bindings[i].command_id.as_str(), command_id.as_str()) {
                assert(self@.bindings[i as int].command_id == command_id@);
                assert(self@.bindings[i as int].binding == self.bindings@[i as int].binding@);
                return Some(&self.bindings[i].binding);
            }
            i = i + 1;
        }
        None
    }

    /// The bindings of every shortcut of `commands`, in command order, and
    /// the diagnostics for rejected and conflicting bindings.
    pub fn from_commands(commands: &CommandRegistry) -> (r: Self)
        ensures
            bindings_of_commands(commands@, r@),
    {
        let ghost empty = BindingRegistryView { bindings: Seq::empty(), diagnostics: Seq::empty() };
        let mut registry = Self::new();
        let all = commands.all();
        let ghost cmds = commands@;
        assert(registry@ == empty) by {
            assert(registry@.bindings =~= empty.bindings);
            assert(registry@.diagnostics =~= empty.diagnostics);
        }
        assert(cmds.take(0) =~= Seq::<CommandView>::empty());
        let n = all.len();
        let mut i: usize = 0;
        while i < n
            invariant
                n == all@.len(),
                n == cmds.len(),
                cmds == commands@,
                crate::registry::registry_wf(cmds),
                forall|k: int| 0 <= k < n ==> #[trigger] all@[k]@ == cmds[k],
                i <= n,
                registry@ == register_entries(empty, shortcut_entries(cmds.take(i as int))),
                orders_non_decreasing(registry@.bindings),
                forall|k: int| 0 <= k < registry@.bindings.len() ==> #[trigger] registry@.bindings[k].order < i,
            decreases n - i,
        {
            let command = all[i];
            let shortcuts = command.shortcuts();
            let ghost prefix = shortcut_entries(cmds.take(i as int));
            let ghost c = cmds[i as int];
            let m = shortcuts.len();
            let mut j: usize = 0;
            assert(c.shortcuts.take(0).map_values(|s: KeyBindingView| (c.id, s, c.order)) =~= Seq::<(Seq<char>, KeyBindingView, usize)>::empty());
            assert(prefix + Seq::<(Seq<char>, KeyBindingView, usize)>::empty() =~= prefix);
            while j < m
                invariant
                    m == shortcuts@.len(),
                    shortcuts@.map_values(|s: CommandShortcut| s@) == c.shortcuts,
                    command@ == c,
                    c.order == i,
                    i < n,
                    j <= m,
                    prefix == shortcut_entries(cmds.take(i as int)),
                    registry@ == register_entries(
                        empty,
                        prefix + c.shortcuts.take(j as int).map_values(
                            |s: KeyBindingView| (c.id, s, c.order),
                        ),
                    ),
                    orders_non_decreasing(registry@.bindings),
                    forall|k: int| 0 <= k < registry@.bindings.len() ==> #[trigger] registry@.bindings[k].order <= i,
                decreases m - j,
            {
                let ghost before = prefix + c.shortcuts.take(j as int).map_values(
                    |s: KeyBindingView| (c.id, s, c.order),
                );
                let ghost after = prefix + c.shortcuts.take(j + 1).map_values(
                    |s: KeyBindingView| (c.id, s, c.order),
                );
                assert(shortcuts@[j as int]@ == c.shortcuts[j as int]);
                assert(after =~= before.push((c.id, c.shortcuts[j as int], c.order)));
                assert(after.drop_last() =~= before);
                registry.register(
                    command.id().clone(),
                    shortcuts[j].binding().clone(),
                    command.order(),
                );
                j = j + 1;
            }
            proof {
                assert(cmds.take(i + 1).drop_last() =~= cmds.take(i as int));
                assert(cmds.take(i + 1).last() == c);
                assert(c.shortcuts.take(m as int) =~= c.shortcuts);
            }
            i = i + 1;
        }
        assert(cmds.take(n as int) =~= cmds);
        let ghost registered = registry@;
        registry.detect_conflicts();
        proof {
            assert(registry@.diagnostics.take(registered.diagnostics.len() as int) =~= registered.diagnostics);
        }
        registry
    }

    fn group_ids_of(&self, key: &KeyBinding) -> (r: Vec<CommandId>)
        ensures
            r@.map_values(|id: CommandId| id@) == group_ids(self@.bindings, key@),
    {
        reveal(group_of);
        let ghost bs = self@.bindings;
        let mut ids: Vec<CommandId> = Vec::new();
        let n = self.bindings.len();
        let mut j: usize = 0;
        assert(bs.take(0) =~= Seq::<RegisteredBindingView>::empty());
        proof {
            reveal_with_fuel(Seq::filter, 1);
        }
        assert(ids@.map_values(|id: CommandId| id@) =~= group_ids(bs.take(0), key@));
        while j < n
            invariant
                n == self.bindings@.len(),
                bs == self@.bindings,
                j <= n,
                ids@.map_values(|id: CommandId| id@) == group_ids(bs.take(j as int), key@),
            decreases n - j,
        {
            proof {
                reveal(group_of);
                reveal_with_fuel(Seq::filter, 1);
                assert(bs.take(j + 1).drop_last() =~= bs.take(j as int));
                assert(bs.take(j + 1).last() == bs[j as int]);
                assert(bs[j as int] == self.bindings@[j as int]@);
            }
            let ghost before = ids@;
            if same_binding_key(&self.bindings[j].binding, key) {
                ids.push(self.bindings[j].command_id.clone());
                assert(ids@.map_values(|id: CommandId| id@) =~= before.map_values(|id: CommandId| id@).push(bs[j as int].command_id));
            }
            j = j + 1;
        }
        assert(bs.take(n as int) =~= bs);
        ids
    }

    /// Inserts `i`, the first binding of its group, among the group starts
    /// `firsts`, keeping them in grouping order.
    fn insert_group_start(&self, firsts: &mut Vec<usize>, i: usize)
        requires
            i < self@.bindings.len(),
            starts_below(old(firsts)@, i as int),
            starts_sorted(self@.bindings, old(firsts)@),
            forall|t: int| 0 <= t < i ==> #[trigger] self@.bindings[t].binding != self@.bindings[i as int].binding,
            starts_cover(self@.bindings, old(firsts)@, i as int),
        ensures
            starts_below(final(firsts)@, i + 1),
            starts_sorted(self@.bindings, final(firsts)@),
            starts_cover(self@.bindings, final(firsts)@, i + 1),
    {
        reveal(starts_sorted);
        reveal(starts_cover);
        let ghost bs = self@.bindings;
        assert(bs[i as int] == self.bindings@[i as int]@);
        let mut p: usize = 0;
        while p < firsts.len()
            invariant
                bs == self@.bindings,
                i < bs.len(),
                p <= firsts@.len(),
                starts_below(firsts@, i as int),
                forall|a: int| 0 <= a < p ==> binding_key_compare(
                    bs[#[trigger] firsts@[a] as int].binding,
                    bs[i as int].binding,
                ) < 0,
            ensures
                p <= firsts@.len(),
                forall|a: int| 0 <= a < p ==> binding_key_compare(
                    bs[#[trigger] firsts@[a] as int].binding,
                    bs[i as int].binding,
                ) < 0,
                p < firsts@.len() ==> binding_key_compare(
                    bs[firsts@[p as int] as int].binding,
                    bs[i as int].binding,
                ) >= 0,
            decreases firsts@.len() - p,
        {
            let f = firsts[p];
            assert(f < i);
            assert(bs[f as int] == self.bindings@[f as int]@);
            if compare_binding_keys(&self.bindings[f].binding, &self.bindings[i].binding) >= 0 {
                break;
            }
            p = p + 1;
        }
        let ghost old_firsts = firsts@;
        proof {
            if p < old_firsts.len() {
                let f = old_firsts[p as int];
                lemma_key_compare_facts(bs[f as int].binding, bs[i as int].binding);
                assert(f < i);
                assert(bs[f as int].binding != bs[i as int].binding);
                assert(binding_key_compare(bs[i as int].binding, bs[f as int].binding) < 0);
            }
        }
        firsts.insert(p, i);
        proof {
            assert forall|a: int, b: int|
                0 <= a < b < firsts@.len() implies binding_key_compare(
                bs[#[trigger] firsts@[a] as int].binding,
                bs[#[trigger] firsts@[b] as int].binding,
            ) < 0 by {
                if a < p && b == p {
                } else if a < p && b > p {
                    assert(firsts@[b] == old_firsts[b - 1]);
                    if b - 1 > p {
                        assert(binding_key_compare(bs[old_firsts[p as int] as int].binding, bs[old_firsts[b - 1] as int].binding) < 0);
                        lemma_key_compare_trans(bs[i as int].binding, bs[old_firsts[p as int] as int].binding, bs[old_firsts[b - 1] as int].binding);
                    }
                    lemma_key_compare_trans(
                        bs[old_firsts[a] as int].binding,
                        bs[i as int].binding,
                        bs[old_firsts[b - 1] as int].binding,
                    );
                } else if a == p {
                    assert(firsts@[b] == old_firsts[b - 1]);
                    if b - 1 > p {
                        assert(binding_key_compare(bs[old_firsts[p as int] as int].binding, bs[old_firsts[b - 1] as int].binding) < 0);
                        lemma_key_compare_trans(bs[i as int].binding, bs[old_firsts[p as int] as int].binding, bs[old_firsts[b - 1] as int].binding);
                    }
                } else if a > p {
                    assert(firsts@[a] == old_firsts[a - 1]);
                    assert(firsts@[b] == old_firsts[b - 1]);
                } else {
                    assert(firsts@[a] == old_firsts[a]);
                    assert(firsts@[b] == old_firsts[b]);
                }
            }
            assert forall|t: int|
                0 <= t < i + 1 implies exists|a: int|
                0 <= a < firsts@.len() && bs[#[trigger] firsts@[a] as int].binding
                    == #[trigger] binding_at(bs, t) by {
                if t == i {
                    assert(firsts@[p as int] == i);
                } else {
                    let a = choose|a: int|
                        0 <= a < old_firsts.len() && bs[#[trigger] old_firsts[a] as int].binding
                            == binding_at(bs, t);
                    if a < p {
                        assert(firsts@[a] == old_firsts[a]);
                    } else {
                        assert(firsts@[a + 1] == old_firsts[a]);
                    }
                }
            }
        }
    }

    /// The first binding of each group, in grouping order.
    fn group_starts(&self) -> (firsts: Vec<usize>)
        ensures
            starts_below(firsts@, self@.bindings.len() as int),
            starts_sorted(self@.bindings, firsts@),
            starts_cover(self@.bindings, firsts@, self@.bindings.len() as int),
    {
        reveal(starts_cover);
        let ghost bs = self@.bindings;
        let n = self.bindings.len();
        let mut firsts: Vec<usize> = Vec::new();
        reveal(starts_sorted);
        let mut i: usize = 0;
        while i < n
            invariant
                n == self.bindings@.len(),
                bs == self@.bindings,
                i <= n,
                starts_below(firsts@, i as int),
                starts_sorted(bs, firsts@),
                starts_cover(bs, firsts@, i as int),
            decreases n - i,
        {
            assert(bs[i as int] == self.bindings@[i as int]@);
            let mut seen = false;
            let mut j: usize = 0;
            while j < i
                invariant
                    n == self.bindings@.len(),
                    bs == self@.bindings,
                    i < n,
                    j <= i,
                    seen ==> exists|t: int| 0 <= t < i && #[trigger] bs[t].binding == bs[i as int].binding,
                    !seen ==> forall|t: int| 0 <= t < j ==> #[trigger] bs[t].binding != bs[i as int].binding,
                decreases i - j,
            {
                assert(bs[j as int] == self.bindings@[j as int]@);
                if same_binding_key(&self.bindings[j].binding, &self.bindings[i].binding) {
                    assert(bs[j as int].binding == bs[i as int].binding);
                    seen = true;
                }
                j = j + 1;
            }
            if !seen {
                self.insert_group_start(&mut firsts, i);
            } else {
                proof {
                    reveal(starts_cover);
                    let t = choose|t: int| 0 <= t < i && #[trigger] bs[t].binding == bs[i as int].binding;
                    assert(binding_at(bs, t) == bs[t].binding);
                    let a = choose|a: int|
                        0 <= a < firsts@.len() && bs[#[trigger] firsts@[a] as int].binding == binding_at(bs, t);
                    assert(bs[firsts@[a] as int].binding == bs[i as int].binding);
                    assert forall|t2: int| 0 <= t2 < i + 1 implies exists|a2: int|
                        0 <= a2 < firsts@.len() && bs[#[trigger] firsts@[a2] as int].binding
                            == #[trigger] binding_at(bs, t2) by {
                        if t2 == i {
                            assert(bs[firsts@[a] as int].binding == binding_at(bs, t2));
                        }
                    }
                }
            }
            i = i + 1;
        }
        firsts
    }

    /// Appends one conflict diagnostic for each scope and chord that more
    /// than one binding uses, in grouping order.
    fn detect_conflicts(&mut self)
        ensures
            final(self)@.bindings == old(self)@.bindings,
            final(self)@.diagnostics.len() >= old(self)@.diagnostics.len(),
            final(self)@.diagnostics.take(old(self)@.diagnostics.len() as int) == old(self)@.diagnostics,
            conflicts_of(
                final(self)@.bindings,
                final(self)@.diagnostics.skip(old(self)@.diagnostics.len() as int),
            ),
    {
        let ghost bs = self@.bindings;
        let ghost d0 = self@.diagnostics;
        let firsts = self.group_starts();
        let k_len = firsts.len();
        let mut k: usize = 0;
        assert(self@.diagnostics.skip(d0.len() as int) =~= Seq::<BindingDiagnosticView>::empty());
        assert(self@.diagnostics.take(d0.len() as int) =~= d0);
        assert(reported_groups(bs, firsts@, 0, Seq::<BindingDiagnosticView>::empty())) by {
            reveal(reported_groups);
        }
        while k < k_len
            invariant
                bs == self@.bindings,
                k_len == firsts@.len(),
                k <= k_len,
                starts_below(firsts@, bs.len() as int),
                starts_sorted(bs, firsts@),
                self@.diagnostics.len() >= d0.len(),
                self@.diagnostics.take(d0.len() as int) == d0,
                reported_groups(bs, firsts@, k as int, self@.diagnostics.skip(d0.len() as int)),
            decreases k_len - k,
        {
            let f = firsts[k];
            assert(bs[f as int] == self.bindings@[f as int]@);
            let ids = self.group_ids_of(&self.bindings[f].binding);
            let ghost ds_before = self@.diagnostics.skip(d0.len() as int);
            let ghost all_before = self@.diagnostics;
            if ids.len() >= 2 {
                let binding = &self.bindings[f].binding;
                let diag = CommandBindingDiagnostic::Conflict {
                    scope: binding.scope(),
                    chord: binding.chord().clone(),
                    command_ids: ids,
                };
                let ghost dv = diag@;
                assert(conflict_key(dv) == bs[f as int].binding);
                self.diagnostics.push(diag);
                proof {
                    assert(self@.diagnostics =~= all_before.push(dv));
                    assert(self@.diagnostics.skip(d0.len() as int) =~= ds_before.push(dv));
                    assert(self@.diagnostics.take(d0.len() as int) =~= d0);
                    lemma_report_group(bs, firsts@, k as int, ds_before, dv);
                }
            } else {
                proof {
                    lemma_skip_group(bs, firsts@, k as int, ds_before);
                }
            }
            k = k + 1;
        }
        proof {
            lemma_reported_all(bs, firsts@, self@.diagnostics.skip(d0.len() as int));
        }
    }

    pub fn diagnostics(&self) -> (r: &[CommandBindingDiagnostic])
        ensures
            r@.map_values(|d: CommandBindingDiagnostic| d@) == self@.diagnostics,
    {
        self.diagnostics.as_slice()
    }

    /// Every binding with its command, listed by scope, chord and command.
    pub fn bindings(&self) -> (r: Vec<(&CommandId, &KeyBinding)>)
        ensures
            r@.map_values(|p: (&CommandId, &KeyBinding)| (p.0@, p.1@)) == sort_pairs(
                binding_pairs(self@.bindings),
            ),
            pairs_sorted(r@.map_values(|p: (&CommandId, &KeyBinding)| (p.0@, p.1@))),
            r@.map_values(|p: (&CommandId, &KeyBinding)| (p.0@, p.1@)).to_multiset()
                =~= binding_pairs(self@.bindings).to_multiset(),
    {
        let ghost all = binding_pairs(self@.bindings);
        let mut out: Vec<(&CommandId, &KeyBinding)> = Vec::new();
        let n = self.bindings.len();
        let mut i: usize = 0;
        assert(all.take(0) =~= Seq::<(Seq<char>, KeyBindingView)>::empty());
        while i < n
            invariant
                n == self@.bindings.len(),
                all == binding_pairs(self@.bindings),
                i <= n,
                out@.map_values(|p: (&CommandId, &KeyBinding)| (p.0@, p.1@)) == sort_pairs(
                    all.take(i as int),
                ),
            decreases n - i,
        {
            let b = &self.bindings[i];
            let x = (&b.command_id, &b.binding);
            let ghost xv = (x.0@, x.1@);
            assert(xv == all[i as int]);
            let ghost cur = out@.map_values(|p: (&CommandId, &KeyBinding)| (p.0@, p.1@));
            let m = out.len();
            let mut k: usize = 0;
            while k < m
                invariant
                    m == out@.len(),
                    k <= m,
                    cur == out@.map_values(|p: (&CommandId, &KeyBinding)| (p.0@, p.1@)),
                    xv == (x.0@, x.1@),
                    forall|j: int| 0 <= j < k ==> pair_before(cur[j], xv),
                ensures
                    k <= m,
                    cur == out@.map_values(|p: (&CommandId, &KeyBinding)| (p.0@, p.1@)),
                    forall|j: int| 0 <= j < k ==> pair_before(cur[j], xv),
                    k == m || !pair_before(cur[k as int], xv),
                decreases m - k,
            {
                let c = compare_binding_keys(out[k].1, x.1);
                let before = if c < 0 {
                    true
                } else if c > 0 {
                    false
                } else {
                    compare_text(out[k].0.as_str(), x.0.as_str()) <= 0
                };
                assert(cur[k as int] == (out@[k as int].0@, out@[k as int].1@));
                if !before {
                    break;
                }
                k = k + 1;
            }
            proof {
                lemma_insert_pair_at(cur, xv, k as int);
                assert(all.take(i + 1).drop_last() =~= all.take(i as int));
                assert(all.take(i + 1).last() == xv);
            }
            out.insert(k, x);
            assert(out@.map_values(|p: (&CommandId, &KeyBinding)| (p.0@, p.1@)) =~= cur.insert(
                k as int,
                xv,
            ));
            i = i + 1;
        }
        assert(all.take(n as int) =~= all);
        proof {
            lemma_sort_pairs(all);
        }
        out
    }
}

/// The command and binding of each registered binding.
pub open spec fn binding_pairs(bs: Seq<RegisteredBindingView>) -> Seq<(Seq<char>, KeyBindingView)> {
    bs.map_values(|b: RegisteredBindingView| (b.command_id, b.binding))
}

/// Whether a pair is listed no later than another: by scope and chord,
/// then by command.
pub open spec fn pair_before(a: (Seq<char>, KeyBindingView), b: (Seq<char>, KeyBindingView)) -> bool {
    let c = binding_key_compare(a.1, b.1);
    c < 0 || (c == 0 && text_compare(a.0, b.0) <= 0)
}

/// `s` with `x` placed after every leading pair listed no later than it.
pub open spec fn insert_pair(s: Seq<(Seq<char>, KeyBindingView)>, x: (Seq<char>, KeyBindingView)) -> Seq<
    (Seq<char>, KeyBindingView),
>
    decreases s.len(),
{
    if s.len() == 0 {
        seq![x]
    } else if pair_before(s[0], x) {
        seq![s[0]] + insert_pair(s.drop_first(), x)
    } else {
        seq![x] + s
    }
}

/// The stable sort of pairs into listing order.
pub open spec fn sort_pairs(s: Seq<(Seq<char>, KeyBindingView)>) -> Seq<(Seq<char>, KeyBindingView)>
    decreases s.len(),
{
    if s.len() == 0 {
        Seq::empty()
    } else {
        insert_pair(sort_pairs(s.drop_last()), s.last())
    }
}

proof fn lemma_insert_pair_at(
    s: Seq<(Seq<char>, KeyBindingView)>,
    x: (Seq<char>, KeyBindingView),
    k: int,
)
    requires
        0 <= k <= s.len(),
        forall|i: int| 0 <= i < k ==> pair_before(s[i], x),
        k == s.len() || !pair_before(s[k], x),
    ensures
        insert_pair(s, x) == s.insert(k, x),
    decreases k,
{
    if k == 0 {
        if s.len() == 0 {
            assert(s.insert(0, x) =~= seq![x]);
        } else {
            assert(s.insert(0, x) =~= seq![x] + s);
        }
    } else {
        let t = s.drop_first();
        assert forall|i: int| 0 <= i < k - 1 implies pair_before(t[i], x) by {
            assert(t[i] == s[i + 1]);
        }
        if k < s.len() {
            assert(t[k - 1] == s[k]);
        }
        lemma_insert_pair_at(t, x, k - 1);
        assert(s.insert(k, x) =~= seq![s[0]] + t.insert(k - 1, x));
    }
}

/// Every pair is listed no later than the pairs after it.
pub open spec fn pairs_sorted(s: Seq<(Seq<char>, KeyBindingView)>) -> bool {
    forall|i: int, j: int| 0 <= i < j < s.len() ==> pair_before(#[trigger] s[i], #[trigger] s[j])
}

proof fn lemma_text_compare_facts(a: Seq<char>, b: Seq<char>)
    ensures
        text_compare(a, b) == 0 <==> a == b,
        text_compare(a, b) == -text_compare(b, a),
{
    lemma_seq_compare_zero(char_codes(a), char_codes(b));
    lemma_seq_compare_antisym(char_codes(a), char_codes(b));
    lemma_char_codes_injective(a, b);
}

proof fn lemma_pair_before_total(a: (Seq<char>, KeyBindingView), b: (Seq<char>, KeyBindingView))
    ensures
        pair_before(a, b) || pair_before(b, a),
{
    lemma_key_compare_facts(a.1, b.1);
    lemma_text_compare_facts(a.0, b.0);
}

proof fn lemma_pair_before_trans(
    a: (Seq<char>, KeyBindingView),
    b: (Seq<char>, KeyBindingView),
    c: (Seq<char>, KeyBindingView),
)
    requires
        pair_before(a, b),
        pair_before(b, c),
    ensures
        pair_before(a, c),
{
    lemma_key_compare_facts(a.1, b.1);
    lemma_key_compare_facts(b.1, c.1);
    lemma_key_compare_facts(a.1, c.1);
    lemma_text_compare_facts(a.0, b.0);
    lemma_text_compare_facts(b.0, c.0);
    lemma_text_compare_facts(a.0, c.0);
    if binding_key_compare(a.1, b.1) < 0 && binding_key_compare(b.1, c.1) < 0 {
        lemma_key_compare_trans(a.1, b.1, c.1);
    }
    if text_compare(a.0, b.0) < 0 && text_compare(b.0, c.0) < 0 {
        lemma_seq_compare_trans(char_codes(a.0), char_codes(b.0), char_codes(c.0));
    }
}

proof fn lemma_insert_pair_contents(s: Seq<(Seq<char>, KeyBindingView)>, x: (Seq<char>, KeyBindingView))
    ensures
        insert_pair(s, x).len() == s.len() + 1,
        insert_pair(s, x).to_multiset() =~= s.to_multiset().insert(x),
        forall|y: (Seq<char>, KeyBindingView)| #[trigger] insert_pair(s, x).contains(y) ==> y == x
            || s.contains(y),
    decreases s.len(),
{
    broadcast use vstd::seq_lib::group_to_multiset_ensures;

    let r = insert_pair(s, x);
    if s.len() == 0 {
        assert(r =~= Seq::<(Seq<char>, KeyBindingView)>::empty().push(x));
        assert(s =~= Seq::<(Seq<char>, KeyBindingView)>::empty());
        assert forall|y: (Seq<char>, KeyBindingView)| #[trigger] r.contains(y) implies y == x
            || s.contains(y) by {
            if r.contains(y) {
                let i = choose|i: int| 0 <= i < r.len() && r[i] == y;
                assert(r[i] == x);
            }
        }
    } else if pair_before(s[0], x) {
        let t = s.drop_first();
        lemma_insert_pair_contents(t, x);
        vstd::seq_lib::lemma_multiset_commutative(seq![s[0]], insert_pair(t, x));
        vstd::seq_lib::lemma_multiset_commutative(seq![s[0]], t);
        assert(s =~= seq![s[0]] + t);
        assert forall|y: (Seq<char>, KeyBindingView)| #[trigger] r.contains(y) implies y == x
            || s.contains(y) by {
            let i = choose|i: int| 0 <= i < r.len() && r[i] == y;
            if i > 0 {
                assert(insert_pair(t, x)[i - 1] == y);
                assert(insert_pair(t, x).contains(y));
                if t.contains(y) {
                    let j = choose|j: int| 0 <= j < t.len() && t[j] == y;
                    assert(s[j + 1] == y);
                }
            } else {
                assert(s[0] == y);
            }
        }
    } else {
        vstd::seq_lib::lemma_multiset_commutative(seq![x], s);
        assert forall|y: (Seq<char>, KeyBindingView)| #[trigger] r.contains(y) implies y == x
            || s.contains(y) by {
            let i = choose|i: int| 0 <= i < r.len() && r[i] == y;
            if i > 0 {
                assert(s[i - 1] == y);
            }
        }
    }
}

proof fn lemma_insert_pair_sorted(s: Seq<(Seq<char>, KeyBindingView)>, x: (Seq<char>, KeyBindingView))
    requires
        pairs_sorted(s),
    ensures
        pairs_sorted(insert_pair(s, x)),
    decreases s.len(),
{
    let r = insert_pair(s, x);
    if s.len() == 0 {
    } else if pair_before(s[0], x) {
        let t = s.drop_first();
        assert(pairs_sorted(t)) by {
            assert forall|i: int, j: int| 0 <= i < j < t.len() implies pair_before(
                #[trigger] t[i],
                #[trigger] t[j],
            ) by {
                assert(t[i] == s[i + 1] && t[j] == s[j + 1]);
            }
        }
        lemma_insert_pair_sorted(t, x);
        lemma_insert_pair_contents(t, x);
        let u = insert_pair(t, x);
        assert forall|i: int, j: int| 0 <= i < j < r.len() implies pair_before(
            #[trigger] r[i],
            #[trigger] r[j],
        ) by {
            if i > 0 {
                assert(r[i] == u[i - 1] && r[j] == u[j - 1]);
            } else {
                assert(r[j] == u[j - 1]);
                assert(u.contains(u[j - 1]));
                if u[j - 1] != x {
                    let m = choose|m: int| 0 <= m < t.len() && t[m] == u[j - 1];
                    assert(s[m + 1] == t[m]);
                }
            }
        }
    } else {
        lemma_pair_before_total(s[0], x);
        assert forall|i: int, j: int| 0 <= i < j < r.len() implies pair_before(
            #[trigger] r[i],
            #[trigger] r[j],
        ) by {
            if i > 0 {
                assert(r[i] == s[i - 1] && r[j] == s[j - 1]);
            } else {
                assert(r[j] == s[j - 1]);
                if j - 1 > 0 {
                    lemma_pair_before_trans(x, s[0], s[j - 1]);
                }
            }
        }
    }
}

/// Sorting pairs gives them in listing order, each pair kept as often as it
/// was given.
pub proof fn lemma_sort_pairs(s: Seq<(Seq<char>, KeyBindingView)>)
    ensures
        pairs_sorted(sort_pairs(s)),
        sort_pairs(s).len() == s.len(),
        sort_pairs(s).to_multiset() =~= s.to_multiset(),
    decreases s.len(),
{
    broadcast use vstd::seq_lib::group_to_multiset_ensures;

    if s.len() > 0 {
        lemma_sort_pairs(s.drop_last());
        lemma_insert_pair_sorted(sort_pairs(s.drop_last()), s.last());
        lemma_insert_pair_contents(sort_pairs(s.drop_last()), s.last());
        assert(s =~= s.drop_last().push(s.last()));
    } else {
        assert(s =~= Seq::<(Seq<char>, KeyBindingView)>::empty());
    }
}

impl Default for CommandBindingRegistry {
    fn default() -> (r: Self)
        ensures
            r@.bindings.len() == 0,
            r@.diagnostics.len() == 0,
    {
        Self::new()
    }
}

} // verus!
