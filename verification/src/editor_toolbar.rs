//! The toolbar and the shortcut and command summaries built from the
//! command registry, its bindings and the editor's state.
use crate::bindings::{
    binding_pairs, sort_pairs, CommandBindingRegistry, RegisteredBindingView,
};
use crate::command::{
    category_label, category_rank, chord_label, CommandAvailability, CommandCategory, CommandId,
    KeyBinding, KeyBindingView,
};
use crate::editor_commands::{
    refusal, route, EditorAvailabilityInputs, EditorCommandRouter,
};
use crate::order::{compare_text, text_compare};
use crate::registry::{registry_wf, CommandRegistry, CommandView};
use crate::text::{concat2, concat3, decimal, join_seq, join_strings, u64_to_text};
use vstd::prelude::*;

verus! {

/// How a toolbar button is shown: enabled, or disabled with a reason.
#[derive(Debug, Clone, PartialEq, Eq)]
pub enum ToolbarButtonState {
    Enabled,
    Disabled { reason: String },
}

impl View for ToolbarButtonState {
    type V = Option<Seq<char>>;

    open spec fn view(&self) -> Option<Seq<char>> {
        match self {
            ToolbarButtonState::Enabled => None,
            ToolbarButtonState::Disabled { reason } => Some(reason@),
        }
    }
}

impl ToolbarButtonState {
    pub fn is_enabled(&self) -> (r: bool)
        ensures
            r == (self@ is None),
    {
        match self {
            ToolbarButtonState::Enabled => true,
            _ => false,
        }
    }

    pub fn disabled_reason(&self) -> (r: Option<&str>)
        ensures
            match self@ {
                Some(reason) => r matches Some(x) && x@ == reason,
                None => r is None,
            },
    {
        match self {
            ToolbarButtonState::Enabled => None,
            ToolbarButtonState::Disabled { reason } => Some(reason.as_str()),
        }
    }
}

/// The button state for an availability: enabled, or disabled with its
/// reason (`Command disabled` when it gives none).
pub fn toolbar_state(availability: &CommandAvailability) -> (r: ToolbarButtonState)
    ensures
        availability@.enabled ==> r@ is None,
        !availability@.enabled ==> r@ == Some(
            match availability@.disabled_reason {
                Some(reason) => reason,
                None => "Command disabled"@,
            },
        ),
{
    if availability.is_enabled() {
        ToolbarButtonState::Enabled
    } else {
        let reason = match availability.disabled_reason() {
            Some(r) => r.to_owned(),
            None => String::from_str("Command disabled"),
        };
        ToolbarButtonState::Disabled { reason }
    }
}

/// One button of the toolbar.
#[derive(Debug, Clone, PartialEq, Eq)]
pub struct ToolbarAction {
    pub command_id: String,
    pub title: String,
    pub label: String,
    pub shortcut: Option<String>,
    pub state: ToolbarButtonState,
}

pub struct ActionView {
    pub command_id: Seq<char>,
    pub title: Seq<char>,
    pub label: Seq<char>,
    pub shortcut: Option<Seq<char>>,
    pub state: Option<Seq<char>>,
}

impl View for ToolbarAction {
    type V = ActionView;

    open spec fn view(&self) -> ActionView {
        ActionView {
            command_id: self.command_id@,
            title: self.title@,
            label: self.label@,
            shortcut: match self.shortcut {
                Some(s) => Some(s@),
                None => None,
            },
            state: self.state@,
        }
    }
}

/// A button's text: its label, and its shortcut when that is at most eight
/// bytes long.
pub open spec fn button_label_text(a: ActionView) -> Seq<char> {
    match a.shortcut {
        Some(s) => if vstd::utf8::encode_utf8(s).len() <= 8 {
            a.label + " "@ + s
        } else {
            a.label
        },
        None => a.label,
    }
}

impl ToolbarAction {
    pub fn button_label(&self) -> (r: String)
        ensures
            r@ == button_label_text(self@),
    {
        match &self.shortcut {
            Some(s) => {
                if s.as_str().as_bytes().len() <= 8 {
                    concat3(self.label.as_str(), " ", s.as_str())
                } else {
                    self.label.clone()
                }
            },
            None => self.label.clone(),
        }
    }
}

/// The buttons of one toolbar section.
#[derive(Debug, Clone, PartialEq, Eq)]
pub struct ToolbarSection {
    pub category: CommandCategory,
    pub actions: Vec<ToolbarAction>,
}

pub struct SectionView {
    pub category: CommandCategory,
    pub actions: Seq<ActionView>,
}

impl View for ToolbarSection {
    type V = SectionView;

    open spec fn view(&self) -> SectionView {
        SectionView {
            category: self.category,
            actions: self.actions@.map_values(|a: ToolbarAction| a@),
        }
    }
}

/// The toolbar: its sections, and whether the scene has unsaved changes.
#[derive(Debug, Clone, PartialEq, Eq)]
pub struct ToolbarSnapshot {
    pub sections: Vec<ToolbarSection>,
    pub has_unsaved_scene: bool,
}

pub open spec fn sections_view(s: Seq<ToolbarSection>) -> Seq<SectionView> {
    s.map_values(|x: ToolbarSection| x@)
}

/// The first binding registered for a command.
pub open spec fn first_binding(bs: Seq<RegisteredBindingView>, id: Seq<char>) -> Option<
    KeyBindingView,
>
    decreases bs.len(),
{
    if bs.len() == 0 {
        None
    } else if bs[0].command_id == id {
        Some(bs[0].binding)
    } else {
        first_binding(bs.drop_first(), id)
    }
}

/// The shortcut shown for a command: its first binding's chord.
pub open spec fn shortcut_text(bs: Seq<RegisteredBindingView>, id: Seq<char>) -> Option<Seq<char>> {
    match first_binding(bs, id) {
        Some(b) => Some(chord_label(b.chord.modifiers, b.chord.key)),
        None => None,
    }
}

proof fn lemma_first_binding(bs: Seq<RegisteredBindingView>, id: Seq<char>, i: int)
    requires
        0 <= i <= bs.len(),
        forall|j: int| 0 <= j < i ==> bs[j].command_id != id,
        i == bs.len() || bs[i].command_id == id,
    ensures
        first_binding(bs, id) == (if i == bs.len() {
            None
        } else {
            Some(bs[i].binding)
        }),
    decreases i,
{
    if i > 0 {
        let t = bs.drop_first();
        assert forall|j: int| 0 <= j < i - 1 implies t[j].command_id != id by {
            assert(t[j] == bs[j + 1]);
        }
        if i < bs.len() {
            assert(t[i - 1] == bs[i]);
        }
        lemma_first_binding(t, id, i - 1);
    }
}

/// Why the command with an id cannot run, if it cannot.
pub open spec fn command_refusal(id: Seq<char>, s: EditorAvailabilityInputs) -> Option<Seq<char>> {
    match route(id) {
        Some(c) => refusal(c, s),
        None => Some("Command is not routable"@),
    }
}

/// A toolbar button with its section and order.
pub struct EntryView {
    pub section: CommandCategory,
    pub order: usize,
    pub action: ActionView,
}

/// The button of each command placed on the toolbar, in registration
/// order.
pub open spec fn toolbar_entries(
    cmds: Seq<CommandView>,
    bs: Seq<RegisteredBindingView>,
    s: EditorAvailabilityInputs,
) -> Seq<EntryView>
    decreases cmds.len(),
{
    if cmds.len() == 0 {
        Seq::empty()
    } else {
        let before = toolbar_entries(cmds.drop_last(), bs, s);
        let c = cmds.last();
        match c.presentation.toolbar {
            Some(p) => before.push(
                EntryView {
                    section: p.section,
                    order: p.order,
                    action: ActionView {
                        command_id: c.id,
                        title: c.title,
                        label: p.short_label,
                        shortcut: shortcut_text(bs, c.id),
                        state: command_refusal(c.id, s),
                    },
                },
            ),
            None => before,
        }
    }
}

/// Whether a button is listed no later than another: by order, then
/// section, then command.
pub open spec fn entry_before(a: EntryView, b: EntryView) -> bool {
    ||| a.order < b.order
    ||| (a.order == b.order && category_rank(a.section) < category_rank(b.section))
    ||| (a.order == b.order && a.section == b.section && text_compare(
        a.action.command_id,
        b.action.command_id,
    ) <= 0)
}

pub open spec fn insert_entry(s: Seq<EntryView>, x: EntryView) -> Seq<EntryView>
    decreases s.len(),
{
    if s.len() == 0 {
        seq![x]
    } else if entry_before(s[0], x) {
        seq![s[0]] + insert_entry(s.drop_first(), x)
    } else {
        seq![x] + s
    }
}

/// The stable sort of buttons into listing order.
pub open spec fn sort_entries(s: Seq<EntryView>) -> Seq<EntryView>
    decreases s.len(),
{
    if s.len() == 0 {
        Seq::empty()
    } else {
        insert_entry(sort_entries(s.drop_last()), s.last())
    }
}

proof fn lemma_insert_entry_at(s: Seq<EntryView>, x: EntryView, k: int)
    requires
        0 <= k <= s.len(),
        forall|i: int| 0 <= i < k ==> entry_before(s[i], x),
        k == s.len() || !entry_before(s[k], x),
    ensures
        insert_entry(s, x) == s.insert(k, x),
    decreases k,
{
    if k == 0 {
        if s.len() == 0 {
            assert(s.insert(0, x) =~= seq![x]);
        } else {
            assert(s.insert(0, x) =~= seq![x] + s);
        }
    } else {
        let t = s.drop_first();
        assert forall|i: int| 0 <= i < k - 1 implies entry_before(t[i], x) by {
            assert(t[i] == s[i + 1]);
        }
        if k < s.len() {
            assert(t[k - 1] == s[k]);
        }
        lemma_insert_entry_at(t, x, k - 1);
        assert(s.insert(k, x) =~= seq![s[0]] + t.insert(k - 1, x));
    }
}

/// The first section of a category.
pub open spec fn section_index(secs: Seq<SectionView>, c: CommandCategory) -> Option<int>
    decreases secs.len(),
{
    if secs.len() == 0 {
        None
    } else {
        match section_index(secs.drop_last(), c) {
            Some(k) => Some(k),
            None => if secs.last().category == c {
                Some(secs.len() - 1)
            } else {
                None
            },
        }
    }
}

/// A button added to the section of its category, or to a new section at
/// the end.
pub open spec fn add_entry(secs: Seq<SectionView>, e: EntryView) -> Seq<SectionView> {
    match section_index(secs, e.section) {
        Some(k) => secs.update(
            k,
            SectionView { category: secs[k].category, actions: secs[k].actions.push(e.action) },
        ),
        None => secs.push(SectionView { category: e.section, actions: seq![e.action] }),
    }
}

/// The buttons added in turn.
pub open spec fn group_entries(secs: Seq<SectionView>, es: Seq<EntryView>) -> Seq<SectionView>
    decreases es.len(),
{
    if es.len() == 0 {
        secs
    } else {
        group_entries(add_entry(secs, es[0]), es.drop_first())
    }
}

proof fn lemma_section_index(secs: Seq<SectionView>, c: CommandCategory, k: int)
    requires
        0 <= k <= secs.len(),
        forall|j: int| 0 <= j < k ==> secs[j].category != c,
        k == secs.len() || secs[k].category == c,
    ensures
        section_index(secs, c) == (if k == secs.len() {
            None
        } else {
            Some(k)
        }),
    decreases secs.len(),
{
    if secs.len() > 0 {
        let t = secs.drop_last();
        if k == secs.len() {
            lemma_section_index(t, c, k - 1);
        } else if k < secs.len() - 1 {
            lemma_section_index(t, c, k);
        } else {
            lemma_section_index(t, c, k);
        }
    }
}

struct ToolbarEntry {
    section: CommandCategory,
    order: usize,
    action: ToolbarAction,
}

impl View for ToolbarEntry {
    type V = EntryView;

    closed spec fn view(&self) -> EntryView {
        EntryView { section: self.section, order: self.order, action: self.action@ }
    }
}

fn entry_goes_before(a: &ToolbarEntry, b: &ToolbarEntry) -> (r: bool)
    ensures
        r == entry_before(a@, b@),
{
    if a.order < b.order {
        return true;
    }
    if a.order > b.order {
        return false;
    }
    let ra = a.section.rank();
    let rb = b.section.rank();
    if ra < rb {
        return true;
    }
    if ra > rb {
        return false;
    }
    assert(a.section == b.section) by {
        match a.section {
            _ => {},
        }
        match b.section {
            _ => {},
        }
    }
    compare_text(a.action.command_id.as_str(), b.action.command_id.as_str()) <= 0
}

fn shortcut_label(bindings: &CommandBindingRegistry, command_id: &CommandId) -> (r: Option<String>)
    ensures
        match shortcut_text(bindings@.bindings, command_id@) {
            Some(t) => r matches Some(x) && x@ == t,
            None => r is None,
        },
{
    match bindings.shortcut_for_command(command_id) {
        Some(b) => {
            proof {
                let bs = bindings@.bindings;
                let i = choose|i: int|
                    0 <= i < bs.len() && #[trigger] bs[i].command_id == command_id@
                        && bs[i].binding == b@ && forall|j: int|
                        0 <= j < i ==> bs[j].command_id != command_id@;
                lemma_first_binding(bs, command_id@, i);
            }
            Some(b.chord().display_label())
        },
        None => {
            proof {
                let bs = bindings@.bindings;
                lemma_first_binding(bs, command_id@, bs.len() as int);
            }
            None
        },
    }
}

/// The toolbar for the registry's commands: one button for each command
/// placed on it, showing its shortcut and whether it can run; the buttons
/// listed by order, section and command, and gathered into sections in the
/// order their categories first come.
pub fn toolbar_snapshot(
    registry: &CommandRegistry,
    bindings: &CommandBindingRegistry,
    s: &EditorAvailabilityInputs,
) -> (r: ToolbarSnapshot)
    ensures
        sections_view(r.sections@) == group_entries(
            Seq::empty(),
            sort_entries(toolbar_entries(registry@, bindings@.bindings, *s)),
        ),
        r.has_unsaved_scene == s.scene_has_unsaved_changes,
{
    let commands = registry.all();
    let ghost cmds = registry@;
    let ghost bs = bindings@.bindings;
    let n = commands.len();
    let mut sorted: Vec<ToolbarEntry> = Vec::new();
    let mut i: usize = 0;
    assert(cmds.take(0) =~= Seq::<CommandView>::empty());
    while i < n
        invariant
            n == cmds.len(),
            commands@.len() == n,
            forall|j: int| 0 <= j < n ==> #[trigger] commands@[j]@ == cmds[j],
            cmds == registry@,
            bs == bindings@.bindings,
            i <= n,
            sorted@.map_values(|e: ToolbarEntry| e@) == sort_entries(
                toolbar_entries(cmds.take(i as int), bs, *s),
            ),
        decreases n - i,
    {
        let command = commands[i];
        assert(command@ == cmds[i as int]);
        proof {
            assert(cmds.take(i + 1).drop_last() =~= cmds.take(i as int));
            assert(cmds.take(i + 1).last() == cmds[i as int]);
        }
        match command.presentation().toolbar() {
            Some(placement) => {
                let availability = EditorCommandRouter::availability_for_id(
                    command.id().as_str(),
                    s,
                );
                let entry = ToolbarEntry {
                    section: placement.section,
                    order: placement.order,
                    action: ToolbarAction {
                        command_id: command.id().as_str().to_owned(),
                        title: command.title().as_str().to_owned(),
                        label: placement.short_label.clone(),
                        shortcut: shortcut_label(bindings, command.id()),
                        state: toolbar_state(&availability),
                    },
                };
                let ghost cur = sorted@.map_values(|e: ToolbarEntry| e@);
                let m = sorted.len();
                let mut k: usize = 0;
                while k < m
                    invariant
                        m == sorted@.len(),
                        k <= m,
                        cur == sorted@.map_values(|e: ToolbarEntry| e@),
                        forall|j: int| 0 <= j < k ==> entry_before(cur[j], entry@),
                    ensures
                        k <= m,
                        cur == sorted@.map_values(|e: ToolbarEntry| e@),
                        forall|j: int| 0 <= j < k ==> entry_before(cur[j], entry@),
                        k == m || !entry_before(cur[k as int], entry@),
                    decreases m - k,
                {
                    let before = entry_goes_before(&sorted[k], &entry);
                    assert(cur[k as int] == sorted@[k as int]@);
                    if !before {
                        break;
                    }
                    k = k + 1;
                }
                proof {
                    lemma_insert_entry_at(cur, entry@, k as int);
                }
                let ghost ev = entry@;
                sorted.insert(k, entry);
                assert(sorted@.map_values(|e: ToolbarEntry| e@) =~= cur.insert(k as int, ev));
                proof {
                    let prev = toolbar_entries(cmds.take(i as int), bs, *s);
                    assert(prev.push(ev).drop_last() =~= prev);
                    assert(toolbar_entries(cmds.take(i + 1), bs, *s) == prev.push(ev));
                }
            },
            None => {},
        }
        i = i + 1;
    }
    assert(cmds.take(n as int) =~= cmds);
    let ghost all = sorted@.map_values(|e: ToolbarEntry| e@);
    let mut sections: Vec<ToolbarSection> = Vec::new();
    assert(sections_view(sections@) =~= Seq::<SectionView>::empty());
    let mut rest = sorted;
    let total = rest.len();
    let mut t: usize = 0;
    assert(all.skip(0) =~= all);
    while t < total
        invariant
            total == all.len(),
            t <= total,
            rest@.map_values(|e: ToolbarEntry| e@) == all.skip(t as int),
            group_entries(Seq::empty(), all) == group_entries(
                sections_view(sections@),
                all.skip(t as int),
            ),
        decreases total - t,
    {
        let entry = rest.remove(0);
        let ghost ev = entry@;
        assert(ev == all[t as int]);
        assert(all.skip(t as int)[0] == all[t as int]);
        assert(all.skip(t as int).drop_first() =~= all.skip(t + 1));
        let ghost secs = sections_view(sections@);
        let ns = sections.len();
        let mut k: usize = 0;
        while k < ns
            invariant
                ns == sections@.len(),
                k <= ns,
                secs == sections_view(sections@),
                forall|j: int| 0 <= j < k ==> secs[j].category != ev.section,
                entry@ == ev,
            ensures
                k <= ns,
                secs == sections_view(sections@),
                forall|j: int| 0 <= j < k ==> secs[j].category != ev.section,
                k == ns || secs[k as int].category == ev.section,
            decreases ns - k,
        {
            assert(secs[k as int] == sections@[k as int]@);
            if sections[k].category == entry.section {
                break;
            }
            k = k + 1;
        }
        proof {
            lemma_section_index(secs, ev.section, k as int);
        }
        let ToolbarEntry { section, order: _, action } = entry;
        if k < ns {
            let mut sec = sections.remove(k);
            let ghost old_actions = sec.actions@;
            sec.actions.push(action);
            assert(sec.actions@.map_values(|a: ToolbarAction| a@) =~= old_actions.map_values(
                |a: ToolbarAction| a@,
            ).push(ev.action));
            sections.insert(k, sec);
            assert(sections_view(sections@) =~= secs.update(
                k as int,
                SectionView { category: secs[k as int].category, actions: secs[k as int].actions.push(ev.action) },
            ));
        } else {
            let mut actions: Vec<ToolbarAction> = Vec::new();
            actions.push(action);
            let sec = ToolbarSection { category: section, actions };
            assert(sec@.actions =~= seq![ev.action]);
            sections.push(sec);
            assert(sections_view(sections@) =~= secs.push(
                SectionView { category: ev.section, actions: seq![ev.action] },
            ));
        }
        t = t + 1;
    }
    assert(all.skip(total as int) =~= Seq::<EntryView>::empty());
    ToolbarSnapshot { sections, has_unsaved_scene: s.scene_has_unsaved_changes }
}

impl ToolbarSnapshot {
    /// The first button for a command, searching the sections in order.
    pub fn action_for_command(&self, command_id: &str) -> (r: Option<&ToolbarAction>)
        ensures
            r is None ==> forall|i: int, j: int|
                0 <= i < self.sections@.len() && 0 <= j < self.sections@[i].actions@.len()
                    ==> self.sections@[i].actions@[j].command_id@ != command_id@,
            r matches Some(a) ==> a.command_id@ == command_id@ && exists|i: int, j: int|
                0 <= i < self.sections@.len() && 0 <= j < self.sections@[i].actions@.len()
                    && self.sections@[i].actions@[j] == *a,
    {
        let n = self.sections.len();
        let mut i: usize = 0;
        while i < n
            invariant
                n == self.sections@.len(),
                i <= n,
                forall|p: int, q: int|
                    0 <= p < i && 0 <= q < self.sections@[p].actions@.len()
                        ==> self.sections@[p].actions@[q].command_id@ != command_id@,
            decreases n - i,
        {
            let section = &self.sections[i];
            let m = section.actions.len();
            let mut j: usize = 0;
            while j < m
                invariant
                    n == self.sections@.len(),
                    i < n,
                    m == section.actions@.len(),
                    *section == self.sections@[i as int],
                    j <= m,
                    forall|q: int|
                        0 <= q < j ==> section.actions@[q].command_id@ != command_id@,
                decreases m - j,
            {
                if crate::text::str_eq(section.actions[j].command_id.as_str(), command_id) {
                    assert(self.sections@[i as int].actions@[j as int] == section.actions@[j as int]);
                    return Some(&section.actions[j]);
                }
                j = j + 1;
            }
            i = i + 1;
        }
        None
    }
}

/// The text of each binding whose command is registered: its chord, `=`,
/// and the command's title; in listing order.
pub open spec fn binding_summaries(
    pairs: Seq<(Seq<char>, KeyBindingView)>,
    cmds: Seq<CommandView>,
) -> Seq<Seq<char>>
    decreases pairs.len(),
{
    if pairs.len() == 0 {
        Seq::empty()
    } else {
        let before = binding_summaries(pairs.drop_last(), cmds);
        let (id, b) = pairs.last();
        if exists|i: int| 0 <= i < cmds.len() && cmds[i].id == id {
            let i = choose|i: int| 0 <= i < cmds.len() && cmds[i].id == id;
            before.push(chord_label(b.chord.modifiers, b.chord.key) + "="@ + cmds[i].title)
        } else {
            before
        }
    }
}

/// The shortcut summary: how many bindings and conflicts there are, then
/// each binding's summary.
pub open spec fn shortcut_summary_text(
    cmds: Seq<CommandView>,
    bs: Seq<RegisteredBindingView>,
    conflicts: nat,
) -> Seq<char> {
    let parts = binding_summaries(sort_pairs(binding_pairs(bs)), cmds);
    "Shortcuts: "@ + decimal(parts.len()) + " binding(s), "@ + decimal(conflicts) + " conflict(s): "@
        + join_seq(parts, ", "@)
}

pub fn shortcut_summary(registry: &CommandRegistry, bindings: &CommandBindingRegistry) -> (r: String)
    ensures
        r@ == shortcut_summary_text(
            registry@,
            bindings@.bindings,
            bindings@.diagnostics.len(),
        ),
{
    let pairs = bindings.bindings();
    let ghost pv = pairs@.map_values(|p: (&CommandId, &KeyBinding)| (p.0@, p.1@));
    let ghost cmds = registry@;
    let mut parts: Vec<String> = Vec::new();
    let n = pairs.len();
    let mut i: usize = 0;
    assert(pv.take(0) =~= Seq::<(Seq<char>, KeyBindingView)>::empty());
    while i < n
        invariant
            n == pairs@.len(),
            pv == pairs@.map_values(|p: (&CommandId, &KeyBinding)| (p.0@, p.1@)),
            cmds == registry@,
            i <= n,
            parts@.map_values(|p: String| p@) == binding_summaries(pv.take(i as int), cmds),
        decreases n - i,
    {
        let (id, binding) = pairs[i];
        proof {
            assert(pv.take(i + 1).drop_last() =~= pv.take(i as int));
            assert(pv.take(i + 1).last() == pv[i as int]);
            assert(pv[i as int] == (id@, binding@));
        }
        let ghost before = parts@;
        match registry.get(id) {
            Some(command) => {
                proof {
                    let k = choose|k: int| 0 <= k < cmds.len() && cmds[k] == command@;
                    let c = choose|c: int| 0 <= c < cmds.len() && cmds[c].id == id@;
                    assert(cmds[k].id == cmds[c].id);
                    if k != c {
                        assert(cmds[k].id != cmds[c].id);
                    }
                }
                let label = binding.chord().display_label();
                let part = concat3(label.as_str(), "=", command.title().as_str());
                parts.push(part);
                assert(parts@.map_values(|p: String| p@) =~= before.map_values(|p: String| p@).push(
                    part@,
                ));
            },
            None => {},
        }
        i = i + 1;
    }
    assert(pv.take(n as int) =~= pv);
    let count = u64_to_text(parts.len() as u64);
    let diags = bindings.diagnostics();
    assert(diags@.map_values(|d: crate::bindings::CommandBindingDiagnostic| d@).len()
        == diags@.len());
    let conflicts = u64_to_text(diags.len() as u64);
    let joined = join_strings(&parts, ", ");
    proof {
        assert(parts@.map_values(|p: String| p@).len() == parts@.len());
    }
    let head = concat3("Shortcuts: ", count.as_str(), " binding(s), ");
    let head = concat3(head.as_str(), conflicts.as_str(), " conflict(s): ");
    concat2(head.as_str(), joined.as_str())
}

/// How many commands there are of a category.
pub open spec fn category_count(cmds: Seq<CommandView>, c: CommandCategory) -> nat
    decreases cmds.len(),
{
    if cmds.len() == 0 {
        0
    } else {
        category_count(cmds.drop_last(), c) + if cmds.last().category == c {
            1nat
        } else {
            0nat
        }
    }
}

/// The category at a position of the category order.
pub open spec fn category_with_rank(i: int) -> CommandCategory {
    if i == 0 {
        CommandCategory::Project
    } else if i == 1 {
        CommandCategory::Asset
    } else if i == 2 {
        CommandCategory::Scene
    } else if i == 3 {
        CommandCategory::Edit
    } else if i == 4 {
        CommandCategory::Viewport
    } else if i == 5 {
        CommandCategory::Adapter
    } else if i == 6 {
        CommandCategory::Window
    } else if i == 7 {
        CommandCategory::Help
    } else if i == 8 {
        CommandCategory::Developer
    } else if i == 9 {
        CommandCategory::Palette
    } else if i == 10 {
        CommandCategory::Inspector
    } else {
        CommandCategory::Status
    }
}

fn category_at_rank(i: usize) -> (r: CommandCategory)
    ensures
        r == category_with_rank(i as int),
{
    if i == 0 {
        CommandCategory::Project
    } else if i == 1 {
        CommandCategory::Asset
    } else if i == 2 {
        CommandCategory::Scene
    } else if i == 3 {
        CommandCategory::Edit
    } else if i == 4 {
        CommandCategory::Viewport
    } else if i == 5 {
        CommandCategory::Adapter
    } else if i == 6 {
        CommandCategory::Window
    } else if i == 7 {
        CommandCategory::Help
    } else if i == 8 {
        CommandCategory::Developer
    } else if i == 9 {
        CommandCategory::Palette
    } else if i == 10 {
        CommandCategory::Inspector
    } else {
        CommandCategory::Status
    }
}

/// `Label=count` for each category with commands, for the first `i`
/// categories of the category order.
pub open spec fn category_parts(cmds: Seq<CommandView>, i: nat) -> Seq<Seq<char>>
    decreases i,
{
    if i == 0 {
        Seq::empty()
    } else {
        let c = category_with_rank(i - 1);
        let before = category_parts(cmds, (i - 1) as nat);
        if category_count(cmds, c) > 0 {
            before.push(category_label(c) + "="@ + decimal(category_count(cmds, c)))
        } else {
            before
        }
    }
}

/// The command summary: how many commands and conflicted bindings there
/// are, then the count of each category with commands, in category order.
pub open spec fn command_summary_text(cmds: Seq<CommandView>, conflicts: nat) -> Seq<char> {
    "Commands: "@ + decimal(cmds.len()) + " command(s), "@ + decimal(conflicts)
        + " conflicted binding(s): "@ + join_seq(category_parts(cmds, 12), ", "@)
}

proof fn lemma_category_count_bound(cmds: Seq<CommandView>, c: CommandCategory)
    ensures
        category_count(cmds, c) <= cmds.len(),
    decreases cmds.len(),
{
    if cmds.len() > 0 {
        lemma_category_count_bound(cmds.drop_last(), c);
    }
}

fn count_category(commands: &Vec<&crate::registry::RegisteredCommand>, c: CommandCategory) -> (r: usize)
    ensures
        r == category_count(commands@.map_values(|x: &crate::registry::RegisteredCommand| x@), c),
{
    let ghost views = commands@.map_values(|x: &crate::registry::RegisteredCommand| x@);
    let mut count: usize = 0;
    let mut i: usize = 0;
    assert(views.take(0) =~= Seq::<CommandView>::empty());
    while i < commands.len()
        invariant
            views == commands@.map_values(|x: &crate::registry::RegisteredCommand| x@),
            i <= commands@.len(),
            count == category_count(views.take(i as int), c),
        decreases commands@.len() - i,
    {
        proof {
            assert(views.take(i + 1).drop_last() =~= views.take(i as int));
            assert(views.take(i + 1).last() == views[i as int]);
            lemma_category_count_bound(views.take(i as int), c);
        }
        if commands[i].category() == c {
            count = count + 1;
        }
        i = i + 1;
    }
    assert(views.take(commands@.len() as int) =~= views);
    count
}

pub fn command_summary(registry: &CommandRegistry, bindings: &CommandBindingRegistry) -> (r: String)
    ensures
        r@ == command_summary_text(registry@, bindings@.diagnostics.len()),
{
    let commands = registry.all();
    let ghost cmds = registry@;
    assert(commands@.map_values(|x: &crate::registry::RegisteredCommand| x@) =~= cmds);
    let mut parts: Vec<String> = Vec::new();
    let mut i: usize = 0;
    while i < 12
        invariant
            i <= 12,
            commands@.map_values(|x: &crate::registry::RegisteredCommand| x@) == cmds,
            parts@.map_values(|p: String| p@) == category_parts(cmds, i as nat),
        decreases 12 - i,
    {
        let c = category_at_rank(i);
        let count = count_category(&commands, c);
        let ghost before = parts@;
        if count > 0 {
            let number = u64_to_text(count as u64);
            let part = concat3(c.label(), "=", number.as_str());
            parts.push(part);
            assert(parts@.map_values(|p: String| p@) =~= before.map_values(|p: String| p@).push(
                part@,
            ));
        }
        i = i + 1;
    }
    let total = u64_to_text(commands.len() as u64);
    let diags = bindings.diagnostics();
    assert(diags@.map_values(|d: crate::bindings::CommandBindingDiagnostic| d@).len()
        == diags@.len());
    let conflicts = u64_to_text(diags.len() as u64);
    let joined = join_strings(&parts, ", ");
    let head = concat3("Commands: ", total.as_str(), " command(s), ");
    let head = concat3(head.as_str(), conflicts.as_str(), " conflicted binding(s): ");
    concat2(head.as_str(), joined.as_str())
}

} // verus!
