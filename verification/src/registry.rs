//! Registered commands: their metadata, registration in a stable order,
//! lookup, palette filtering and invocation.
use crate::command::{
    AvailabilityView, CommandAvailability, CommandCategory, CommandDescription, CommandId,
    CommandPresentation, CommandRegistryError, CommandShortcut, CommandTitle, KeyBindingView,
    PresentationView, category_label,
};
use crate::text::{contains_seq, str_contains, str_eq, trim, trim_str, unicode_lowercase, unicode_lowercase_str};
use vstd::prelude::*;

verus! {

/// Everything the editor knows about a command.
#[derive(Debug, PartialEq, Eq)]
pub struct CommandMetadata {
    id: CommandId,
    title: CommandTitle,
    description: Option<CommandDescription>,
    category: CommandCategory,
    shortcuts: Vec<CommandShortcut>,
    availability: CommandAvailability,
    presentation: CommandPresentation,
    order: usize,
}

pub type RegisteredCommand = CommandMetadata;

pub struct CommandView {
    pub id: Seq<char>,
    pub title: Seq<char>,
    pub description: Option<Seq<char>>,
    pub category: CommandCategory,
    pub shortcuts: Seq<KeyBindingView>,
    pub availability: AvailabilityView,
    pub presentation: PresentationView,
    pub order: usize,
}

pub open spec fn option_description_view(d: Option<CommandDescription>) -> Option<Seq<char>> {
    match d {
        Some(d) => Some(d@),
        None => None,
    }
}

impl View for CommandMetadata {
    type V = CommandView;

    closed spec fn view(&self) -> CommandView {
        CommandView {
            id: self.id@,
            title: self.title@,
            description: option_description_view(self.description),
            category: self.category,
            shortcuts: self.shortcuts@.map_values(|s: CommandShortcut| s@),
            availability: self.availability@,
            presentation: self.presentation@,
            order: self.order,
        }
    }
}

impl CommandMetadata {
    /// A command that is enabled, listed in the palette, has no shortcut and
    /// the order 0.
    pub fn new(
        id: CommandId,
        title: CommandTitle,
        description: Option<CommandDescription>,
        category: CommandCategory,
    ) -> (r: Self)
        ensures
            r@.id == id@,
            r@.title == title@,
            r@.description == option_description_view(description),
            r@.category == category,
            r@.shortcuts.len() == 0,
            r@.availability.enabled,
            r@.availability.disabled_reason is None,
            r@.presentation.palette_visible,
            r@.presentation.toolbar is None,
            r@.order == 0,
    {
        let r = CommandMetadata {
            id,
            title,
            description,
            category,
            shortcuts: Vec::new(),
            availability: CommandAvailability::enabled(),
            presentation: CommandPresentation::palette_only(),
            order: 0,
        };
        assert(r@.shortcuts =~= Seq::<KeyBindingView>::empty());
        r
    }

    pub fn with_shortcut(self, shortcut: CommandShortcut) -> (r: Self)
        ensures
            r@ == (CommandView { shortcuts: self@.shortcuts.push(shortcut@), ..self@ }),
    {
        let mut next = self;
        let ghost before = next.shortcuts@;
        next.shortcuts.push(shortcut);
        assert(next.shortcuts@.map_values(|s: CommandShortcut| s@) =~= before.map_values(
            |s: CommandShortcut| s@,
        ).push(shortcut@));
        next
    }

    pub fn with_presentation(self, presentation: CommandPresentation) -> (r: Self)
        ensures
            r@ == (CommandView { presentation: presentation@, ..self@ }),
    {
        let mut next = self;
        next.presentation = presentation;
        next
    }

    pub fn disabled(self, reason: &str) -> (r: Self)
        ensures
            r@ == (CommandView {
                availability: AvailabilityView { enabled: false, disabled_reason: Some(reason@) },
                ..self@
            }),
    {
        let mut next = self;
        next.availability = CommandAvailability::disabled(reason);
        next
    }

    pub fn id(&self) -> (r: &CommandId)
        ensures
            r@ == self@.id,
    {
        &self.id
    }

    pub fn title(&self) -> (r: &CommandTitle)
        ensures
            r@ == self@.title,
    {
        &self.title
    }

    pub fn name(&self) -> (r: &CommandTitle)
        ensures
            r@ == self@.title,
    {
        &self.title
    }

    pub fn description(&self) -> (r: Option<&CommandDescription>)
        ensures
            r matches Some(d) ==> self@.description == Some(d@),
            r is None ==> self@.description is None,
    {
        match &self.description {
            Some(d) => Some(d),
            None => None,
        }
    }

    pub fn category(&self) -> (r: CommandCategory)
        ensures
            r == self@.category,
    {
        self.category
    }

    /// The first shortcut, if any.
    pub fn shortcut(&self) -> (r: Option<&CommandShortcut>)
        ensures
            r matches Some(s) ==> self@.shortcuts.len() > 0 && s@ == self@.shortcuts[0],
            r is None ==> self@.shortcuts.len() == 0,
    {
        if self.shortcuts.len() == 0 {
            None
        } else {
            Some(&self.shortcuts[0])
        }
    }

    pub fn shortcuts(&self) -> (r: &[CommandShortcut])
        ensures
            r@.map_values(|s: CommandShortcut| s@) == self@.shortcuts,
    {
        self.shortcuts.as_slice()
    }

    pub fn availability(&self) -> (r: &CommandAvailability)
        ensures
            r@ == self@.availability,
    {
        &self.availability
    }

    pub fn presentation(&self) -> (r: &CommandPresentation)
        ensures
            r@ == self@.presentation,
    {
        &self.presentation
    }

    pub fn enabled(&self) -> (r: bool)
        ensures
            r == self@.availability.enabled,
    {
        self.availability.is_enabled()
    }

    pub fn order(&self) -> (r: usize)
        ensures
            r == self@.order,
    {
        self.order
    }
}

#[derive(Debug, PartialEq, Eq)]
pub struct CommandInvocation {
    pub id: CommandId,
}

#[derive(Debug, PartialEq, Eq)]
pub enum CommandResult {
    Invoked(CommandInvocation),
    Disabled(CommandId),
    NotFound(CommandId),
}

/// Registered commands have distinct identifiers, and each carries its
/// position in registration order as its order.
pub open spec fn registry_wf(cmds: Seq<CommandView>) -> bool {
    &&& forall|i: int, j: int|
        0 <= i < cmds.len() && 0 <= j < cmds.len() && i != j ==> #[trigger] cmds[i].id
            != #[trigger] cmds[j].id
    &&& forall|i: int| 0 <= i < cmds.len() ==> #[trigger] cmds[i].order == i
}

/// Whether a command is registered under `id`.
pub open spec fn has_id(cmds: Seq<CommandView>, id: Seq<char>) -> bool {
    exists|i: int| 0 <= i < cmds.len() && #[trigger] cmds[i].id == id
}

/// Whether a command matches a palette query that is already trimmed and in
/// lower case: the empty query matches everything, and otherwise the query
/// must occur in the lower-cased identifier, title, description or category
/// label.
pub open spec fn command_matches(c: CommandView, query: Seq<char>) -> bool {
    ||| query.len() == 0
    ||| contains_seq(unicode_lowercase(c.id), query)
    ||| contains_seq(unicode_lowercase(c.title), query)
    ||| (c.description matches Some(d) && contains_seq(unicode_lowercase(d), query))
    ||| contains_seq(unicode_lowercase(category_label(c.category)), query)
}

/// `f` places the items of `a` in `b`, in order: each item of `a` is the
/// item of `b` at its place, and later items have later places.
pub open spec fn places_in_order<A>(a: Seq<A>, b: Seq<A>, f: spec_fn(int) -> int) -> bool {
    &&& forall|i: int| 0 <= i < a.len() ==> 0 <= #[trigger] f(i) < b.len() && a[i] == b[f(i)]
    &&& forall|i: int, j: int| 0 <= i < j < a.len() ==> #[trigger] f(i) < #[trigger] f(j)
}

/// `a` is `b` with some items left out, the rest in their order.
pub open spec fn is_subsequence<A>(a: Seq<A>, b: Seq<A>) -> bool {
    exists|f: spec_fn(int) -> int| #[trigger] places_in_order(a, b, f)
}

/// Filtering keeps items in their order: the result is a subsequence.
pub proof fn lemma_filter_places_in_order<A>(s: Seq<A>, p: spec_fn(A) -> bool)
    ensures
        is_subsequence(s.filter(p), s),
    decreases s.len(),
{
    if s.len() == 0 {
        assert(s.filter(p) =~= Seq::<A>::empty()) by {
            reveal(Seq::filter);
        }
        let f = |i: int| i;
        assert(places_in_order(s.filter(p), s, f));
    } else {
        let init = s.drop_last();
        lemma_filter_places_in_order(init, p);
        let g = choose|g: spec_fn(int) -> int| #[trigger] places_in_order(init.filter(p), init, g);
        assert(s =~= init.push(s.last()));
        init.lemma_filter_push(s.last(), p);
        let fi = init.filter(p);
        if p(s.last()) {
            let f = |i: int| if i < fi.len() { g(i) } else { init.len() as int };
            assert forall|i: int| 0 <= i < s.filter(p).len() implies 0 <= #[trigger] f(i) < s.len()
                && s.filter(p)[i] == s[f(i)] by {
                if i < fi.len() {
                    assert(s.filter(p)[i] == fi[i]);
                    assert(0 <= g(i) < init.len() && fi[i] == init[g(i)]);
                }
            }
            assert forall|i: int, j: int| 0 <= i < j < s.filter(p).len() implies #[trigger] f(i)
                < #[trigger] f(j) by {
                if j < fi.len() {
                    assert(g(i) < g(j));
                } else {
                    assert(0 <= g(i) < init.len());
                }
            }
            assert(places_in_order(s.filter(p), s, f));
        } else {
            assert forall|i: int| 0 <= i < s.filter(p).len() implies 0 <= #[trigger] g(i) < s.len()
                && s.filter(p)[i] == s[g(i)] by {
                assert(0 <= g(i) < init.len() && fi[i] == init[g(i)]);
            }
            assert(places_in_order(s.filter(p), s, g));
        }
    }
}

/// Filtering commands by a query leaves some of them out and keeps the
/// rest in registration order.
pub proof fn law_filter_is_subsequence(cmds: Seq<CommandView>, q: Seq<char>)
    ensures
        is_subsequence(cmds.filter(|c: CommandView| command_matches(c, q)), cmds),
{
    lemma_filter_places_in_order(cmds, |c: CommandView| command_matches(c, q));
}

/// A command is kept by a query that occurs in its lower-cased id, title,
/// description or category label: each of the four is searched.
pub proof fn law_filter_keeps_commands_naming_the_query(cmds: Seq<CommandView>, q: Seq<char>)
    ensures
        forall|i: int|
            #![trigger cmds[i]]
            0 <= i < cmds.len() && (contains_seq(unicode_lowercase(cmds[i].id), q) || contains_seq(
                unicode_lowercase(cmds[i].title),
                q,
            ) || (cmds[i].description matches Some(d) && contains_seq(unicode_lowercase(d), q))
                || contains_seq(unicode_lowercase(category_label(cmds[i].category)), q))
                ==> cmds.filter(|c: CommandView| command_matches(c, q)).contains(cmds[i]),
{
    let p = |c: CommandView| command_matches(c, q);
    assert forall|i: int|
        #![trigger cmds[i]]
        0 <= i < cmds.len() && (contains_seq(unicode_lowercase(cmds[i].id), q) || contains_seq(
            unicode_lowercase(cmds[i].title),
            q,
        ) || (cmds[i].description matches Some(d) && contains_seq(unicode_lowercase(d), q))
            || contains_seq(unicode_lowercase(category_label(cmds[i].category)), q)) implies cmds.filter(
        p,
    ).contains(cmds[i]) by {
        assert(p(cmds[i]));
        cmds.lemma_filter_contains(p, i);
    }
}

/// The commands of `cmds` that `q` names, in order.
pub open spec fn query_filter(cmds: Seq<CommandView>, q: Seq<char>) -> Seq<CommandView> {
    cmds.filter(|c: CommandView| command_matches(c, q))
}

/// Only commands of the list that the query names are kept: the query is
/// empty, or it occurs in the command's lower-cased id, title, description
/// or category label.
pub proof fn law_filter_keeps_only_commands_naming_the_query(cmds: Seq<CommandView>, q: Seq<char>)
    ensures
        forall|c: CommandView|
            #[trigger] query_filter(cmds, q).contains(c) ==> cmds.contains(c)
                && (q.len() == 0 || contains_seq(unicode_lowercase(c.id), q) || contains_seq(
                unicode_lowercase(c.title),
                q,
            ) || (c.description matches Some(d) && contains_seq(unicode_lowercase(d), q))
                || contains_seq(unicode_lowercase(category_label(c.category)), q)),
{
    let p = |c: CommandView| command_matches(c, q);
    assert forall|c: CommandView| #[trigger] query_filter(cmds, q).contains(c) implies cmds.contains(c) && p(c) by {
        assert(query_filter(cmds, q) == cmds.filter(p));
        cmds.lemma_filter_contains_rev(p, c);
        let i = choose|i: int| 0 <= i < cmds.filter(p).len() && cmds.filter(p)[i] == c;
        cmds.lemma_filter_pred(p, i);
    }
}

/// An empty query keeps every command.
pub proof fn law_empty_query_keeps_every_command(cmds: Seq<CommandView>, q: Seq<char>)
    requires
        q.len() == 0,
    ensures
        cmds.filter(|c: CommandView| command_matches(c, q)) == cmds,
    decreases cmds.len(),
{
    let p = |c: CommandView| command_matches(c, q);
    if cmds.len() == 0 {
        assert(cmds.filter(p) =~= cmds) by {
            reveal(Seq::filter);
        }
    } else {
        law_empty_query_keeps_every_command(cmds.drop_last(), q);
        assert(cmds =~= cmds.drop_last().push(cmds.last()));
        cmds.drop_last().lemma_filter_push(cmds.last(), p);
    }
}

/// The commands of the editor, in registration order.
#[derive(Debug)]
pub struct CommandRegistry {
    commands: Vec<RegisteredCommand>,
    next_order: usize,
}

impl View for CommandRegistry {
    type V = Seq<CommandView>;

    closed spec fn view(&self) -> Seq<CommandView> {
        self.commands@.map_values(|c: RegisteredCommand| c@)
    }
}

impl CommandRegistry {
    #[verifier::type_invariant]
    closed spec fn inv(self) -> bool {
        &&& registry_wf(self.commands@.map_values(|c: RegisteredCommand| c@))
        &&& self.next_order == self.commands@.len()
    }

    pub fn new() -> (r: Self)
        ensures
            r@.len() == 0,
    {
        let r = CommandRegistry { commands: Vec::new(), next_order: 0 };
        assert(r@ =~= Seq::<CommandView>::empty());
        r
    }

    /// The registry's invariant, as callers may rely on it.
    pub fn wf(&self) -> (r: bool)
        ensures
            r,
            registry_wf(self@),
    {
        proof {
            use_type_invariant(self);
        }
        true
    }

    /// Adds `command` last, with the next order; refused when a command with
    /// the same identifier is registered.
    pub fn register(&mut self, command: RegisteredCommand) -> (r: Result<(), CommandRegistryError>)
        requires
            old(self)@.len() < usize::MAX,
        ensures
            has_id(old(self)@, command@.id) ==> (r matches Err(
                CommandRegistryError::DuplicateCommandId(id),
            ) && id@ == command@.id) && final(self)@ == old(self)@,
            !has_id(old(self)@, command@.id) ==> r is Ok && final(self)@ == old(self)@.push(
                CommandView { order: old(self)@.len() as usize, ..command@ },
            ),
            registry_wf(final(self)@),
    {
        proof {
            use_type_invariant(&*self);
        }
        let ghost views = self@;
        let n = self.commands.len();
        let mut i: usize = 0;
        while i < n
            invariant
                n == self.commands@.len(),
                views == self.commands@.map_values(|c: RegisteredCommand| c@),
                i <= n,
                forall|j: int| 0 <= j < i ==> views[j].id != command@.id,
                registry_wf(views),
            decreases n - i,
        {
            if str_eq(self.commands[i].id.as_str(), command.id.as_str()) {
                assert(views[i as int].id == command@.id);
                return Err(CommandRegistryError::DuplicateCommandId(command.id.clone()));
            }
            i = i + 1;
        }
        let mut command = command;
        command.order = self.next_order;
        let ghost added = command@;
        let mut taken = CommandRegistry::new();
        std::mem::swap(&mut taken, self);
        let CommandRegistry { mut commands, next_order } = taken;
        commands.push(command);
        assert(commands@.map_values(|c: RegisteredCommand| c@) =~= views.push(added));
        *self = CommandRegistry { commands, next_order: next_order + 1 };
        Ok(())
    }

    /// The command registered under `id`.
    pub fn get(&self, id: &CommandId) -> (r: Option<&RegisteredCommand>)
        ensures
            r is None <==> !has_id(self@, id@),
            r matches Some(c) ==> c@.id == id@ && self@.contains(c@),
            registry_wf(self@),
    {
        proof {
            use_type_invariant(self);
        }
        let n = self.commands.len();
        let mut i: usize = 0;
        while i < n
            invariant
                n == self.commands@.len(),
                i <= n,
                forall|j: int| 0 <= j < i ==> self@[j].id != id@,
                registry_wf(self@),
            decreases n - i,
        {
            if str_eq(self.commands[i].id.as_str(), id.as_str()) {
                assert(self@[i as int] == self.commands@[i as int]@);
                assert(self@[i as int].id == id@);
                return Some(&self.commands[i]);
            }
            i = i + 1;
        }
        None
    }

    /// All commands, in registration order.
    pub fn all(&self) -> (r: Vec<&RegisteredCommand>)
        ensures
            r@.len() == self@.len(),
            forall|i: int| 0 <= i < r@.len() ==> #[trigger] r@[i]@ == self@[i],
            registry_wf(self@),
    {
        proof {
            use_type_invariant(self);
        }
        let mut out: Vec<&RegisteredCommand> = Vec::new();
        let n = self.commands.len();
        let mut i: usize = 0;
        while i < n
            invariant
                n == self.commands@.len(),
                i <= n,
                out@.len() == i,
                forall|j: int| 0 <= j < i ==> #[trigger] out@[j]@ == self@[j],
            decreases n - i,
        {
            out.push(&self.commands[i]);
            i = i + 1;
        }
        out
    }

    /// The commands that match `query` (trimmed and lower-cased), in
    /// registration order.
    pub fn filter(&self, query: &str) -> (r: Vec<&RegisteredCommand>)
        ensures
            r@.map_values(|c: &RegisteredCommand| c@) == self@.filter(
                |c: CommandView| command_matches(c, unicode_lowercase(trim(query@))),
            ),
            trim(query@).len() == 0 ==> r@.map_values(|c: &RegisteredCommand| c@) == self@,
            is_subsequence(r@.map_values(|c: &RegisteredCommand| c@), self@),
            forall|i: int|
                #![trigger self@[i]]
                0 <= i < self@.len() && contains_seq(
                    unicode_lowercase(self@[i].title),
                    unicode_lowercase(trim(query@)),
                ) ==> r@.map_values(|c: &RegisteredCommand| c@).contains(self@[i]),
            forall|j: int|
                #![trigger r@[j]]
                0 <= j < r@.len() ==> self@.contains(r@[j]@) && ({
                    let q = unicode_lowercase(trim(query@));
                    let c = r@[j]@;
                    ||| q.len() == 0
                    ||| contains_seq(unicode_lowercase(c.id), q)
                    ||| contains_seq(unicode_lowercase(c.title), q)
                    ||| (c.description matches Some(d) && contains_seq(unicode_lowercase(d), q))
                    ||| contains_seq(unicode_lowercase(category_label(c.category)), q)
                }),
    {
        let trimmed = trim_str(query);
        let q = unicode_lowercase_str(trimmed.as_str());
        let ghost pred = |c: CommandView| command_matches(c, unicode_lowercase(trim(query@)));
        let mut out: Vec<&RegisteredCommand> = Vec::new();
        let n = self.commands.len();
        let mut i: usize = 0;
        while i < n
            invariant
                n == self.commands@.len(),
                i <= n,
                q@ == unicode_lowercase(trim(query@)),
                pred == (|c: CommandView| command_matches(c, unicode_lowercase(trim(query@)))),
                out@.map_values(|c: &RegisteredCommand| c@) == self@.take(i as int).filter(pred),
            decreases n - i,
        {
            let c = &self.commands[i];
            let matched = Self::matches(c, q.as_str());
            proof {
                reveal_with_fuel(Seq::filter, 1);
                assert(self@.take(i + 1).drop_last() =~= self@.take(i as int));
                assert(self@.take(i + 1).last() == c@);
            }
            let ghost before = out@;
            if matched {
                out.push(c);
                assert(out@.map_values(|c: &RegisteredCommand| c@) =~= before.map_values(
                    |c: &RegisteredCommand| c@,
                ).push(c@));
            }
            i = i + 1;
        }
        assert(self@.take(n as int) =~= self@);
        proof {
            law_filter_is_subsequence(self@, q@);
            law_filter_keeps_commands_naming_the_query(self@, q@);
            law_filter_keeps_only_commands_naming_the_query(self@, q@);
            assert forall|j: int| 0 <= j < out@.len() implies query_filter(self@, q@).contains(#[trigger] out@[j]@) by {
                assert(out@.map_values(|c: &RegisteredCommand| c@)[j] == out@[j]@);
            }
            if trim(query@).len() == 0 {
                law_empty_query_keeps_every_command(self@, q@);
            }
        }
        out
    }

    fn matches(command: &RegisteredCommand, query: &str) -> (r: bool)
        ensures
            r == command_matches(command@, query@),
    {
        if query.unicode_len() == 0 {
            return true;
        }
        let id = unicode_lowercase_str(command.id.as_str());
        if str_contains(id.as_str(), query) {
            return true;
        }
        let title = unicode_lowercase_str(command.title.as_str());
        if str_contains(title.as_str(), query) {
            return true;
        }
        match &command.description {
            Some(d) => {
                let d = unicode_lowercase_str(d.as_str());
                if str_contains(d.as_str(), query) {
                    return true;
                }
            },
            None => {},
        }
        let label = unicode_lowercase_str(command.category.label());
        str_contains(label.as_str(), query)
    }

    /// Invokes the command registered under `id`: not found, disabled, or
    /// invoked.
    pub fn invoke(&self, id: &CommandId) -> (r: CommandResult)
        ensures
            !has_id(self@, id@) ==> (r matches CommandResult::NotFound(x) && x@ == id@),
            has_id(self@, id@) ==> forall|i: int|
                0 <= i < self@.len() && #[trigger] self@[i].id == id@ ==> if self@[i].availability.enabled {
                    r matches CommandResult::Invoked(inv) && inv.id@ == id@
                } else {
                    r matches CommandResult::Disabled(x) && x@ == id@
                },
    {
        match self.get(id) {
            None => CommandResult::NotFound(id.clone()),
            Some(command) => {
                if !command.enabled() {
                    CommandResult::Disabled(id.clone())
                } else {
                    CommandResult::Invoked(CommandInvocation { id: id.clone() })
                }
            },
        }
    }
}

impl Default for CommandRegistry {
    fn default() -> (r: Self)
        ensures
            r@.len() == 0,
    {
        Self::new()
    }
}

/// A command registered under a fresh identifier is the one found under that
/// identifier afterwards, and the registry stays well formed.
pub proof fn law_lookup_after_register(cmds: Seq<CommandView>, c: CommandView)
    requires
        registry_wf(cmds),
        !has_id(cmds, c.id),
        cmds.len() < usize::MAX,
    ensures
        ({
            let added = CommandView { order: cmds.len() as usize, ..c };
            let after = cmds.push(added);
            &&& has_id(after, c.id)
            &&& forall|i: int| 0 <= i < after.len() && #[trigger] after[i].id == c.id ==> after[i]
                == added
            &&& registry_wf(after)
        }),
{
    let added = CommandView { order: cmds.len() as usize, ..c };
    let after = cmds.push(added);
    assert(after[cmds.len() as int] == added);
    assert(after[cmds.len() as int].id == c.id);
    assert(has_id(after, c.id));
    assert forall|i: int, j: int|
        0 <= i < after.len() && 0 <= j < after.len() && i != j implies #[trigger] after[i].id
        != #[trigger] after[j].id by {
        if i < cmds.len() && j < cmds.len() {
            assert(after[i] == cmds[i] && after[j] == cmds[j]);
        } else if i < cmds.len() {
            assert(after[i] == cmds[i]);
        } else {
            assert(after[j] == cmds[j]);
        }
    }
    assert forall|i: int| 0 <= i < after.len() implies #[trigger] after[i].order == i by {
        if i < cmds.len() {
            assert(after[i] == cmds[i]);
        }
    }
    assert forall|i: int| 0 <= i < after.len() && #[trigger] after[i].id == c.id implies after[i]
        == added by {
        if i < cmds.len() {
            assert(after[i] == cmds[i]);
            assert(has_id(cmds, c.id));
        }
    }
}

} // verus!
