//! Undo/redo history of editor commands.
use crate::error::ElcaraxError;
use vstd::prelude::*;

verus! {

#[derive(Debug, Clone, Copy, PartialEq, Eq, Structural)]
pub enum CommandEffect {
    NoChange,
    SceneChanged,
    ProjectChanged,
    UiChanged,
}

/// An undoable edit. `Context` is what the edit changes (for the editor, the
/// scene being edited).
pub trait EditorCommand<Context> {
    fn label(&self) -> &str;

    fn apply(&mut self, context: &mut Context) -> Result<CommandEffect, ElcaraxError>;

    fn revert(&mut self, context: &mut Context) -> Result<CommandEffect, ElcaraxError>;
}

pub struct HistoryView<C> {
    pub undo: Seq<C>,
    pub redo: Seq<C>,
}

/// `after` is `before` with one more command to undo and nothing to redo.
pub open spec fn executed<C>(before: HistoryView<C>, after: HistoryView<C>) -> bool {
    &&& after.undo.len() == before.undo.len() + 1
    &&& after.undo.take(before.undo.len() as int) == before.undo
    &&& after.redo.len() == 0
}

/// `after` is `before` with its last undoable command moved to the redo stack.
pub open spec fn undone<C>(before: HistoryView<C>, after: HistoryView<C>) -> bool {
    &&& before.undo.len() > 0
    &&& after.undo == before.undo.drop_last()
    &&& after.redo.len() == before.redo.len() + 1
    &&& after.redo.take(before.redo.len() as int) == before.redo
}

/// `after` is `before` with its last redoable command moved to the undo stack.
pub open spec fn redone<C>(before: HistoryView<C>, after: HistoryView<C>) -> bool {
    &&& before.redo.len() > 0
    &&& after.redo == before.redo.drop_last()
    &&& after.undo.len() == before.undo.len() + 1
    &&& after.undo.take(before.undo.len() as int) == before.undo
}

/// `after` is `before` with `c` as its last undoable command and nothing
/// to redo.
pub open spec fn recorded_executed<C>(before: HistoryView<C>, after: HistoryView<C>, c: C) -> bool {
    &&& after.undo == before.undo.push(c)
    &&& after.redo.len() == 0
}

/// `after` is `before` with its last undoable command taken off and `c`,
/// that command as its revert left it, put on the redo stack.
pub open spec fn recorded_undone<C>(before: HistoryView<C>, after: HistoryView<C>, c: C) -> bool {
    &&& before.undo.len() > 0
    &&& after.undo == before.undo.drop_last()
    &&& after.redo == before.redo.push(c)
}

/// `after` is `before` with its last redoable command taken off and `c`,
/// that command as its apply left it, put on the undo stack.
pub open spec fn recorded_redone<C>(before: HistoryView<C>, after: HistoryView<C>, c: C) -> bool {
    &&& before.redo.len() > 0
    &&& after.redo == before.redo.drop_last()
    &&& after.undo == before.undo.push(c)
}

/// The undo and redo stacks of applied edits.
pub struct CommandHistory<C> {
    undo_stack: Vec<C>,
    redo_stack: Vec<C>,
}

impl<C> View for CommandHistory<C> {
    type V = HistoryView<C>;

    closed spec fn view(&self) -> HistoryView<C> {
        HistoryView { undo: self.undo_stack@, redo: self.redo_stack@ }
    }
}

impl<C> CommandHistory<C> {
    pub fn new() -> (r: Self)
        ensures
            r@.undo.len() == 0,
            r@.redo.len() == 0,
    {
        CommandHistory { undo_stack: Vec::new(), redo_stack: Vec::new() }
    }

    /// Applies `command`; when it succeeds it becomes the last undoable
    /// command and the redo stack is cleared. A failed command is dropped and
    /// the history is unchanged.
    pub fn execute<X>(&mut self, command: C, context: &mut X) -> (r: Result<
        CommandEffect,
        ElcaraxError,
    >) where C: EditorCommand<X>
        ensures
            r is Ok ==> executed(old(self)@, final(self)@),
            r is Err ==> final(self)@ == old(self)@,
    {
        let mut command = command;
        let outcome = command.apply(context);
        let ghost before = self@;
        let r = self.record_executed(command, outcome);
        assert(self@.undo.take(before.undo.len() as int) =~= before.undo);
        r
    }

    /// Records the outcome of applying `command`: on success it becomes
    /// the last undoable command and the redo stack is cleared; a failure
    /// leaves the history as it was. The outcome is handed back.
    pub fn record_executed(&mut self, command: C, outcome: Result<CommandEffect, ElcaraxError>) -> (r:
        Result<CommandEffect, ElcaraxError>)
        ensures
            r == outcome,
            outcome is Ok ==> recorded_executed(old(self)@, final(self)@, command),
            outcome is Err ==> final(self)@ == old(self)@,
    {
        match outcome {
            Ok(effect) => {
                self.undo_stack.push(command);
                self.redo_stack.clear();
                Ok(effect)
            },
            Err(e) => Err(e),
        }
    }

    /// Takes the last undoable command off the undo stack.
    pub fn take_undo(&mut self) -> (r: Option<C>)
        ensures
            old(self)@.undo.len() == 0 ==> r is None && final(self)@ == old(self)@,
            old(self)@.undo.len() > 0 ==> r == Some(old(self)@.undo.last()) && final(self)@.undo
                == old(self)@.undo.drop_last() && final(self)@.redo == old(self)@.redo,
    {
        self.undo_stack.pop()
    }

    /// Records the outcome of reverting `command`, the command taken by
    /// `take_undo`: on success it goes on the redo stack; a failed command
    /// is dropped.
    pub fn record_undone(&mut self, command: C, outcome: Result<CommandEffect, ElcaraxError>) -> (r:
        Result<Option<CommandEffect>, ElcaraxError>)
        ensures
            match outcome {
                Ok(e) => r == Ok::<Option<CommandEffect>, ElcaraxError>(Some(e)) && final(self)@.redo
                    == old(self)@.redo.push(command) && final(self)@.undo == old(self)@.undo,
                Err(e) => r == Err::<Option<CommandEffect>, ElcaraxError>(e) && final(self)@ == old(
                    self)@,
            },
    {
        match outcome {
            Ok(effect) => {
                self.redo_stack.push(command);
                Ok(Some(effect))
            },
            Err(e) => Err(e),
        }
    }

    /// Takes the last redoable command off the redo stack.
    pub fn take_redo(&mut self) -> (r: Option<C>)
        ensures
            old(self)@.redo.len() == 0 ==> r is None && final(self)@ == old(self)@,
            old(self)@.redo.len() > 0 ==> r == Some(old(self)@.redo.last()) && final(self)@.redo
                == old(self)@.redo.drop_last() && final(self)@.undo == old(self)@.undo,
    {
        self.redo_stack.pop()
    }

    /// Records the outcome of applying `command` again, the command taken
    /// by `take_redo`: on success it goes back on the undo stack; a failed
    /// command is dropped.
    pub fn record_redone(&mut self, command: C, outcome: Result<CommandEffect, ElcaraxError>) -> (r:
        Result<Option<CommandEffect>, ElcaraxError>)
        ensures
            match outcome {
                Ok(e) => r == Ok::<Option<CommandEffect>, ElcaraxError>(Some(e)) && final(self)@.undo
                    == old(self)@.undo.push(command) && final(self)@.redo == old(self)@.redo,
                Err(e) => r == Err::<Option<CommandEffect>, ElcaraxError>(e) && final(self)@ == old(
                    self)@,
            },
    {
        match outcome {
            Ok(effect) => {
                self.undo_stack.push(command);
                Ok(Some(effect))
            },
            Err(e) => Err(e),
        }
    }

    /// Reverts the last undoable command and moves it to the redo stack.
    /// With nothing to undo, nothing happens; a command whose revert fails is
    /// dropped.
    pub fn undo<X>(&mut self, context: &mut X) -> (r: Result<Option<CommandEffect>, ElcaraxError>) where
        C: EditorCommand<X>,
        ensures
            old(self)@.undo.len() == 0 ==> r == Ok::<Option<CommandEffect>, ElcaraxError>(None)
                && final(self)@ == old(self)@,
            old(self)@.undo.len() > 0 && r is Ok ==> (r matches Ok(Some(_))) && undone(
                old(self)@,
                final(self)@,
            ),
            old(self)@.undo.len() > 0 && r is Err ==> final(self)@.undo == old(self)@.undo.drop_last()
                && final(self)@.redo == old(self)@.redo,
    {
        let mut command = match self.take_undo() {
            Some(c) => c,
            None => {
                return Ok(None);
            },
        };
        let outcome = command.revert(context);
        let ghost before = self@;
        let r = self.record_undone(command, outcome);
        assert(self@.redo.take(before.redo.len() as int) =~= before.redo);
        r
    }

    /// Applies the last redoable command again and moves it back to the undo
    /// stack. With nothing to redo, nothing happens; a command whose apply
    /// fails is dropped.
    pub fn redo<X>(&mut self, context: &mut X) -> (r: Result<Option<CommandEffect>, ElcaraxError>) where
        C: EditorCommand<X>,
        ensures
            old(self)@.redo.len() == 0 ==> r == Ok::<Option<CommandEffect>, ElcaraxError>(None)
                && final(self)@ == old(self)@,
            old(self)@.redo.len() > 0 && r is Ok ==> (r matches Ok(Some(_))) && redone(
                old(self)@,
                final(self)@,
            ),
            old(self)@.redo.len() > 0 && r is Err ==> final(self)@.redo == old(self)@.redo.drop_last()
                && final(self)@.undo == old(self)@.undo,
    {
        let mut command = match self.take_redo() {
            Some(c) => c,
            None => {
                return Ok(None);
            },
        };
        let outcome = command.apply(context);
        let ghost before = self@;
        let r = self.record_redone(command, outcome);
        assert(self@.undo.take(before.undo.len() as int) =~= before.undo);
        r
    }

    pub fn undo_count(&self) -> (r: usize)
        ensures
            r == self@.undo.len(),
    {
        self.undo_stack.len()
    }

    pub fn redo_count(&self) -> (r: usize)
        ensures
            r == self@.redo.len(),
    {
        self.redo_stack.len()
    }
}

impl<C> Default for CommandHistory<C> {
    fn default() -> (r: Self)
        ensures
            r@.undo.len() == 0,
            r@.redo.len() == 0,
    {
        Self::new()
    }
}

/// Undoes the last edit of a history.
pub struct UndoCommand;

impl UndoCommand {
    pub fn apply<C, X>(history: &mut CommandHistory<C>, context: &mut X) -> (r: Result<
        Option<CommandEffect>,
        ElcaraxError,
    >) where C: EditorCommand<X>
        ensures
            old(history)@.undo.len() == 0 ==> r == Ok::<Option<CommandEffect>, ElcaraxError>(None)
                && final(history)@ == old(history)@,
            old(history)@.undo.len() > 0 && r is Ok ==> undone(old(history)@, final(history)@),
            old(history)@.undo.len() > 0 && r is Err ==> final(history)@.undo == old(
                history,
            )@.undo.drop_last() && final(history)@.redo == old(history)@.redo,
    {
        history.undo(context)
    }
}

/// Redoes the last undone edit of a history.
pub struct RedoCommand;

impl RedoCommand {
    pub fn apply<C, X>(history: &mut CommandHistory<C>, context: &mut X) -> (r: Result<
        Option<CommandEffect>,
        ElcaraxError,
    >) where C: EditorCommand<X>
        ensures
            old(history)@.redo.len() == 0 ==> r == Ok::<Option<CommandEffect>, ElcaraxError>(None)
                && final(history)@ == old(history)@,
            old(history)@.redo.len() > 0 && r is Ok ==> redone(old(history)@, final(history)@),
            old(history)@.redo.len() > 0 && r is Err ==> final(history)@.redo == old(
                history,
            )@.redo.drop_last() && final(history)@.undo == old(history)@.undo,
    {
        history.redo(context)
    }
}

/// Undoing right after an edit takes exactly that edit: the command undo
/// reverts is the one just recorded, and afterwards the undo stack is as it
/// was before the edit, with only the reverted command to redo.
pub proof fn law_undo_after_execute<C>(
    h0: HistoryView<C>,
    h1: HistoryView<C>,
    h2: HistoryView<C>,
    c: C,
    reverted: C,
)
    requires
        recorded_executed(h0, h1, c),
        recorded_undone(h1, h2, reverted),
    ensures
        h1.undo.last() == c,
        h2.undo == h0.undo,
        h2.redo == seq![reverted],
{
    assert(h1.undo.drop_last() =~= h0.undo);
    assert(h2.redo =~= seq![reverted]);
}

/// Redoing right after an undo takes exactly the command just undone, and
/// restores the redo stack and the undo stack below its new top.
pub proof fn law_redo_after_undo<C>(
    h0: HistoryView<C>,
    h1: HistoryView<C>,
    h2: HistoryView<C>,
    reverted: C,
    reapplied: C,
)
    requires
        recorded_undone(h0, h1, reverted),
        recorded_redone(h1, h2, reapplied),
    ensures
        h1.redo.last() == reverted,
        h2.redo == h0.redo,
        h2.undo == h0.undo.drop_last().push(reapplied),
{
    assert(h1.redo.drop_last() =~= h0.redo);
}

/// Undoing right after a redo takes exactly the command just redone, and
/// restores the undo stack and the redo stack below its new top.
pub proof fn law_undo_after_redo<C>(
    h0: HistoryView<C>,
    h1: HistoryView<C>,
    h2: HistoryView<C>,
    reapplied: C,
    reverted: C,
)
    requires
        recorded_redone(h0, h1, reapplied),
        recorded_undone(h1, h2, reverted),
    ensures
        h1.undo.last() == reapplied,
        h2.undo == h0.undo,
        h2.redo == h0.redo.drop_last().push(reverted),
{
    assert(h1.undo.drop_last() =~= h0.undo);
}

} // verus!
