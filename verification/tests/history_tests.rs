use elcarax::error::ElcaraxError;
use elcarax::history::{CommandEffect, CommandHistory, EditorCommand, RedoCommand, UndoCommand};
use elcarax::id::IdGenerator;
use elcarax::workspace::{Workspace, WorkspaceMarker};

struct AddOne {
    fail: bool,
}

impl EditorCommand<i64> for AddOne {
    fn label(&self) -> &str {
        "Add One"
    }

    fn apply(&mut self, context: &mut i64) -> Result<CommandEffect, ElcaraxError> {
        if self.fail {
            return Err(ElcaraxError::invalid_input("refused"));
        }
        *context += 1;
        Ok(CommandEffect::SceneChanged)
    }

    fn revert(&mut self, context: &mut i64) -> Result<CommandEffect, ElcaraxError> {
        *context -= 1;
        Ok(CommandEffect::SceneChanged)
    }
}

#[test]
fn undo_and_redo_move_commands_between_stacks() {
    let mut value = 0i64;
    let mut history = CommandHistory::new();
    assert_eq!(history.execute(AddOne { fail: false }, &mut value), Ok(CommandEffect::SceneChanged));
    assert_eq!(history.execute(AddOne { fail: false }, &mut value), Ok(CommandEffect::SceneChanged));
    assert_eq!(value, 2);
    assert_eq!(UndoCommand::apply(&mut history, &mut value), Ok(Some(CommandEffect::SceneChanged)));
    assert_eq!(value, 1);
    assert_eq!((history.undo_count(), history.redo_count()), (1, 1));
    assert_eq!(RedoCommand::apply(&mut history, &mut value), Ok(Some(CommandEffect::SceneChanged)));
    assert_eq!(value, 2);
    assert_eq!((history.undo_count(), history.redo_count()), (2, 0));
}

#[test]
fn a_new_edit_clears_redo() {
    let mut value = 0i64;
    let mut history = CommandHistory::new();
    let _ = history.execute(AddOne { fail: false }, &mut value);
    let _ = history.undo(&mut value);
    assert_eq!(history.redo_count(), 1);
    let _ = history.execute(AddOne { fail: false }, &mut value);
    assert_eq!(history.redo_count(), 0);
}

#[test]
fn failed_edit_leaves_history_alone() {
    let mut value = 0i64;
    let mut history = CommandHistory::new();
    assert!(history.execute(AddOne { fail: true }, &mut value).is_err());
    assert_eq!((history.undo_count(), history.redo_count()), (0, 0));
    assert_eq!(history.undo(&mut value), Ok(None));
    assert_eq!(history.redo(&mut value), Ok(None));
}

#[test]
fn workspaces_get_fresh_ids() {
    let mut ids = IdGenerator::<WorkspaceMarker>::new();
    let a = Workspace::new(&mut ids, "Game", "/game");
    let b = Workspace::new(&mut ids, "Tools", "/tools");
    assert!(a.id().get() < b.id().get());
    assert_eq!(a.name(), "Game");
    assert_eq!(b.root_path(), "/tools");
    assert_eq!(ElcaraxError::not_found("x").message().is_empty(), false);
}

#[test]
fn recorded_outcomes_move_the_given_command() {
    let mut history: CommandHistory<u32> = CommandHistory::new();
    assert_eq!(history.record_executed(7, Ok(CommandEffect::SceneChanged)), Ok(CommandEffect::SceneChanged));
    assert_eq!(history.record_executed(8, Err(ElcaraxError::Internal("no".to_string()))), Err(ElcaraxError::Internal("no".to_string())));
    assert_eq!(history.undo_count(), 1);
    let taken = history.take_undo();
    assert_eq!(taken, Some(7));
    assert_eq!(history.record_undone(70, Ok(CommandEffect::NoChange)), Ok(Some(CommandEffect::NoChange)));
    assert_eq!(history.redo_count(), 1);
    assert_eq!(history.take_redo(), Some(70));
    assert_eq!(history.record_redone(71, Err(ElcaraxError::Internal("x".to_string()))), Err(ElcaraxError::Internal("x".to_string())));
    assert_eq!(history.undo_count(), 0);
    assert_eq!(history.redo_count(), 0);
    assert_eq!(history.take_undo(), None);
}
