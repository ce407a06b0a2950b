//! The commands the editor registers at start-up.
use crate::command::{
    CommandCategory, CommandDescription, CommandId, CommandPresentation, CommandRegistryError,
    CommandShortcut, CommandTitle, CommandToolbarPlacement, KeyBinding, KeyChord, KeyModifier,
    normalize_key, supported_key, sorted_modifier_set, AvailabilityView, CommandScope,
    KeyBindingView, KeyChordView, PresentationView, ToolbarPlacementView,
};
use crate::registry::{CommandRegistry, CommandView, RegisteredCommand, has_id};
use crate::bindings::{
    bindings_of_commands, conflict_key, group_of, register_entries, shortcut_entries,
    BindingDiagnosticView, BindingRegistryView, RegisteredBindingView,
};
use crate::text::{all_whitespace, ascii_upper_seq, trim};
use vstd::prelude::*;

verus! {

/// The identifiers of the built-in commands, in registration order.
pub open spec fn builtin_command_ids() -> Seq<Seq<char>> {
    seq![
        "elcarax.palette.open"@,
        "elcarax.palette.close"@,
        "project.create"@,
        "project.open"@,
        "project.close"@,
        "project.validate"@,
        "project.show_recent"@,
        "project.reopen_last"@,
        "asset.scan"@,
        "asset.refresh"@,
        "asset.start_watching"@,
        "asset.stop_watching"@,
        "asset.clear_selection"@,
        "asset.show_selected"@,
        "asset.reveal_root"@,
        "scene.load"@,
        "scene.save"@,
        "scene.clear"@,
        "scene.clear_selection"@,
        "inspector.clear"@,
        "edit.undo"@,
        "edit.redo"@,
        "adapter.connect"@,
        "adapter.handshake"@,
        "adapter.load_project"@,
        "adapter.disconnect"@,
        "adapter.show_status"@,
        "adapter.show_diagnostics"@,
        "adapter.load_scene"@,
        "viewport.request_frame"@,
        "viewport.clear"@,
        "viewport.show_status"@,
        "help.shortcuts"@,
        "help.commands"@,
        "elcarax.status.show_renderer_stats"@,
        "elcarax.status.show_ready"@
    ]
}

/// A global binding of `key` with the modifiers `mods`.
pub open spec fn global_binding(mods: Seq<KeyModifier>, key: Seq<char>) -> KeyBindingView {
    KeyBindingView { chord: KeyChordView { modifiers: mods, key }, scope: CommandScope::Global }
}

/// A built-in command: enabled, listed in the palette, with the given
/// shortcuts and toolbar placement, at position `order`.
pub open spec fn builtin(
    id: Seq<char>,
    title: Seq<char>,
    description: Seq<char>,
    category: CommandCategory,
    shortcuts: Seq<KeyBindingView>,
    toolbar: Option<ToolbarPlacementView>,
    order: usize,
) -> CommandView {
    CommandView {
        id,
        title,
        description: Some(description),
        category,
        shortcuts,
        availability: AvailabilityView { enabled: true, disabled_reason: None },
        presentation: PresentationView { palette_visible: true, toolbar },
        order,
    }
}

/// A place on the toolbar.
pub open spec fn on_toolbar(section: CommandCategory, order: usize, label: Seq<char>) -> Option<
    ToolbarPlacementView,
> {
    Some(ToolbarPlacementView { section, order, short_label: label })
}

/// The built-in command at position `i`, as it is registered.
pub open spec fn builtin_view(i: int) -> CommandView {
    if i == 0 {
        builtin(
            "elcarax.palette.open"@,
            "Open Command Palette"@,
            "Open the command palette overlay"@,
            CommandCategory::Window,
            seq![global_binding(seq![KeyModifier::Control], "K"@)],
            None,
            0,
        )
    } else if i == 1 {
        builtin(
            "elcarax.palette.close"@,
            "Close Command Palette"@,
            "Close the command palette overlay"@,
            CommandCategory::Window,
            Seq::empty(),
            None,
            1,
        )
    } else if i == 2 {
        builtin(
            "project.create"@,
            "Create Project"@,
            "Create a project at the configured project path"@,
            CommandCategory::Project,
            seq![global_binding(seq![KeyModifier::Control], "N"@)],
            on_toolbar(CommandCategory::Project, 0, "New"@),
            2,
        )
    } else if i == 3 {
        builtin(
            "project.open"@,
            "Open Project"@,
            "Open a project from the configured project path"@,
            CommandCategory::Project,
            seq![global_binding(seq![KeyModifier::Control], "O"@)],
            on_toolbar(CommandCategory::Project, 1, "Open"@),
            3,
        )
    } else if i == 4 {
        builtin(
            "project.close"@,
            "Close Project"@,
            "Return to no-project state"@,
            CommandCategory::Project,
            Seq::empty(),
            None,
            4,
        )
    } else if i == 5 {
        builtin(
            "project.validate"@,
            "Validate Project"@,
            "Validate the current project manifest and paths"@,
            CommandCategory::Project,
            Seq::empty(),
            None,
            5,
        )
    } else if i == 6 {
        builtin(
            "project.show_recent"@,
            "Show Recent Projects"@,
            "Show the recent projects summary"@,
            CommandCategory::Project,
            Seq::empty(),
            None,
            6,
        )
    } else if i == 7 {
        builtin(
            "project.reopen_last"@,
            "Reopen Last Project"@,
            "Open the most recent project when available"@,
            CommandCategory::Project,
            seq![global_binding(seq![KeyModifier::Control, KeyModifier::Shift], "O"@)],
            None,
            7,
        )
    } else if i == 8 {
        builtin(
            "asset.scan"@,
            "Scan Assets"@,
            "Scan assets when an asset root is loaded"@,
            CommandCategory::Asset,
            Seq::empty(),
            on_toolbar(CommandCategory::Asset, 5, "Scan"@),
            8,
        )
    } else if i == 9 {
        builtin(
            "asset.refresh"@,
            "Refresh Assets"@,
            "Rescan the loaded project's asset root and clear dirty state"@,
            CommandCategory::Asset,
            Seq::empty(),
            on_toolbar(CommandCategory::Asset, 6, "Refresh"@),
            9,
        )
    } else if i == 10 {
        builtin(
            "asset.start_watching"@,
            "Start Asset Watcher"@,
            "Watch the loaded project's asset root for filesystem changes"@,
            CommandCategory::Asset,
            Seq::empty(),
            None,
            10,
        )
    } else if i == 11 {
        builtin(
            "asset.stop_watching"@,
            "Stop Asset Watcher"@,
            "Stop watching the current project asset root"@,
            CommandCategory::Asset,
            Seq::empty(),
            None,
            11,
        )
    } else if i == 12 {
        builtin(
            "asset.clear_selection"@,
            "Clear Asset Selection"@,
            "Clear the current asset selection"@,
            CommandCategory::Asset,
            Seq::empty(),
            None,
            12,
        )
    } else if i == 13 {
        builtin(
            "asset.show_selected"@,
            "Show Selected Asset"@,
            "Report the current selected asset"@,
            CommandCategory::Asset,
            Seq::empty(),
            None,
            13,
        )
    } else if i == 14 {
        builtin(
            "asset.reveal_root"@,
            "Reveal Asset Root"@,
            "Report the current project asset root path"@,
            CommandCategory::Asset,
            Seq::empty(),
            None,
            14,
        )
    } else if i == 15 {
        builtin(
            "scene.load"@,
            "Load Scene"@,
            "Load the active scene from the open project scene root"@,
            CommandCategory::Scene,
            Seq::empty(),
            None,
            15,
        )
    } else if i == 16 {
        builtin(
            "scene.save"@,
            "Save Scene"@,
            "Save the loaded project scene back to disk"@,
            CommandCategory::Scene,
            seq![global_binding(seq![KeyModifier::Control], "S"@)],
            on_toolbar(CommandCategory::Scene, 2, "Save"@),
            16,
        )
    } else if i == 17 {
        builtin(
            "scene.clear"@,
            "Clear Scene"@,
            "Unload the current scene"@,
            CommandCategory::Scene,
            Seq::empty(),
            None,
            17,
        )
    } else if i == 18 {
        builtin(
            "scene.clear_selection"@,
            "Clear Scene Selection"@,
            "Clear the current scene object selection"@,
            CommandCategory::Scene,
            Seq::empty(),
            None,
            18,
        )
    } else if i == 19 {
        builtin(
            "inspector.clear"@,
            "Clear Inspector"@,
            "Clear the inspector view"@,
            CommandCategory::Inspector,
            Seq::empty(),
            None,
            19,
        )
    } else if i == 20 {
        builtin(
            "edit.undo"@,
            "Undo"@,
            "Undo the last editor command"@,
            CommandCategory::Edit,
            seq![global_binding(seq![KeyModifier::Control], "Z"@)],
            on_toolbar(CommandCategory::Edit, 3, "Undo"@),
            20,
        )
    } else if i == 21 {
        builtin(
            "edit.redo"@,
            "Redo"@,
            "Redo the last undone editor command"@,
            CommandCategory::Edit,
            seq![global_binding(seq![KeyModifier::Control], "Y"@), global_binding(seq![KeyModifier::Control, KeyModifier::Shift], "Z"@)],
            on_toolbar(CommandCategory::Edit, 4, "Redo"@),
            21,
        )
    } else if i == 22 {
        builtin(
            "adapter.connect"@,
            "Connect Adapter"@,
            "Connect an adapter when adapter configuration is available"@,
            CommandCategory::Adapter,
            Seq::empty(),
            on_toolbar(CommandCategory::Adapter, 7, "Connect"@),
            22,
        )
    } else if i == 23 {
        builtin(
            "adapter.handshake"@,
            "Handshake Adapter"@,
            "Run the adapter handshake for the current adapter session"@,
            CommandCategory::Adapter,
            Seq::empty(),
            None,
            23,
        )
    } else if i == 24 {
        builtin(
            "adapter.load_project"@,
            "Load Adapter Project"@,
            "Send the current project path to the connected adapter"@,
            CommandCategory::Adapter,
            Seq::empty(),
            None,
            24,
        )
    } else if i == 25 {
        builtin(
            "adapter.disconnect"@,
            "Disconnect Adapter"@,
            "Disconnect the current adapter session"@,
            CommandCategory::Adapter,
            Seq::empty(),
            None,
            25,
        )
    } else if i == 26 {
        builtin(
            "adapter.show_status"@,
            "Show Adapter Status"@,
            "Report the current adapter connection state"@,
            CommandCategory::Adapter,
            Seq::empty(),
            None,
            26,
        )
    } else if i == 27 {
        builtin(
            "adapter.show_diagnostics"@,
            "Show Adapter Diagnostics"@,
            "Request and report adapter diagnostics"@,
            CommandCategory::Adapter,
            Seq::empty(),
            None,
            27,
        )
    } else if i == 28 {
        builtin(
            "adapter.load_scene"@,
            "Load Adapter Scene"@,
            "Request a scene snapshot from a connected adapter"@,
            CommandCategory::Adapter,
            Seq::empty(),
            None,
            28,
        )
    } else if i == 29 {
        builtin(
            "viewport.request_frame"@,
            "Request Viewport Frame"@,
            "Request a preview frame from the connected adapter"@,
            CommandCategory::Viewport,
            Seq::empty(),
            None,
            29,
        )
    } else if i == 30 {
        builtin(
            "viewport.clear"@,
            "Clear Viewport"@,
            "Clear the current viewport preview frame"@,
            CommandCategory::Viewport,
            Seq::empty(),
            None,
            30,
        )
    } else if i == 31 {
        builtin(
            "viewport.show_status"@,
            "Show Viewport Status"@,
            "Report the current viewport source and status"@,
            CommandCategory::Viewport,
            Seq::empty(),
            None,
            31,
        )
    } else if i == 32 {
        builtin(
            "help.shortcuts"@,
            "Show Shortcuts"@,
            "Report the default keybinding summary"@,
            CommandCategory::Help,
            Seq::empty(),
            None,
            32,
        )
    } else if i == 33 {
        builtin(
            "help.commands"@,
            "Show Commands"@,
            "Report the command registry summary"@,
            CommandCategory::Help,
            Seq::empty(),
            None,
            33,
        )
    } else if i == 34 {
        builtin(
            "elcarax.status.show_renderer_stats"@,
            "Show Renderer Stats"@,
            "Show current primitive, text, and glyph counts"@,
            CommandCategory::Developer,
            Seq::empty(),
            None,
            34,
        )
    } else {
        builtin(
            "elcarax.status.show_ready"@,
            "Show Ready Status"@,
            "Set the status label to ready"@,
            CommandCategory::Status,
            Seq::empty(),
            None,
            35,
        )
    }
}

/// A one-letter key, upper case already, is its own normal form.
pub proof fn lemma_upper_letter_key(key: Seq<char>)
    requires
        key.len() == 1,
        'A' <= key[0] <= 'Z',
    ensures
        normalize_key(key) == key,
{
    assert(!crate::text::is_whitespace_char(key[0]));
    assert(trim(key) == key);
    assert(ascii_upper_seq(key) =~= key);
}

/// The chords of the built-ins, normalized, are the ones they are written
/// as: Ctrl, or Ctrl then Shift, and the letters K, N, O, S, Y and Z.
pub proof fn lemma_builtin_chords()
    ensures
        sorted_modifier_set(seq![KeyModifier::Control]) == seq![KeyModifier::Control],
        sorted_modifier_set(seq![KeyModifier::Control, KeyModifier::Shift]) == seq![
            KeyModifier::Control,
            KeyModifier::Shift,
        ],
        normalize_key("K"@) == "K"@,
        normalize_key("N"@) == "N"@,
        normalize_key("O"@) == "O"@,
        normalize_key("S"@) == "S"@,
        normalize_key("Y"@) == "Y"@,
        normalize_key("Z"@) == "Z"@,
{
    let all = seq![KeyModifier::Control, KeyModifier::Shift, KeyModifier::Alt, KeyModifier::Super];
    let c = seq![KeyModifier::Control];
    let cs = seq![KeyModifier::Control, KeyModifier::Shift];
    reveal_with_fuel(Seq::filter, 5);
    assert(all.drop_last() =~= seq![KeyModifier::Control, KeyModifier::Shift, KeyModifier::Alt]);
    assert(all.drop_last().drop_last() =~= cs);
    assert(cs.drop_last() =~= c);
    assert(c.drop_last() =~= Seq::<KeyModifier>::empty());
    assert(!c.contains(KeyModifier::Super) && !c.contains(KeyModifier::Alt) && !c.contains(
        KeyModifier::Shift,
    ));
    assert(c.contains(KeyModifier::Control)) by {
        assert(c[0] == KeyModifier::Control);
    }
    assert(!cs.contains(KeyModifier::Super) && !cs.contains(KeyModifier::Alt));
    assert(cs.contains(KeyModifier::Control) && cs.contains(KeyModifier::Shift)) by {
        assert(cs[0] == KeyModifier::Control);
        assert(cs[1] == KeyModifier::Shift);
    }
    assert(all.filter(|m: KeyModifier| c.contains(m)) =~= c);
    assert(all.filter(|m: KeyModifier| cs.contains(m)) =~= cs);
    reveal_strlit("K");
    reveal_strlit("N");
    reveal_strlit("O");
    reveal_strlit("S");
    reveal_strlit("Y");
    reveal_strlit("Z");
    lemma_upper_letter_key("K"@);
    lemma_upper_letter_key("N"@);
    lemma_upper_letter_key("O"@);
    lemma_upper_letter_key("S"@);
    lemma_upper_letter_key("Y"@);
    lemma_upper_letter_key("Z"@);
}

/// The built-in commands, in registration order.
pub open spec fn builtin_command_views() -> Seq<CommandView> {
    Seq::new(36, |i: int| builtin_view(i))
}

fn registered(id: &str, title: &str, description: &str, category: CommandCategory) -> (r:
    RegisteredCommand)
    requires
        !all_whitespace(id@),
        !all_whitespace(title@),
    ensures
        r@.id == id@,
        r@.title == title@,
        r@.description == Some(description@),
        r@.category == category,
        r@.shortcuts.len() == 0,
        r@.availability.enabled,
        r@.presentation.palette_visible,
        r@.presentation.toolbar is None,
        r@ == builtin(id@, title@, description@, category, Seq::empty(), None, 0),
{
    let id = match CommandId::new(id) {
        Ok(id) => id,
        Err(_) => {
            assert(false);
            return RegisteredCommand::new(
                CommandId::new(id).unwrap(),
                CommandTitle::new(title).unwrap(),
                None,
                category,
            );
        },
    };
    let title = match CommandTitle::new(title) {
        Ok(t) => t,
        Err(_) => {
            assert(false);
            return RegisteredCommand::new(id, CommandTitle::new(title).unwrap(), None, category);
        },
    };
    let r = RegisteredCommand::new(id, title, Some(CommandDescription::new(description)), category);
    assert(r@.shortcuts =~= Seq::<KeyBindingView>::empty());
    r
}

fn global_shortcut(shift: bool, key: &str) -> (r: CommandShortcut)
    requires
        normalize_key(key@).len() != 0,
        supported_key(normalize_key(key@)),
        normalize_key(key@) == key@,
    ensures
        r@ == global_binding(
            if shift {
                seq![KeyModifier::Control, KeyModifier::Shift]
            } else {
                seq![KeyModifier::Control]
            },
            key@,
        ),
{
    let mut modifiers: Vec<KeyModifier> = Vec::new();
    modifiers.push(KeyModifier::Control);
    if shift {
        modifiers.push(KeyModifier::Shift);
    }
    proof {
        lemma_builtin_chords();
        if shift {
            assert(modifiers@ =~= seq![KeyModifier::Control, KeyModifier::Shift]);
        } else {
            assert(modifiers@ =~= seq![KeyModifier::Control]);
        }
    }
    let chord = match KeyChord::new(modifiers.as_slice(), key) {
        Ok(c) => c,
        Err(_) => {
            assert(false);
            KeyChord::new(modifiers.as_slice(), key).unwrap()
        },
    };
    CommandShortcut::new(KeyBinding::global(chord))
}

fn toolbar(section: CommandCategory, order: usize, label: &str) -> (r: CommandPresentation)
    ensures
        r@.palette_visible,
        r@.toolbar matches Some(p) && p.section == section && p.order == order && p.short_label
            == label@,
{
    CommandPresentation::palette_only().with_toolbar(
        CommandToolbarPlacement::new(section, order, label),
    )
}

proof fn lemma_fresh_1()
    ensures
        forall|i: int| 0 <= i < 1 ==> #[trigger] builtin_command_ids()[i] != builtin_command_ids()[1],
{
    reveal_strlit("elcarax.palette.close");
    reveal_strlit("elcarax.palette.open");
    assert(builtin_command_ids()[0].len() != builtin_command_ids()[1].len());
}

proof fn lemma_fresh_2()
    ensures
        forall|i: int| 0 <= i < 2 ==> #[trigger] builtin_command_ids()[i] != builtin_command_ids()[2],
{
    reveal_strlit("elcarax.palette.close");
    reveal_strlit("elcarax.palette.open");
    reveal_strlit("project.create");
    assert(builtin_command_ids()[0].len() != builtin_command_ids()[2].len());
    assert(builtin_command_ids()[1].len() != builtin_command_ids()[2].len());
}

proof fn lemma_fresh_3()
    ensures
        forall|i: int| 0 <= i < 3 ==> #[trigger] builtin_command_ids()[i] != builtin_command_ids()[3],
{
    reveal_strlit("elcarax.palette.close");
    reveal_strlit("elcarax.palette.open");
    reveal_strlit("project.create");
    reveal_strlit("project.open");
    assert(builtin_command_ids()[0].len() != builtin_command_ids()[3].len());
    assert(builtin_command_ids()[1].len() != builtin_command_ids()[3].len());
    assert(builtin_command_ids()[2].len() != builtin_command_ids()[3].len());
}

proof fn lemma_fresh_4()
    ensures
        forall|i: int| 0 <= i < 4 ==> #[trigger] builtin_command_ids()[i] != builtin_command_ids()[4],
{
    reveal_strlit("elcarax.palette.close");
    reveal_strlit("elcarax.palette.open");
    reveal_strlit("project.close");
    reveal_strlit("project.create");
    reveal_strlit("project.open");
    assert(builtin_command_ids()[0].len() != builtin_command_ids()[4].len());
    assert(builtin_command_ids()[1].len() != builtin_command_ids()[4].len());
    assert(builtin_command_ids()[2].len() != builtin_command_ids()[4].len());
    assert(builtin_command_ids()[3].len() != builtin_command_ids()[4].len());
}

proof fn lemma_fresh_5()
    ensures
        forall|i: int| 0 <= i < 5 ==> #[trigger] builtin_command_ids()[i] != builtin_command_ids()[5],
{
    reveal_strlit("elcarax.palette.close");
    reveal_strlit("elcarax.palette.open");
    reveal_strlit("project.close");
    reveal_strlit("project.create");
    reveal_strlit("project.open");
    reveal_strlit("project.validate");
    assert(builtin_command_ids()[0].len() != builtin_command_ids()[5].len());
    assert(builtin_command_ids()[1].len() != builtin_command_ids()[5].len());
    assert(builtin_command_ids()[2].len() != builtin_command_ids()[5].len());
    assert(builtin_command_ids()[3].len() != builtin_command_ids()[5].len());
    assert(builtin_command_ids()[4].len() != builtin_command_ids()[5].len());
}

proof fn lemma_fresh_6()
    ensures
        forall|i: int| 0 <= i < 6 ==> #[trigger] builtin_command_ids()[i] != builtin_command_ids()[6],
{
    reveal_strlit("elcarax.palette.close");
    reveal_strlit("elcarax.palette.open");
    reveal_strlit("project.close");
    reveal_strlit("project.create");
    reveal_strlit("project.open");
    reveal_strlit("project.show_recent");
    reveal_strlit("project.validate");
    assert(builtin_command_ids()[0].len() != builtin_command_ids()[6].len());
    assert(builtin_command_ids()[1].len() != builtin_command_ids()[6].len());
    assert(builtin_command_ids()[2].len() != builtin_command_ids()[6].len());
    assert(builtin_command_ids()[3].len() != builtin_command_ids()[6].len());
    assert(builtin_command_ids()[4].len() != builtin_command_ids()[6].len());
    assert(builtin_command_ids()[5].len() != builtin_command_ids()[6].len());
}

proof fn lemma_fresh_7()
    ensures
        forall|i: int| 0 <= i < 7 ==> #[trigger] builtin_command_ids()[i] != builtin_command_ids()[7],
{
    reveal_strlit("elcarax.palette.close");
    reveal_strlit("elcarax.palette.open");
    reveal_strlit("project.close");
    reveal_strlit("project.create");
    reveal_strlit("project.open");
    reveal_strlit("project.reopen_last");
    reveal_strlit("project.show_recent");
    reveal_strlit("project.validate");
    assert(builtin_command_ids()[0].len() != builtin_command_ids()[7].len());
    assert(builtin_command_ids()[1].len() != builtin_command_ids()[7].len());
    assert(builtin_command_ids()[2].len() != builtin_command_ids()[7].len());
    assert(builtin_command_ids()[3].len() != builtin_command_ids()[7].len());
    assert(builtin_command_ids()[4].len() != builtin_command_ids()[7].len());
    assert(builtin_command_ids()[5].len() != builtin_command_ids()[7].len());
    assert(builtin_command_ids()[6][8] != builtin_command_ids()[7][8]);
}

proof fn lemma_fresh_8()
    ensures
        forall|i: int| 0 <= i < 8 ==> #[trigger] builtin_command_ids()[i] != builtin_command_ids()[8],
{
    reveal_strlit("asset.scan");
    reveal_strlit("elcarax.palette.close");
    reveal_strlit("elcarax.palette.open");
    reveal_strlit("project.close");
    reveal_strlit("project.create");
    reveal_strlit("project.open");
    reveal_strlit("project.reopen_last");
    reveal_strlit("project.show_recent");
    reveal_strlit("project.validate");
    assert(builtin_command_ids()[0].len() != builtin_command_ids()[8].len());
    assert(builtin_command_ids()[1].len() != builtin_command_ids()[8].len());
    assert(builtin_command_ids()[2].len() != builtin_command_ids()[8].len());
    assert(builtin_command_ids()[3].len() != builtin_command_ids()[8].len());
    assert(builtin_command_ids()[4].len() != builtin_command_ids()[8].len());
    assert(builtin_command_ids()[5].len() != builtin_command_ids()[8].len());
    assert(builtin_command_ids()[6].len() != builtin_command_ids()[8].len());
    assert(builtin_command_ids()[7].len() != builtin_command_ids()[8].len());
}

proof fn lemma_fresh_9()
    ensures
        forall|i: int| 0 <= i < 9 ==> #[trigger] builtin_command_ids()[i] != builtin_command_ids()[9],
{
    reveal_strlit("asset.refresh");
    reveal_strlit("asset.scan");
    reveal_strlit("elcarax.palette.close");
    reveal_strlit("elcarax.palette.open");
    reveal_strlit("project.close");
    reveal_strlit("project.create");
    reveal_strlit("project.open");
    reveal_strlit("project.reopen_last");
    reveal_strlit("project.show_recent");
    reveal_strlit("project.validate");
    assert(builtin_command_ids()[0].len() != builtin_command_ids()[9].len());
    assert(builtin_command_ids()[1].len() != builtin_command_ids()[9].len());
    assert(builtin_command_ids()[2].len() != builtin_command_ids()[9].len());
    assert(builtin_command_ids()[3].len() != builtin_command_ids()[9].len());
    assert(builtin_command_ids()[4][0] != builtin_command_ids()[9][0]);
    assert(builtin_command_ids()[5].len() != builtin_command_ids()[9].len());
    assert(builtin_command_ids()[6].len() != builtin_command_ids()[9].len());
    assert(builtin_command_ids()[7].len() != builtin_command_ids()[9].len());
    assert(builtin_command_ids()[8].len() != builtin_command_ids()[9].len());
}

proof fn lemma_fresh_10()
    ensures
        forall|i: int| 0 <= i < 10 ==> #[trigger] builtin_command_ids()[i] != builtin_command_ids()[10],
{
    reveal_strlit("asset.refresh");
    reveal_strlit("asset.scan");
    reveal_strlit("asset.start_watching");
    reveal_strlit("elcarax.palette.close");
    reveal_strlit("elcarax.palette.open");
    reveal_strlit("project.close");
    reveal_strlit("project.create");
    reveal_strlit("project.open");
    reveal_strlit("project.reopen_last");
    reveal_strlit("project.show_recent");
    reveal_strlit("project.validate");
    assert(builtin_command_ids()[0][0] != builtin_command_ids()[10][0]);
    assert(builtin_command_ids()[1].len() != builtin_command_ids()[10].len());
    assert(builtin_command_ids()[2].len() != builtin_command_ids()[10].len());
    assert(builtin_command_ids()[3].len() != builtin_command_ids()[10].len());
    assert(builtin_command_ids()[4].len() != builtin_command_ids()[10].len());
    assert(builtin_command_ids()[5].len() != builtin_command_ids()[10].len());
    assert(builtin_command_ids()[6].len() != builtin_command_ids()[10].len());
    assert(builtin_command_ids()[7].len() != builtin_command_ids()[10].len());
    assert(builtin_command_ids()[8].len() != builtin_command_ids()[10].len());
    assert(builtin_command_ids()[9].len() != builtin_command_ids()[10].len());
}

proof fn lemma_fresh_11()
    ensures
        forall|i: int| 0 <= i < 11 ==> #[trigger] builtin_command_ids()[i] != builtin_command_ids()[11],
{
    reveal_strlit("asset.refresh");
    reveal_strlit("asset.scan");
    reveal_strlit("asset.start_watching");
    reveal_strlit("asset.stop_watching");
    reveal_strlit("elcarax.palette.close");
    reveal_strlit("elcarax.palette.open");
    reveal_strlit("project.close");
    reveal_strlit("project.create");
    reveal_strlit("project.open");
    reveal_strlit("project.reopen_last");
    reveal_strlit("project.show_recent");
    reveal_strlit("project.validate");
    assert(builtin_command_ids()[0].len() != builtin_command_ids()[11].len());
    assert(builtin_command_ids()[1].len() != builtin_command_ids()[11].len());
    assert(builtin_command_ids()[2].len() != builtin_command_ids()[11].len());
    assert(builtin_command_ids()[3].len() != builtin_command_ids()[11].len());
    assert(builtin_command_ids()[4].len() != builtin_command_ids()[11].len());
    assert(builtin_command_ids()[5].len() != builtin_command_ids()[11].len());
    assert(builtin_command_ids()[6][0] != builtin_command_ids()[11][0]);
    assert(builtin_command_ids()[7][0] != builtin_command_ids()[11][0]);
    assert(builtin_command_ids()[8].len() != builtin_command_ids()[11].len());
    assert(builtin_command_ids()[9].len() != builtin_command_ids()[11].len());
    assert(builtin_command_ids()[10].len() != builtin_command_ids()[11].len());
}

proof fn lemma_fresh_12()
    ensures
        forall|i: int| 0 <= i < 12 ==> #[trigger] builtin_command_ids()[i] != builtin_command_ids()[12],
{
    reveal_strlit("asset.clear_selection");
    reveal_strlit("asset.refresh");
    reveal_strlit("asset.scan");
    reveal_strlit("asset.start_watching");
    reveal_strlit("asset.stop_watching");
    reveal_strlit("elcarax.palette.close");
    reveal_strlit("elcarax.palette.open");
    reveal_strlit("project.close");
    reveal_strlit("project.create");
    reveal_strlit("project.open");
    reveal_strlit("project.reopen_last");
    reveal_strlit("project.show_recent");
    reveal_strlit("project.validate");
    assert(builtin_command_ids()[0].len() != builtin_command_ids()[12].len());
    assert(builtin_command_ids()[1][0] != builtin_command_ids()[12][0]);
    assert(builtin_command_ids()[2].len() != builtin_command_ids()[12].len());
    assert(builtin_command_ids()[3].len() != builtin_command_ids()[12].len());
    assert(builtin_command_ids()[4].len() != builtin_command_ids()[12].len());
    assert(builtin_command_ids()[5].len() != builtin_command_ids()[12].len());
    assert(builtin_command_ids()[6].len() != builtin_command_ids()[12].len());
    assert(builtin_command_ids()[7].len() != builtin_command_ids()[12].len());
    assert(builtin_command_ids()[8].len() != builtin_command_ids()[12].len());
    assert(builtin_command_ids()[9].len() != builtin_command_ids()[12].len());
    assert(builtin_command_ids()[10].len() != builtin_command_ids()[12].len());
    assert(builtin_command_ids()[11].len() != builtin_command_ids()[12].len());
}

proof fn lemma_fresh_13()
    ensures
        forall|i: int| 0 <= i < 13 ==> #[trigger] builtin_command_ids()[i] != builtin_command_ids()[13],
{
    reveal_strlit("asset.clear_selection");
    reveal_strlit("asset.refresh");
    reveal_strlit("asset.scan");
    reveal_strlit("asset.show_selected");
    reveal_strlit("asset.start_watching");
    reveal_strlit("asset.stop_watching");
    reveal_strlit("elcarax.palette.close");
    reveal_strlit("elcarax.palette.open");
    reveal_strlit("project.close");
    reveal_strlit("project.create");
    reveal_strlit("project.open");
    reveal_strlit("project.reopen_last");
    reveal_strlit("project.show_recent");
    reveal_strlit("project.validate");
    assert(builtin_command_ids()[0].len() != builtin_command_ids()[13].len());
    assert(builtin_command_ids()[1].len() != builtin_command_ids()[13].len());
    assert(builtin_command_ids()[2].len() != builtin_command_ids()[13].len());
    assert(builtin_command_ids()[3].len() != builtin_command_ids()[13].len());
    assert(builtin_command_ids()[4].len() != builtin_command_ids()[13].len());
    assert(builtin_command_ids()[5].len() != builtin_command_ids()[13].len());
    assert(builtin_command_ids()[6][0] != builtin_command_ids()[13][0]);
    assert(builtin_command_ids()[7][0] != builtin_command_ids()[13][0]);
    assert(builtin_command_ids()[8].len() != builtin_command_ids()[13].len());
    assert(builtin_command_ids()[9].len() != builtin_command_ids()[13].len());
    assert(builtin_command_ids()[10].len() != builtin_command_ids()[13].len());
    assert(builtin_command_ids()[11][7] != builtin_command_ids()[13][7]);
    assert(builtin_command_ids()[12].len() != builtin_command_ids()[13].len());
}

proof fn lemma_fresh_14()
    ensures
        forall|i: int| 0 <= i < 14 ==> #[trigger] builtin_command_ids()[i] != builtin_command_ids()[14],
{
    reveal_strlit("asset.clear_selection");
    reveal_strlit("asset.refresh");
    reveal_strlit("asset.reveal_root");
    reveal_strlit("asset.scan");
    reveal_strlit("asset.show_selected");
    reveal_strlit("asset.start_watching");
    reveal_strlit("asset.stop_watching");
    reveal_strlit("elcarax.palette.close");
    reveal_strlit("elcarax.palette.open");
    reveal_strlit("project.close");
    reveal_strlit("project.create");
    reveal_strlit("project.open");
    reveal_strlit("project.reopen_last");
    reveal_strlit("project.show_recent");
    reveal_strlit("project.validate");
    assert(builtin_command_ids()[0].len() != builtin_command_ids()[14].len());
    assert(builtin_command_ids()[1].len() != builtin_command_ids()[14].len());
    assert(builtin_command_ids()[2].len() != builtin_command_ids()[14].len());
    assert(builtin_command_ids()[3].len() != builtin_command_ids()[14].len());
    assert(builtin_command_ids()[4].len() != builtin_command_ids()[14].len());
    assert(builtin_command_ids()[5].len() != builtin_command_ids()[14].len());
    assert(builtin_command_ids()[6].len() != builtin_command_ids()[14].len());
    assert(builtin_command_ids()[7].len() != builtin_command_ids()[14].len());
    assert(builtin_command_ids()[8].len() != builtin_command_ids()[14].len());
    assert(builtin_command_ids()[9].len() != builtin_command_ids()[14].len());
    assert(builtin_command_ids()[10].len() != builtin_command_ids()[14].len());
    assert(builtin_command_ids()[11].len() != builtin_command_ids()[14].len());
    assert(builtin_command_ids()[12].len() != builtin_command_ids()[14].len());
    assert(builtin_command_ids()[13].len() != builtin_command_ids()[14].len());
}

proof fn lemma_fresh_15()
    ensures
        forall|i: int| 0 <= i < 15 ==> #[trigger] builtin_command_ids()[i] != builtin_command_ids()[15],
{
    reveal_strlit("asset.clear_selection");
    reveal_strlit("asset.refresh");
    reveal_strlit("asset.reveal_root");
    reveal_strlit("asset.scan");
    reveal_strlit("asset.show_selected");
    reveal_strlit("asset.start_watching");
    reveal_strlit("asset.stop_watching");
    reveal_strlit("elcarax.palette.close");
    reveal_strlit("elcarax.palette.open");
    reveal_strlit("project.close");
    reveal_strlit("project.create");
    reveal_strlit("project.open");
    reveal_strlit("project.reopen_last");
    reveal_strlit("project.show_recent");
    reveal_strlit("project.validate");
    reveal_strlit("scene.load");
    assert(builtin_command_ids()[0].len() != builtin_command_ids()[15].len());
    assert(builtin_command_ids()[1].len() != builtin_command_ids()[15].len());
    assert(builtin_command_ids()[2].len() != builtin_command_ids()[15].len());
    assert(builtin_command_ids()[3].len() != builtin_command_ids()[15].len());
    assert(builtin_command_ids()[4].len() != builtin_command_ids()[15].len());
    assert(builtin_command_ids()[5].len() != builtin_command_ids()[15].len());
    assert(builtin_command_ids()[6].len() != builtin_command_ids()[15].len());
    assert(builtin_command_ids()[7].len() != builtin_command_ids()[15].len());
    assert(builtin_command_ids()[8][0] != builtin_command_ids()[15][0]);
    assert(builtin_command_ids()[9].len() != builtin_command_ids()[15].len());
    assert(builtin_command_ids()[10].len() != builtin_command_ids()[15].len());
    assert(builtin_command_ids()[11].len() != builtin_command_ids()[15].len());
    assert(builtin_command_ids()[12].len() != builtin_command_ids()[15].len());
    assert(builtin_command_ids()[13].len() != builtin_command_ids()[15].len());
    assert(builtin_command_ids()[14].len() != builtin_command_ids()[15].len());
}

proof fn lemma_fresh_16()
    ensures
        forall|i: int| 0 <= i < 16 ==> #[trigger] builtin_command_ids()[i] != builtin_command_ids()[16],
{
    reveal_strlit("asset.clear_selection");
    reveal_strlit("asset.refresh");
    reveal_strlit("asset.reveal_root");
    reveal_strlit("asset.scan");
    reveal_strlit("asset.show_selected");
    reveal_strlit("asset.start_watching");
    reveal_strlit("asset.stop_watching");
    reveal_strlit("elcarax.palette.close");
    reveal_strlit("elcarax.palette.open");
    reveal_strlit("project.close");
    reveal_strlit("project.create");
    reveal_strlit("project.open");
    reveal_strlit("project.reopen_last");
    reveal_strlit("project.show_recent");
    reveal_strlit("project.validate");
    reveal_strlit("scene.load");
    reveal_strlit("scene.save");
    assert(builtin_command_ids()[0].len() != builtin_command_ids()[16].len());
    assert(builtin_command_ids()[1].len() != builtin_command_ids()[16].len());
    assert(builtin_command_ids()[2].len() != builtin_command_ids()[16].len());
    assert(builtin_command_ids()[3].len() != builtin_command_ids()[16].len());
    assert(builtin_command_ids()[4].len() != builtin_command_ids()[16].len());
    assert(builtin_command_ids()[5].len() != builtin_command_ids()[16].len());
    assert(builtin_command_ids()[6].len() != builtin_command_ids()[16].len());
    assert(builtin_command_ids()[7].len() != builtin_command_ids()[16].len());
    assert(builtin_command_ids()[8][0] != builtin_command_ids()[16][0]);
    assert(builtin_command_ids()[9].len() != builtin_command_ids()[16].len());
    assert(builtin_command_ids()[10].len() != builtin_command_ids()[16].len());
    assert(builtin_command_ids()[11].len() != builtin_command_ids()[16].len());
    assert(builtin_command_ids()[12].len() != builtin_command_ids()[16].len());
    assert(builtin_command_ids()[13].len() != builtin_command_ids()[16].len());
    assert(builtin_command_ids()[14].len() != builtin_command_ids()[16].len());
    assert(builtin_command_ids()[15][6] != builtin_command_ids()[16][6]);
}

proof fn lemma_fresh_17()
    ensures
        forall|i: int| 0 <= i < 17 ==> #[trigger] builtin_command_ids()[i] != builtin_command_ids()[17],
{
    reveal_strlit("asset.clear_selection");
    reveal_strlit("asset.refresh");
    reveal_strlit("asset.reveal_root");
    reveal_strlit("asset.scan");
    reveal_strlit("asset.show_selected");
    reveal_strlit("asset.start_watching");
    reveal_strlit("asset.stop_watching");
    reveal_strlit("elcarax.palette.close");
    reveal_strlit("elcarax.palette.open");
    reveal_strlit("project.close");
    reveal_strlit("project.create");
    reveal_strlit("project.open");
    reveal_strlit("project.reopen_last");
    reveal_strlit("project.show_recent");
    reveal_strlit("project.validate");
    reveal_strlit("scene.clear");
    reveal_strlit("scene.load");
    reveal_strlit("scene.save");
    assert(builtin_command_ids()[0].len() != builtin_command_ids()[17].len());
    assert(builtin_command_ids()[1].len() != builtin_command_ids()[17].len());
    assert(builtin_command_ids()[2].len() != builtin_command_ids()[17].len());
    assert(builtin_command_ids()[3].len() != builtin_command_ids()[17].len());
    assert(builtin_command_ids()[4].len() != builtin_command_ids()[17].len());
    assert(builtin_command_ids()[5].len() != builtin_command_ids()[17].len());
    assert(builtin_command_ids()[6].len() != builtin_command_ids()[17].len());
    assert(builtin_command_ids()[7].len() != builtin_command_ids()[17].len());
    assert(builtin_command_ids()[8].len() != builtin_command_ids()[17].len());
    assert(builtin_command_ids()[9].len() != builtin_command_ids()[17].len());
    assert(builtin_command_ids()[10].len() != builtin_command_ids()[17].len());
    assert(builtin_command_ids()[11].len() != builtin_command_ids()[17].len());
    assert(builtin_command_ids()[12].len() != builtin_command_ids()[17].len());
    assert(builtin_command_ids()[13].len() != builtin_command_ids()[17].len());
    assert(builtin_command_ids()[14].len() != builtin_command_ids()[17].len());
    assert(builtin_command_ids()[15].len() != builtin_command_ids()[17].len());
    assert(builtin_command_ids()[16].len() != builtin_command_ids()[17].len());
}

proof fn lemma_fresh_18()
    ensures
        forall|i: int| 0 <= i < 18 ==> #[trigger] builtin_command_ids()[i] != builtin_command_ids()[18],
{
    reveal_strlit("asset.clear_selection");
    reveal_strlit("asset.refresh");
    reveal_strlit("asset.reveal_root");
    reveal_strlit("asset.scan");
    reveal_strlit("asset.show_selected");
    reveal_strlit("asset.start_watching");
    reveal_strlit("asset.stop_watching");
    reveal_strlit("elcarax.palette.close");
    reveal_strlit("elcarax.palette.open");
    reveal_strlit("project.close");
    reveal_strlit("project.create");
    reveal_strlit("project.open");
    reveal_strlit("project.reopen_last");
    reveal_strlit("project.show_recent");
    reveal_strlit("project.validate");
    reveal_strlit("scene.clear");
    reveal_strlit("scene.clear_selection");
    reveal_strlit("scene.load");
    reveal_strlit("scene.save");
    assert(builtin_command_ids()[0].len() != builtin_command_ids()[18].len());
    assert(builtin_command_ids()[1][0] != builtin_command_ids()[18][0]);
    assert(builtin_command_ids()[2].len() != builtin_command_ids()[18].len());
    assert(builtin_command_ids()[3].len() != builtin_command_ids()[18].len());
    assert(builtin_command_ids()[4].len() != builtin_command_ids()[18].len());
    assert(builtin_command_ids()[5].len() != builtin_command_ids()[18].len());
    assert(builtin_command_ids()[6].len() != builtin_command_ids()[18].len());
    assert(builtin_command_ids()[7].len() != builtin_command_ids()[18].len());
    assert(builtin_command_ids()[8].len() != builtin_command_ids()[18].len());
    assert(builtin_command_ids()[9].len() != builtin_command_ids()[18].len());
    assert(builtin_command_ids()[10].len() != builtin_command_ids()[18].len());
    assert(builtin_command_ids()[11].len() != builtin_command_ids()[18].len());
    assert(builtin_command_ids()[12][0] != builtin_command_ids()[18][0]);
    assert(builtin_command_ids()[13].len() != builtin_command_ids()[18].len());
    assert(builtin_command_ids()[14].len() != builtin_command_ids()[18].len());
    assert(builtin_command_ids()[15].len() != builtin_command_ids()[18].len());
    assert(builtin_command_ids()[16].len() != builtin_command_ids()[18].len());
    assert(builtin_command_ids()[17].len() != builtin_command_ids()[18].len());
}

proof fn lemma_fresh_19()
    ensures
        forall|i: int| 0 <= i < 19 ==> #[trigger] builtin_command_ids()[i] != builtin_command_ids()[19],
{
    reveal_strlit("asset.clear_selection");
    reveal_strlit("asset.refresh");
    reveal_strlit("asset.reveal_root");
    reveal_strlit("asset.scan");
    reveal_strlit("asset.show_selected");
    reveal_strlit("asset.start_watching");
    reveal_strlit("asset.stop_watching");
    reveal_strlit("elcarax.palette.close");
    reveal_strlit("elcarax.palette.open");
    reveal_strlit("inspector.clear");
    reveal_strlit("project.close");
    reveal_strlit("project.create");
    reveal_strlit("project.open");
    reveal_strlit("project.reopen_last");
    reveal_strlit("project.show_recent");
    reveal_strlit("project.validate");
    reveal_strlit("scene.clear");
    reveal_strlit("scene.clear_selection");
    reveal_strlit("scene.load");
    reveal_strlit("scene.save");
    assert(builtin_command_ids()[0].len() != builtin_command_ids()[19].len());
    assert(builtin_command_ids()[1].len() != builtin_command_ids()[19].len());
    assert(builtin_command_ids()[2].len() != builtin_command_ids()[19].len());
    assert(builtin_command_ids()[3].len() != builtin_command_ids()[19].len());
    assert(builtin_command_ids()[4].len() != builtin_command_ids()[19].len());
    assert(builtin_command_ids()[5].len() != builtin_command_ids()[19].len());
    assert(builtin_command_ids()[6].len() != builtin_command_ids()[19].len());
    assert(builtin_command_ids()[7].len() != builtin_command_ids()[19].len());
    assert(builtin_command_ids()[8].len() != builtin_command_ids()[19].len());
    assert(builtin_command_ids()[9].len() != builtin_command_ids()[19].len());
    assert(builtin_command_ids()[10].len() != builtin_command_ids()[19].len());
    assert(builtin_command_ids()[11].len() != builtin_command_ids()[19].len());
    assert(builtin_command_ids()[12].len() != builtin_command_ids()[19].len());
    assert(builtin_command_ids()[13].len() != builtin_command_ids()[19].len());
    assert(builtin_command_ids()[14].len() != builtin_command_ids()[19].len());
    assert(builtin_command_ids()[15].len() != builtin_command_ids()[19].len());
    assert(builtin_command_ids()[16].len() != builtin_command_ids()[19].len());
    assert(builtin_command_ids()[17].len() != builtin_command_ids()[19].len());
    assert(builtin_command_ids()[18].len() != builtin_command_ids()[19].len());
}

proof fn lemma_fresh_20()
    ensures
        forall|i: int| 0 <= i < 20 ==> #[trigger] builtin_command_ids()[i] != builtin_command_ids()[20],
{
    reveal_strlit("asset.clear_selection");
    reveal_strlit("asset.refresh");
    reveal_strlit("asset.reveal_root");
    reveal_strlit("asset.scan");
    reveal_strlit("asset.show_selected");
    reveal_strlit("asset.start_watching");
    reveal_strlit("asset.stop_watching");
    reveal_strlit("edit.undo");
    reveal_strlit("elcarax.palette.close");
    reveal_strlit("elcarax.palette.open");
    reveal_strlit("inspector.clear");
    reveal_strlit("project.close");
    reveal_strlit("project.create");
    reveal_strlit("project.open");
    reveal_strlit("project.reopen_last");
    reveal_strlit("project.show_recent");
    reveal_strlit("project.validate");
    reveal_strlit("scene.clear");
    reveal_strlit("scene.clear_selection");
    reveal_strlit("scene.load");
    reveal_strlit("scene.save");
    assert(builtin_command_ids()[0].len() != builtin_command_ids()[20].len());
    assert(builtin_command_ids()[1].len() != builtin_command_ids()[20].len());
    assert(builtin_command_ids()[2].len() != builtin_command_ids()[20].len());
    assert(builtin_command_ids()[3].len() != builtin_command_ids()[20].len());
    assert(builtin_command_ids()[4].len() != builtin_command_ids()[20].len());
    assert(builtin_command_ids()[5].len() != builtin_command_ids()[20].len());
    assert(builtin_command_ids()[6].len() != builtin_command_ids()[20].len());
    assert(builtin_command_ids()[7].len() != builtin_command_ids()[20].len());
    assert(builtin_command_ids()[8].len() != builtin_command_ids()[20].len());
    assert(builtin_command_ids()[9].len() != builtin_command_ids()[20].len());
    assert(builtin_command_ids()[10].len() != builtin_command_ids()[20].len());
    assert(builtin_command_ids()[11].len() != builtin_command_ids()[20].len());
    assert(builtin_command_ids()[12].len() != builtin_command_ids()[20].len());
    assert(builtin_command_ids()[13].len() != builtin_command_ids()[20].len());
    assert(builtin_command_ids()[14].len() != builtin_command_ids()[20].len());
    assert(builtin_command_ids()[15].len() != builtin_command_ids()[20].len());
    assert(builtin_command_ids()[16].len() != builtin_command_ids()[20].len());
    assert(builtin_command_ids()[17].len() != builtin_command_ids()[20].len());
    assert(builtin_command_ids()[18].len() != builtin_command_ids()[20].len());
    assert(builtin_command_ids()[19].len() != builtin_command_ids()[20].len());
}

proof fn lemma_fresh_21()
    ensures
        forall|i: int| 0 <= i < 21 ==> #[trigger] builtin_command_ids()[i] != builtin_command_ids()[21],
{
    reveal_strlit("asset.clear_selection");
    reveal_strlit("asset.refresh");
    reveal_strlit("asset.reveal_root");
    reveal_strlit("asset.scan");
    reveal_strlit("asset.show_selected");
    reveal_strlit("asset.start_watching");
    reveal_strlit("asset.stop_watching");
    reveal_strlit("edit.redo");
    reveal_strlit("edit.undo");
    reveal_strlit("elcarax.palette.close");
    reveal_strlit("elcarax.palette.open");
    reveal_strlit("inspector.clear");
    reveal_strlit("project.close");
    reveal_strlit("project.create");
    reveal_strlit("project.open");
    reveal_strlit("project.reopen_last");
    reveal_strlit("project.show_recent");
    reveal_strlit("project.validate");
    reveal_strlit("scene.clear");
    reveal_strlit("scene.clear_selection");
    reveal_strlit("scene.load");
    reveal_strlit("scene.save");
    assert(builtin_command_ids()[0].len() != builtin_command_ids()[21].len());
    assert(builtin_command_ids()[1].len() != builtin_command_ids()[21].len());
    assert(builtin_command_ids()[2].len() != builtin_command_ids()[21].len());
    assert(builtin_command_ids()[3].len() != builtin_command_ids()[21].len());
    assert(builtin_command_ids()[4].len() != builtin_command_ids()[21].len());
    assert(builtin_command_ids()[5].len() != builtin_command_ids()[21].len());
    assert(builtin_command_ids()[6].len() != builtin_command_ids()[21].len());
    assert(builtin_command_ids()[7].len() != builtin_command_ids()[21].len());
    assert(builtin_command_ids()[8].len() != builtin_command_ids()[21].len());
    assert(builtin_command_ids()[9].len() != builtin_command_ids()[21].len());
    assert(builtin_command_ids()[10].len() != builtin_command_ids()[21].len());
    assert(builtin_command_ids()[11].len() != builtin_command_ids()[21].len());
    assert(builtin_command_ids()[12].len() != builtin_command_ids()[21].len());
    assert(builtin_command_ids()[13].len() != builtin_command_ids()[21].len());
    assert(builtin_command_ids()[14].len() != builtin_command_ids()[21].len());
    assert(builtin_command_ids()[15].len() != builtin_command_ids()[21].len());
    assert(builtin_command_ids()[16].len() != builtin_command_ids()[21].len());
    assert(builtin_command_ids()[17].len() != builtin_command_ids()[21].len());
    assert(builtin_command_ids()[18].len() != builtin_command_ids()[21].len());
    assert(builtin_command_ids()[19].len() != builtin_command_ids()[21].len());
    assert(builtin_command_ids()[20][5] != builtin_command_ids()[21][5]);
}

proof fn lemma_fresh_22()
    ensures
        forall|i: int| 0 <= i < 22 ==> #[trigger] builtin_command_ids()[i] != builtin_command_ids()[22],
{
    reveal_strlit("adapter.connect");
    reveal_strlit("asset.clear_selection");
    reveal_strlit("asset.refresh");
    reveal_strlit("asset.reveal_root");
    reveal_strlit("asset.scan");
    reveal_strlit("asset.show_selected");
    reveal_strlit("asset.start_watching");
    reveal_strlit("asset.stop_watching");
    reveal_strlit("edit.redo");
    reveal_strlit("edit.undo");
    reveal_strlit("elcarax.palette.close");
    reveal_strlit("elcarax.palette.open");
    reveal_strlit("inspector.clear");
    reveal_strlit("project.close");
    reveal_strlit("project.create");
    reveal_strlit("project.open");
    reveal_strlit("project.reopen_last");
    reveal_strlit("project.show_recent");
    reveal_strlit("project.validate");
    reveal_strlit("scene.clear");
    reveal_strlit("scene.clear_selection");
    reveal_strlit("scene.load");
    reveal_strlit("scene.save");
    assert(builtin_command_ids()[0].len() != builtin_command_ids()[22].len());
    assert(builtin_command_ids()[1].len() != builtin_command_ids()[22].len());
    assert(builtin_command_ids()[2].len() != builtin_command_ids()[22].len());
    assert(builtin_command_ids()[3].len() != builtin_command_ids()[22].len());
    assert(builtin_command_ids()[4].len() != builtin_command_ids()[22].len());
    assert(builtin_command_ids()[5].len() != builtin_command_ids()[22].len());
    assert(builtin_command_ids()[6].len() != builtin_command_ids()[22].len());
    assert(builtin_command_ids()[7].len() != builtin_command_ids()[22].len());
    assert(builtin_command_ids()[8].len() != builtin_command_ids()[22].len());
    assert(builtin_command_ids()[9].len() != builtin_command_ids()[22].len());
    assert(builtin_command_ids()[10].len() != builtin_command_ids()[22].len());
    assert(builtin_command_ids()[11].len() != builtin_command_ids()[22].len());
    assert(builtin_command_ids()[12].len() != builtin_command_ids()[22].len());
    assert(builtin_command_ids()[13].len() != builtin_command_ids()[22].len());
    assert(builtin_command_ids()[14].len() != builtin_command_ids()[22].len());
    assert(builtin_command_ids()[15].len() != builtin_command_ids()[22].len());
    assert(builtin_command_ids()[16].len() != builtin_command_ids()[22].len());
    assert(builtin_command_ids()[17].len() != builtin_command_ids()[22].len());
    assert(builtin_command_ids()[18].len() != builtin_command_ids()[22].len());
    assert(builtin_command_ids()[19][0] != builtin_command_ids()[22][0]);
    assert(builtin_command_ids()[20].len() != builtin_command_ids()[22].len());
    assert(builtin_command_ids()[21].len() != builtin_command_ids()[22].len());
}

proof fn lemma_fresh_23()
    ensures
        forall|i: int| 0 <= i < 23 ==> #[trigger] builtin_command_ids()[i] != builtin_command_ids()[23],
{
    reveal_strlit("adapter.connect");
    reveal_strlit("adapter.handshake");
    reveal_strlit("asset.clear_selection");
    reveal_strlit("asset.refresh");
    reveal_strlit("asset.reveal_root");
    reveal_strlit("asset.scan");
    reveal_strlit("asset.show_selected");
    reveal_strlit("asset.start_watching");
    reveal_strlit("asset.stop_watching");
    reveal_strlit("edit.redo");
    reveal_strlit("edit.undo");
    reveal_strlit("elcarax.palette.close");
    reveal_strlit("elcarax.palette.open");
    reveal_strlit("inspector.clear");
    reveal_strlit("project.close");
    reveal_strlit("project.create");
    reveal_strlit("project.open");
    reveal_strlit("project.reopen_last");
    reveal_strlit("project.show_recent");
    reveal_strlit("project.validate");
    reveal_strlit("scene.clear");
    reveal_strlit("scene.clear_selection");
    reveal_strlit("scene.load");
    reveal_strlit("scene.save");
    assert(builtin_command_ids()[0].len() != builtin_command_ids()[23].len());
    assert(builtin_command_ids()[1].len() != builtin_command_ids()[23].len());
    assert(builtin_command_ids()[2].len() != builtin_command_ids()[23].len());
    assert(builtin_command_ids()[3].len() != builtin_command_ids()[23].len());
    assert(builtin_command_ids()[4].len() != builtin_command_ids()[23].len());
    assert(builtin_command_ids()[5].len() != builtin_command_ids()[23].len());
    assert(builtin_command_ids()[6].len() != builtin_command_ids()[23].len());
    assert(builtin_command_ids()[7].len() != builtin_command_ids()[23].len());
    assert(builtin_command_ids()[8].len() != builtin_command_ids()[23].len());
    assert(builtin_command_ids()[9].len() != builtin_command_ids()[23].len());
    assert(builtin_command_ids()[10].len() != builtin_command_ids()[23].len());
    assert(builtin_command_ids()[11].len() != builtin_command_ids()[23].len());
    assert(builtin_command_ids()[12].len() != builtin_command_ids()[23].len());
    assert(builtin_command_ids()[13].len() != builtin_command_ids()[23].len());
    assert(builtin_command_ids()[14][1] != builtin_command_ids()[23][1]);
    assert(builtin_command_ids()[15].len() != builtin_command_ids()[23].len());
    assert(builtin_command_ids()[16].len() != builtin_command_ids()[23].len());
    assert(builtin_command_ids()[17].len() != builtin_command_ids()[23].len());
    assert(builtin_command_ids()[18].len() != builtin_command_ids()[23].len());
    assert(builtin_command_ids()[19].len() != builtin_command_ids()[23].len());
    assert(builtin_command_ids()[20].len() != builtin_command_ids()[23].len());
    assert(builtin_command_ids()[21].len() != builtin_command_ids()[23].len());
    assert(builtin_command_ids()[22].len() != builtin_command_ids()[23].len());
}

proof fn lemma_fresh_24()
    ensures
        forall|i: int| 0 <= i < 24 ==> #[trigger] builtin_command_ids()[i] != builtin_command_ids()[24],
{
    reveal_strlit("adapter.connect");
    reveal_strlit("adapter.handshake");
    reveal_strlit("adapter.load_project");
    reveal_strlit("asset.clear_selection");
    reveal_strlit("asset.refresh");
    reveal_strlit("asset.reveal_root");
    reveal_strlit("asset.scan");
    reveal_strlit("asset.show_selected");
    reveal_strlit("asset.start_watching");
    reveal_strlit("asset.stop_watching");
    reveal_strlit("edit.redo");
    reveal_strlit("edit.undo");
    reveal_strlit("elcarax.palette.close");
    reveal_strlit("elcarax.palette.open");
    reveal_strlit("inspector.clear");
    reveal_strlit("project.close");
    reveal_strlit("project.create");
    reveal_strlit("project.open");
    reveal_strlit("project.reopen_last");
    reveal_strlit("project.show_recent");
    reveal_strlit("project.validate");
    reveal_strlit("scene.clear");
    reveal_strlit("scene.clear_selection");
    reveal_strlit("scene.load");
    reveal_strlit("scene.save");
    assert(builtin_command_ids()[0][0] != builtin_command_ids()[24][0]);
    assert(builtin_command_ids()[1].len() != builtin_command_ids()[24].len());
    assert(builtin_command_ids()[2].len() != builtin_command_ids()[24].len());
    assert(builtin_command_ids()[3].len() != builtin_command_ids()[24].len());
    assert(builtin_command_ids()[4].len() != builtin_command_ids()[24].len());
    assert(builtin_command_ids()[5].len() != builtin_command_ids()[24].len());
    assert(builtin_command_ids()[6].len() != builtin_command_ids()[24].len());
    assert(builtin_command_ids()[7].len() != builtin_command_ids()[24].len());
    assert(builtin_command_ids()[8].len() != builtin_command_ids()[24].len());
    assert(builtin_command_ids()[9].len() != builtin_command_ids()[24].len());
    assert(builtin_command_ids()[10][1] != builtin_command_ids()[24][1]);
    assert(builtin_command_ids()[11].len() != builtin_command_ids()[24].len());
    assert(builtin_command_ids()[12].len() != builtin_command_ids()[24].len());
    assert(builtin_command_ids()[13].len() != builtin_command_ids()[24].len());
    assert(builtin_command_ids()[14].len() != builtin_command_ids()[24].len());
    assert(builtin_command_ids()[15].len() != builtin_command_ids()[24].len());
    assert(builtin_command_ids()[16].len() != builtin_command_ids()[24].len());
    assert(builtin_command_ids()[17].len() != builtin_command_ids()[24].len());
    assert(builtin_command_ids()[18].len() != builtin_command_ids()[24].len());
    assert(builtin_command_ids()[19].len() != builtin_command_ids()[24].len());
    assert(builtin_command_ids()[20].len() != builtin_command_ids()[24].len());
    assert(builtin_command_ids()[21].len() != builtin_command_ids()[24].len());
    assert(builtin_command_ids()[22].len() != builtin_command_ids()[24].len());
    assert(builtin_command_ids()[23].len() != builtin_command_ids()[24].len());
}

proof fn lemma_fresh_25()
    ensures
        forall|i: int| 0 <= i < 25 ==> #[trigger] builtin_command_ids()[i] != builtin_command_ids()[25],
{
    reveal_strlit("adapter.connect");
    reveal_strlit("adapter.disconnect");
    reveal_strlit("adapter.handshake");
    reveal_strlit("adapter.load_project");
    reveal_strlit("asset.clear_selection");
    reveal_strlit("asset.refresh");
    reveal_strlit("asset.reveal_root");
    reveal_strlit("asset.scan");
    reveal_strlit("asset.show_selected");
    reveal_strlit("asset.start_watching");
    reveal_strlit("asset.stop_watching");
    reveal_strlit("edit.redo");
    reveal_strlit("edit.undo");
    reveal_strlit("elcarax.palette.close");
    reveal_strlit("elcarax.palette.open");
    reveal_strlit("inspector.clear");
    reveal_strlit("project.close");
    reveal_strlit("project.create");
    reveal_strlit("project.open");
    reveal_strlit("project.reopen_last");
    reveal_strlit("project.show_recent");
    reveal_strlit("project.validate");
    reveal_strlit("scene.clear");
    reveal_strlit("scene.clear_selection");
    reveal_strlit("scene.load");
    reveal_strlit("scene.save");
    assert(builtin_command_ids()[0].len() != builtin_command_ids()[25].len());
    assert(builtin_command_ids()[1].len() != builtin_command_ids()[25].len());
    assert(builtin_command_ids()[2].len() != builtin_command_ids()[25].len());
    assert(builtin_command_ids()[3].len() != builtin_command_ids()[25].len());
    assert(builtin_command_ids()[4].len() != builtin_command_ids()[25].len());
    assert(builtin_command_ids()[5].len() != builtin_command_ids()[25].len());
    assert(builtin_command_ids()[6].len() != builtin_command_ids()[25].len());
    assert(builtin_command_ids()[7].len() != builtin_command_ids()[25].len());
    assert(builtin_command_ids()[8].len() != builtin_command_ids()[25].len());
    assert(builtin_command_ids()[9].len() != builtin_command_ids()[25].len());
    assert(builtin_command_ids()[10].len() != builtin_command_ids()[25].len());
    assert(builtin_command_ids()[11].len() != builtin_command_ids()[25].len());
    assert(builtin_command_ids()[12].len() != builtin_command_ids()[25].len());
    assert(builtin_command_ids()[13].len() != builtin_command_ids()[25].len());
    assert(builtin_command_ids()[14].len() != builtin_command_ids()[25].len());
    assert(builtin_command_ids()[15].len() != builtin_command_ids()[25].len());
    assert(builtin_command_ids()[16].len() != builtin_command_ids()[25].len());
    assert(builtin_command_ids()[17].len() != builtin_command_ids()[25].len());
    assert(builtin_command_ids()[18].len() != builtin_command_ids()[25].len());
    assert(builtin_command_ids()[19].len() != builtin_command_ids()[25].len());
    assert(builtin_command_ids()[20].len() != builtin_command_ids()[25].len());
    assert(builtin_command_ids()[21].len() != builtin_command_ids()[25].len());
    assert(builtin_command_ids()[22].len() != builtin_command_ids()[25].len());
    assert(builtin_command_ids()[23].len() != builtin_command_ids()[25].len());
    assert(builtin_command_ids()[24].len() != builtin_command_ids()[25].len());
}

proof fn lemma_fresh_26()
    ensures
        forall|i: int| 0 <= i < 26 ==> #[trigger] builtin_command_ids()[i] != builtin_command_ids()[26],
{
    reveal_strlit("adapter.connect");
    reveal_strlit("adapter.disconnect");
    reveal_strlit("adapter.handshake");
    reveal_strlit("adapter.load_project");
    reveal_strlit("adapter.show_status");
    reveal_strlit("asset.clear_selection");
    reveal_strlit("asset.refresh");
    reveal_strlit("asset.reveal_root");
    reveal_strlit("asset.scan");
    reveal_strlit("asset.show_selected");
    reveal_strlit("asset.start_watching");
    reveal_strlit("asset.stop_watching");
    reveal_strlit("edit.redo");
    reveal_strlit("edit.undo");
    reveal_strlit("elcarax.palette.close");
    reveal_strlit("elcarax.palette.open");
    reveal_strlit("inspector.clear");
    reveal_strlit("project.close");
    reveal_strlit("project.create");
    reveal_strlit("project.open");
    reveal_strlit("project.reopen_last");
    reveal_strlit("project.show_recent");
    reveal_strlit("project.validate");
    reveal_strlit("scene.clear");
    reveal_strlit("scene.clear_selection");
    reveal_strlit("scene.load");
    reveal_strlit("scene.save");
    assert(builtin_command_ids()[0].len() != builtin_command_ids()[26].len());
    assert(builtin_command_ids()[1].len() != builtin_command_ids()[26].len());
    assert(builtin_command_ids()[2].len() != builtin_command_ids()[26].len());
    assert(builtin_command_ids()[3].len() != builtin_command_ids()[26].len());
    assert(builtin_command_ids()[4].len() != builtin_command_ids()[26].len());
    assert(builtin_command_ids()[5].len() != builtin_command_ids()[26].len());
    assert(builtin_command_ids()[6][0] != builtin_command_ids()[26][0]);
    assert(builtin_command_ids()[7][0] != builtin_command_ids()[26][0]);
    assert(builtin_command_ids()[8].len() != builtin_command_ids()[26].len());
    assert(builtin_command_ids()[9].len() != builtin_command_ids()[26].len());
    assert(builtin_command_ids()[10].len() != builtin_command_ids()[26].len());
    assert(builtin_command_ids()[11][1] != builtin_command_ids()[26][1]);
    assert(builtin_command_ids()[12].len() != builtin_command_ids()[26].len());
    assert(builtin_command_ids()[13][1] != builtin_command_ids()[26][1]);
    assert(builtin_command_ids()[14].len() != builtin_command_ids()[26].len());
    assert(builtin_command_ids()[15].len() != builtin_command_ids()[26].len());
    assert(builtin_command_ids()[16].len() != builtin_command_ids()[26].len());
    assert(builtin_command_ids()[17].len() != builtin_command_ids()[26].len());
    assert(builtin_command_ids()[18].len() != builtin_command_ids()[26].len());
    assert(builtin_command_ids()[19].len() != builtin_command_ids()[26].len());
    assert(builtin_command_ids()[20].len() != builtin_command_ids()[26].len());
    assert(builtin_command_ids()[21].len() != builtin_command_ids()[26].len());
    assert(builtin_command_ids()[22].len() != builtin_command_ids()[26].len());
    assert(builtin_command_ids()[23].len() != builtin_command_ids()[26].len());
    assert(builtin_command_ids()[24].len() != builtin_command_ids()[26].len());
    assert(builtin_command_ids()[25].len() != builtin_command_ids()[26].len());
}

proof fn lemma_fresh_27()
    ensures
        forall|i: int| 0 <= i < 27 ==> #[trigger] builtin_command_ids()[i] != builtin_command_ids()[27],
{
    reveal_strlit("adapter.connect");
    reveal_strlit("adapter.disconnect");
    reveal_strlit("adapter.handshake");
    reveal_strlit("adapter.load_project");
    reveal_strlit("adapter.show_diagnostics");
    reveal_strlit("adapter.show_status");
    reveal_strlit("asset.clear_selection");
    reveal_strlit("asset.refresh");
    reveal_strlit("asset.reveal_root");
    reveal_strlit("asset.scan");
    reveal_strlit("asset.show_selected");
    reveal_strlit("asset.start_watching");
    reveal_strlit("asset.stop_watching");
    reveal_strlit("edit.redo");
    reveal_strlit("edit.undo");
    reveal_strlit("elcarax.palette.close");
    reveal_strlit("elcarax.palette.open");
    reveal_strlit("inspector.clear");
    reveal_strlit("project.close");
    reveal_strlit("project.create");
    reveal_strlit("project.open");
    reveal_strlit("project.reopen_last");
    reveal_strlit("project.show_recent");
    reveal_strlit("project.validate");
    reveal_strlit("scene.clear");
    reveal_strlit("scene.clear_selection");
    reveal_strlit("scene.load");
    reveal_strlit("scene.save");
    assert(builtin_command_ids()[0].len() != builtin_command_ids()[27].len());
    assert(builtin_command_ids()[1].len() != builtin_command_ids()[27].len());
    assert(builtin_command_ids()[2].len() != builtin_command_ids()[27].len());
    assert(builtin_command_ids()[3].len() != builtin_command_ids()[27].len());
    assert(builtin_command_ids()[4].len() != builtin_command_ids()[27].len());
    assert(builtin_command_ids()[5].len() != builtin_command_ids()[27].len());
    assert(builtin_command_ids()[6].len() != builtin_command_ids()[27].len());
    assert(builtin_command_ids()[7].len() != builtin_command_ids()[27].len());
    assert(builtin_command_ids()[8].len() != builtin_command_ids()[27].len());
    assert(builtin_command_ids()[9].len() != builtin_command_ids()[27].len());
    assert(builtin_command_ids()[10].len() != builtin_command_ids()[27].len());
    assert(builtin_command_ids()[11].len() != builtin_command_ids()[27].len());
    assert(builtin_command_ids()[12].len() != builtin_command_ids()[27].len());
    assert(builtin_command_ids()[13].len() != builtin_command_ids()[27].len());
    assert(builtin_command_ids()[14].len() != builtin_command_ids()[27].len());
    assert(builtin_command_ids()[15].len() != builtin_command_ids()[27].len());
    assert(builtin_command_ids()[16].len() != builtin_command_ids()[27].len());
    assert(builtin_command_ids()[17].len() != builtin_command_ids()[27].len());
    assert(builtin_command_ids()[18].len() != builtin_command_ids()[27].len());
    assert(builtin_command_ids()[19].len() != builtin_command_ids()[27].len());
    assert(builtin_command_ids()[20].len() != builtin_command_ids()[27].len());
    assert(builtin_command_ids()[21].len() != builtin_command_ids()[27].len());
    assert(builtin_command_ids()[22].len() != builtin_command_ids()[27].len());
    assert(builtin_command_ids()[23].len() != builtin_command_ids()[27].len());
    assert(builtin_command_ids()[24].len() != builtin_command_ids()[27].len());
    assert(builtin_command_ids()[25].len() != builtin_command_ids()[27].len());
    assert(builtin_command_ids()[26].len() != builtin_command_ids()[27].len());
}

proof fn lemma_fresh_28()
    ensures
        forall|i: int| 0 <= i < 28 ==> #[trigger] builtin_command_ids()[i] != builtin_command_ids()[28],
{
    reveal_strlit("adapter.connect");
    reveal_strlit("adapter.disconnect");
    reveal_strlit("adapter.handshake");
    reveal_strlit("adapter.load_project");
    reveal_strlit("adapter.load_scene");
    reveal_strlit("adapter.show_diagnostics");
    reveal_strlit("adapter.show_status");
    reveal_strlit("asset.clear_selection");
    reveal_strlit("asset.refresh");
    reveal_strlit("asset.reveal_root");
    reveal_strlit("asset.scan");
    reveal_strlit("asset.show_selected");
    reveal_strlit("asset.start_watching");
    reveal_strlit("asset.stop_watching");
    reveal_strlit("edit.redo");
    reveal_strlit("edit.undo");
    reveal_strlit("elcarax.palette.close");
    reveal_strlit("elcarax.palette.open");
    reveal_strlit("inspector.clear");
    reveal_strlit("project.close");
    reveal_strlit("project.create");
    reveal_strlit("project.open");
    reveal_strlit("project.reopen_last");
    reveal_strlit("project.show_recent");
    reveal_strlit("project.validate");
    reveal_strlit("scene.clear");
    reveal_strlit("scene.clear_selection");
    reveal_strlit("scene.load");
    reveal_strlit("scene.save");
    assert(builtin_command_ids()[0].len() != builtin_command_ids()[28].len());
    assert(builtin_command_ids()[1].len() != builtin_command_ids()[28].len());
    assert(builtin_command_ids()[2].len() != builtin_command_ids()[28].len());
    assert(builtin_command_ids()[3].len() != builtin_command_ids()[28].len());
    assert(builtin_command_ids()[4].len() != builtin_command_ids()[28].len());
    assert(builtin_command_ids()[5].len() != builtin_command_ids()[28].len());
    assert(builtin_command_ids()[6].len() != builtin_command_ids()[28].len());
    assert(builtin_command_ids()[7].len() != builtin_command_ids()[28].len());
    assert(builtin_command_ids()[8].len() != builtin_command_ids()[28].len());
    assert(builtin_command_ids()[9].len() != builtin_command_ids()[28].len());
    assert(builtin_command_ids()[10].len() != builtin_command_ids()[28].len());
    assert(builtin_command_ids()[11].len() != builtin_command_ids()[28].len());
    assert(builtin_command_ids()[12].len() != builtin_command_ids()[28].len());
    assert(builtin_command_ids()[13].len() != builtin_command_ids()[28].len());
    assert(builtin_command_ids()[14].len() != builtin_command_ids()[28].len());
    assert(builtin_command_ids()[15].len() != builtin_command_ids()[28].len());
    assert(builtin_command_ids()[16].len() != builtin_command_ids()[28].len());
    assert(builtin_command_ids()[17].len() != builtin_command_ids()[28].len());
    assert(builtin_command_ids()[18].len() != builtin_command_ids()[28].len());
    assert(builtin_command_ids()[19].len() != builtin_command_ids()[28].len());
    assert(builtin_command_ids()[20].len() != builtin_command_ids()[28].len());
    assert(builtin_command_ids()[21].len() != builtin_command_ids()[28].len());
    assert(builtin_command_ids()[22].len() != builtin_command_ids()[28].len());
    assert(builtin_command_ids()[23].len() != builtin_command_ids()[28].len());
    assert(builtin_command_ids()[24].len() != builtin_command_ids()[28].len());
    assert(builtin_command_ids()[25][8] != builtin_command_ids()[28][8]);
    assert(builtin_command_ids()[26].len() != builtin_command_ids()[28].len());
    assert(builtin_command_ids()[27].len() != builtin_command_ids()[28].len());
}

proof fn lemma_fresh_29()
    ensures
        forall|i: int| 0 <= i < 29 ==> #[trigger] builtin_command_ids()[i] != builtin_command_ids()[29],
{
    reveal_strlit("adapter.connect");
    reveal_strlit("adapter.disconnect");
    reveal_strlit("adapter.handshake");
    reveal_strlit("adapter.load_project");
    reveal_strlit("adapter.load_scene");
    reveal_strlit("adapter.show_diagnostics");
    reveal_strlit("adapter.show_status");
    reveal_strlit("asset.clear_selection");
    reveal_strlit("asset.refresh");
    reveal_strlit("asset.reveal_root");
    reveal_strlit("asset.scan");
    reveal_strlit("asset.show_selected");
    reveal_strlit("asset.start_watching");
    reveal_strlit("asset.stop_watching");
    reveal_strlit("edit.redo");
    reveal_strlit("edit.undo");
    reveal_strlit("elcarax.palette.close");
    reveal_strlit("elcarax.palette.open");
    reveal_strlit("inspector.clear");
    reveal_strlit("project.close");
    reveal_strlit("project.create");
    reveal_strlit("project.open");
    reveal_strlit("project.reopen_last");
    reveal_strlit("project.show_recent");
    reveal_strlit("project.validate");
    reveal_strlit("scene.clear");
    reveal_strlit("scene.clear_selection");
    reveal_strlit("scene.load");
    reveal_strlit("scene.save");
    reveal_strlit("viewport.request_frame");
    assert(builtin_command_ids()[0].len() != builtin_command_ids()[29].len());
    assert(builtin_command_ids()[1].len() != builtin_command_ids()[29].len());
    assert(builtin_command_ids()[2].len() != builtin_command_ids()[29].len());
    assert(builtin_command_ids()[3].len() != builtin_command_ids()[29].len());
    assert(builtin_command_ids()[4].len() != builtin_command_ids()[29].len());
    assert(builtin_command_ids()[5].len() != builtin_command_ids()[29].len());
    assert(builtin_command_ids()[6].len() != builtin_command_ids()[29].len());
    assert(builtin_command_ids()[7].len() != builtin_command_ids()[29].len());
    assert(builtin_command_ids()[8].len() != builtin_command_ids()[29].len());
    assert(builtin_command_ids()[9].len() != builtin_command_ids()[29].len());
    assert(builtin_command_ids()[10].len() != builtin_command_ids()[29].len());
    assert(builtin_command_ids()[11].len() != builtin_command_ids()[29].len());
    assert(builtin_command_ids()[12].len() != builtin_command_ids()[29].len());
    assert(builtin_command_ids()[13].len() != builtin_command_ids()[29].len());
    assert(builtin_command_ids()[14].len() != builtin_command_ids()[29].len());
    assert(builtin_command_ids()[15].len() != builtin_command_ids()[29].len());
    assert(builtin_command_ids()[16].len() != builtin_command_ids()[29].len());
    assert(builtin_command_ids()[17].len() != builtin_command_ids()[29].len());
    assert(builtin_command_ids()[18].len() != builtin_command_ids()[29].len());
    assert(builtin_command_ids()[19].len() != builtin_command_ids()[29].len());
    assert(builtin_command_ids()[20].len() != builtin_command_ids()[29].len());
    assert(builtin_command_ids()[21].len() != builtin_command_ids()[29].len());
    assert(builtin_command_ids()[22].len() != builtin_command_ids()[29].len());
    assert(builtin_command_ids()[23].len() != builtin_command_ids()[29].len());
    assert(builtin_command_ids()[24].len() != builtin_command_ids()[29].len());
    assert(builtin_command_ids()[25].len() != builtin_command_ids()[29].len());
    assert(builtin_command_ids()[26].len() != builtin_command_ids()[29].len());
    assert(builtin_command_ids()[27].len() != builtin_command_ids()[29].len());
    assert(builtin_command_ids()[28].len() != builtin_command_ids()[29].len());
}

proof fn lemma_fresh_30()
    ensures
        forall|i: int| 0 <= i < 30 ==> #[trigger] builtin_command_ids()[i] != builtin_command_ids()[30],
{
    reveal_strlit("adapter.connect");
    reveal_strlit("adapter.disconnect");
    reveal_strlit("adapter.handshake");
    reveal_strlit("adapter.load_project");
    reveal_strlit("adapter.load_scene");
    reveal_strlit("adapter.show_diagnostics");
    reveal_strlit("adapter.show_status");
    reveal_strlit("asset.clear_selection");
    reveal_strlit("asset.refresh");
    reveal_strlit("asset.reveal_root");
    reveal_strlit("asset.scan");
    reveal_strlit("asset.show_selected");
    reveal_strlit("asset.start_watching");
    reveal_strlit("asset.stop_watching");
    reveal_strlit("edit.redo");
    reveal_strlit("edit.undo");
    reveal_strlit("elcarax.palette.close");
    reveal_strlit("elcarax.palette.open");
    reveal_strlit("inspector.clear");
    reveal_strlit("project.close");
    reveal_strlit("project.create");
    reveal_strlit("project.open");
    reveal_strlit("project.reopen_last");
    reveal_strlit("project.show_recent");
    reveal_strlit("project.validate");
    reveal_strlit("scene.clear");
    reveal_strlit("scene.clear_selection");
    reveal_strlit("scene.load");
    reveal_strlit("scene.save");
    reveal_strlit("viewport.clear");
    reveal_strlit("viewport.request_frame");
    assert(builtin_command_ids()[0].len() != builtin_command_ids()[30].len());
    assert(builtin_command_ids()[1].len() != builtin_command_ids()[30].len());
    assert(builtin_command_ids()[2][0] != builtin_command_ids()[30][0]);
    assert(builtin_command_ids()[3].len() != builtin_command_ids()[30].len());
    assert(builtin_command_ids()[4].len() != builtin_command_ids()[30].len());
    assert(builtin_command_ids()[5].len() != builtin_command_ids()[30].len());
    assert(builtin_command_ids()[6].len() != builtin_command_ids()[30].len());
    assert(builtin_command_ids()[7].len() != builtin_command_ids()[30].len());
    assert(builtin_command_ids()[8].len() != builtin_command_ids()[30].len());
    assert(builtin_command_ids()[9].len() != builtin_command_ids()[30].len());
    assert(builtin_command_ids()[10].len() != builtin_command_ids()[30].len());
    assert(builtin_command_ids()[11].len() != builtin_command_ids()[30].len());
    assert(builtin_command_ids()[12].len() != builtin_command_ids()[30].len());
    assert(builtin_command_ids()[13].len() != builtin_command_ids()[30].len());
    assert(builtin_command_ids()[14].len() != builtin_command_ids()[30].len());
    assert(builtin_command_ids()[15].len() != builtin_command_ids()[30].len());
    assert(builtin_command_ids()[16].len() != builtin_command_ids()[30].len());
    assert(builtin_command_ids()[17].len() != builtin_command_ids()[30].len());
    assert(builtin_command_ids()[18].len() != builtin_command_ids()[30].len());
    assert(builtin_command_ids()[19].len() != builtin_command_ids()[30].len());
    assert(builtin_command_ids()[20].len() != builtin_command_ids()[30].len());
    assert(builtin_command_ids()[21].len() != builtin_command_ids()[30].len());
    assert(builtin_command_ids()[22].len() != builtin_command_ids()[30].len());
    assert(builtin_command_ids()[23].len() != builtin_command_ids()[30].len());
    assert(builtin_command_ids()[24].len() != builtin_command_ids()[30].len());
    assert(builtin_command_ids()[25].len() != builtin_command_ids()[30].len());
    assert(builtin_command_ids()[26].len() != builtin_command_ids()[30].len());
    assert(builtin_command_ids()[27].len() != builtin_command_ids()[30].len());
    assert(builtin_command_ids()[28].len() != builtin_command_ids()[30].len());
    assert(builtin_command_ids()[29].len() != builtin_command_ids()[30].len());
}

proof fn lemma_fresh_31()
    ensures
        forall|i: int| 0 <= i < 31 ==> #[trigger] builtin_command_ids()[i] != builtin_command_ids()[31],
{
    reveal_strlit("adapter.connect");
    reveal_strlit("adapter.disconnect");
    reveal_strlit("adapter.handshake");
    reveal_strlit("adapter.load_project");
    reveal_strlit("adapter.load_scene");
    reveal_strlit("adapter.show_diagnostics");
    reveal_strlit("adapter.show_status");
    reveal_strlit("asset.clear_selection");
    reveal_strlit("asset.refresh");
    reveal_strlit("asset.reveal_root");
    reveal_strlit("asset.scan");
    reveal_strlit("asset.show_selected");
    reveal_strlit("asset.start_watching");
    reveal_strlit("asset.stop_watching");
    reveal_strlit("edit.redo");
    reveal_strlit("edit.undo");
    reveal_strlit("elcarax.palette.close");
    reveal_strlit("elcarax.palette.open");
    reveal_strlit("inspector.clear");
    reveal_strlit("project.close");
    reveal_strlit("project.create");
    reveal_strlit("project.open");
    reveal_strlit("project.reopen_last");
    reveal_strlit("project.show_recent");
    reveal_strlit("project.validate");
    reveal_strlit("scene.clear");
    reveal_strlit("scene.clear_selection");
    reveal_strlit("scene.load");
    reveal_strlit("scene.save");
    reveal_strlit("viewport.clear");
    reveal_strlit("viewport.request_frame");
    reveal_strlit("viewport.show_status");
    assert(builtin_command_ids()[0][0] != builtin_command_ids()[31][0]);
    assert(builtin_command_ids()[1].len() != builtin_command_ids()[31].len());
    assert(builtin_command_ids()[2].len() != builtin_command_ids()[31].len());
    assert(builtin_command_ids()[3].len() != builtin_command_ids()[31].len());
    assert(builtin_command_ids()[4].len() != builtin_command_ids()[31].len());
    assert(builtin_command_ids()[5].len() != builtin_command_ids()[31].len());
    assert(builtin_command_ids()[6].len() != builtin_command_ids()[31].len());
    assert(builtin_command_ids()[7].len() != builtin_command_ids()[31].len());
    assert(builtin_command_ids()[8].len() != builtin_command_ids()[31].len());
    assert(builtin_command_ids()[9].len() != builtin_command_ids()[31].len());
    assert(builtin_command_ids()[10][0] != builtin_command_ids()[31][0]);
    assert(builtin_command_ids()[11].len() != builtin_command_ids()[31].len());
    assert(builtin_command_ids()[12].len() != builtin_command_ids()[31].len());
    assert(builtin_command_ids()[13].len() != builtin_command_ids()[31].len());
    assert(builtin_command_ids()[14].len() != builtin_command_ids()[31].len());
    assert(builtin_command_ids()[15].len() != builtin_command_ids()[31].len());
    assert(builtin_command_ids()[16].len() != builtin_command_ids()[31].len());
    assert(builtin_command_ids()[17].len() != builtin_command_ids()[31].len());
    assert(builtin_command_ids()[18].len() != builtin_command_ids()[31].len());
    assert(builtin_command_ids()[19].len() != builtin_command_ids()[31].len());
    assert(builtin_command_ids()[20].len() != builtin_command_ids()[31].len());
    assert(builtin_command_ids()[21].len() != builtin_command_ids()[31].len());
    assert(builtin_command_ids()[22].len() != builtin_command_ids()[31].len());
    assert(builtin_command_ids()[23].len() != builtin_command_ids()[31].len());
    assert(builtin_command_ids()[24][0] != builtin_command_ids()[31][0]);
    assert(builtin_command_ids()[25].len() != builtin_command_ids()[31].len());
    assert(builtin_command_ids()[26].len() != builtin_command_ids()[31].len());
    assert(builtin_command_ids()[27].len() != builtin_command_ids()[31].len());
    assert(builtin_command_ids()[28].len() != builtin_command_ids()[31].len());
    assert(builtin_command_ids()[29].len() != builtin_command_ids()[31].len());
    assert(builtin_command_ids()[30].len() != builtin_command_ids()[31].len());
}

proof fn lemma_fresh_32()
    ensures
        forall|i: int| 0 <= i < 32 ==> #[trigger] builtin_command_ids()[i] != builtin_command_ids()[32],
{
    reveal_strlit("adapter.connect");
    reveal_strlit("adapter.disconnect");
    reveal_strlit("adapter.handshake");
    reveal_strlit("adapter.load_project");
    reveal_strlit("adapter.load_scene");
    reveal_strlit("adapter.show_diagnostics");
    reveal_strlit("adapter.show_status");
    reveal_strlit("asset.clear_selection");
    reveal_strlit("asset.refresh");
    reveal_strlit("asset.reveal_root");
    reveal_strlit("asset.scan");
    reveal_strlit("asset.show_selected");
    reveal_strlit("asset.start_watching");
    reveal_strlit("asset.stop_watching");
    reveal_strlit("edit.redo");
    reveal_strlit("edit.undo");
    reveal_strlit("elcarax.palette.close");
    reveal_strlit("elcarax.palette.open");
    reveal_strlit("help.shortcuts");
    reveal_strlit("inspector.clear");
    reveal_strlit("project.close");
    reveal_strlit("project.create");
    reveal_strlit("project.open");
    reveal_strlit("project.reopen_last");
    reveal_strlit("project.show_recent");
    reveal_strlit("project.validate");
    reveal_strlit("scene.clear");
    reveal_strlit("scene.clear_selection");
    reveal_strlit("scene.load");
    reveal_strlit("scene.save");
    reveal_strlit("viewport.clear");
    reveal_strlit("viewport.request_frame");
    reveal_strlit("viewport.show_status");
    assert(builtin_command_ids()[0].len() != builtin_command_ids()[32].len());
    assert(builtin_command_ids()[1].len() != builtin_command_ids()[32].len());
    assert(builtin_command_ids()[2][0] != builtin_command_ids()[32][0]);
    assert(builtin_command_ids()[3].len() != builtin_command_ids()[32].len());
    assert(builtin_command_ids()[4].len() != builtin_command_ids()[32].len());
    assert(builtin_command_ids()[5].len() != builtin_command_ids()[32].len());
    assert(builtin_command_ids()[6].len() != builtin_command_ids()[32].len());
    assert(builtin_command_ids()[7].len() != builtin_command_ids()[32].len());
    assert(builtin_command_ids()[8].len() != builtin_command_ids()[32].len());
    assert(builtin_command_ids()[9].len() != builtin_command_ids()[32].len());
    assert(builtin_command_ids()[10].len() != builtin_command_ids()[32].len());
    assert(builtin_command_ids()[11].len() != builtin_command_ids()[32].len());
    assert(builtin_command_ids()[12].len() != builtin_command_ids()[32].len());
    assert(builtin_command_ids()[13].len() != builtin_command_ids()[32].len());
    assert(builtin_command_ids()[14].len() != builtin_command_ids()[32].len());
    assert(builtin_command_ids()[15].len() != builtin_command_ids()[32].len());
    assert(builtin_command_ids()[16].len() != builtin_command_ids()[32].len());
    assert(builtin_command_ids()[17].len() != builtin_command_ids()[32].len());
    assert(builtin_command_ids()[18].len() != builtin_command_ids()[32].len());
    assert(builtin_command_ids()[19].len() != builtin_command_ids()[32].len());
    assert(builtin_command_ids()[20].len() != builtin_command_ids()[32].len());
    assert(builtin_command_ids()[21].len() != builtin_command_ids()[32].len());
    assert(builtin_command_ids()[22].len() != builtin_command_ids()[32].len());
    assert(builtin_command_ids()[23].len() != builtin_command_ids()[32].len());
    assert(builtin_command_ids()[24].len() != builtin_command_ids()[32].len());
    assert(builtin_command_ids()[25].len() != builtin_command_ids()[32].len());
    assert(builtin_command_ids()[26].len() != builtin_command_ids()[32].len());
    assert(builtin_command_ids()[27].len() != builtin_command_ids()[32].len());
    assert(builtin_command_ids()[28].len() != builtin_command_ids()[32].len());
    assert(builtin_command_ids()[29].len() != builtin_command_ids()[32].len());
    assert(builtin_command_ids()[30][0] != builtin_command_ids()[32][0]);
    assert(builtin_command_ids()[31].len() != builtin_command_ids()[32].len());
}

proof fn lemma_fresh_33()
    ensures
        forall|i: int| 0 <= i < 33 ==> #[trigger] builtin_command_ids()[i] != builtin_command_ids()[33],
{
    reveal_strlit("adapter.connect");
    reveal_strlit("adapter.disconnect");
    reveal_strlit("adapter.handshake");
    reveal_strlit("adapter.load_project");
    reveal_strlit("adapter.load_scene");
    reveal_strlit("adapter.show_diagnostics");
    reveal_strlit("adapter.show_status");
    reveal_strlit("asset.clear_selection");
    reveal_strlit("asset.refresh");
    reveal_strlit("asset.reveal_root");
    reveal_strlit("asset.scan");
    reveal_strlit("asset.show_selected");
    reveal_strlit("asset.start_watching");
    reveal_strlit("asset.stop_watching");
    reveal_strlit("edit.redo");
    reveal_strlit("edit.undo");
    reveal_strlit("elcarax.palette.close");
    reveal_strlit("elcarax.palette.open");
    reveal_strlit("help.commands");
    reveal_strlit("help.shortcuts");
    reveal_strlit("inspector.clear");
    reveal_strlit("project.close");
    reveal_strlit("project.create");
    reveal_strlit("project.open");
    reveal_strlit("project.reopen_last");
    reveal_strlit("project.show_recent");
    reveal_strlit("project.validate");
    reveal_strlit("scene.clear");
    reveal_strlit("scene.clear_selection");
    reveal_strlit("scene.load");
    reveal_strlit("scene.save");
    reveal_strlit("viewport.clear");
    reveal_strlit("viewport.request_frame");
    reveal_strlit("viewport.show_status");
    assert(builtin_command_ids()[0].len() != builtin_command_ids()[33].len());
    assert(builtin_command_ids()[1].len() != builtin_command_ids()[33].len());
    assert(builtin_command_ids()[2].len() != builtin_command_ids()[33].len());
    assert(builtin_command_ids()[3].len() != builtin_command_ids()[33].len());
    assert(builtin_command_ids()[4][0] != builtin_command_ids()[33][0]);
    assert(builtin_command_ids()[5].len() != builtin_command_ids()[33].len());
    assert(builtin_command_ids()[6].len() != builtin_command_ids()[33].len());
    assert(builtin_command_ids()[7].len() != builtin_command_ids()[33].len());
    assert(builtin_command_ids()[8].len() != builtin_command_ids()[33].len());
    assert(builtin_command_ids()[9][0] != builtin_command_ids()[33][0]);
    assert(builtin_command_ids()[10].len() != builtin_command_ids()[33].len());
    assert(builtin_command_ids()[11].len() != builtin_command_ids()[33].len());
    assert(builtin_command_ids()[12].len() != builtin_command_ids()[33].len());
    assert(builtin_command_ids()[13].len() != builtin_command_ids()[33].len());
    assert(builtin_command_ids()[14].len() != builtin_command_ids()[33].len());
    assert(builtin_command_ids()[15].len() != builtin_command_ids()[33].len());
    assert(builtin_command_ids()[16].len() != builtin_command_ids()[33].len());
    assert(builtin_command_ids()[17].len() != builtin_command_ids()[33].len());
    assert(builtin_command_ids()[18].len() != builtin_command_ids()[33].len());
    assert(builtin_command_ids()[19].len() != builtin_command_ids()[33].len());
    assert(builtin_command_ids()[20].len() != builtin_command_ids()[33].len());
    assert(builtin_command_ids()[21].len() != builtin_command_ids()[33].len());
    assert(builtin_command_ids()[22].len() != builtin_command_ids()[33].len());
    assert(builtin_command_ids()[23].len() != builtin_command_ids()[33].len());
    assert(builtin_command_ids()[24].len() != builtin_command_ids()[33].len());
    assert(builtin_command_ids()[25].len() != builtin_command_ids()[33].len());
    assert(builtin_command_ids()[26].len() != builtin_command_ids()[33].len());
    assert(builtin_command_ids()[27].len() != builtin_command_ids()[33].len());
    assert(builtin_command_ids()[28].len() != builtin_command_ids()[33].len());
    assert(builtin_command_ids()[29].len() != builtin_command_ids()[33].len());
    assert(builtin_command_ids()[30].len() != builtin_command_ids()[33].len());
    assert(builtin_command_ids()[31].len() != builtin_command_ids()[33].len());
    assert(builtin_command_ids()[32].len() != builtin_command_ids()[33].len());
}

proof fn lemma_fresh_34()
    ensures
        forall|i: int| 0 <= i < 34 ==> #[trigger] builtin_command_ids()[i] != builtin_command_ids()[34],
{
    reveal_strlit("adapter.connect");
    reveal_strlit("adapter.disconnect");
    reveal_strlit("adapter.handshake");
    reveal_strlit("adapter.load_project");
    reveal_strlit("adapter.load_scene");
    reveal_strlit("adapter.show_diagnostics");
    reveal_strlit("adapter.show_status");
    reveal_strlit("asset.clear_selection");
    reveal_strlit("asset.refresh");
    reveal_strlit("asset.reveal_root");
    reveal_strlit("asset.scan");
    reveal_strlit("asset.show_selected");
    reveal_strlit("asset.start_watching");
    reveal_strlit("asset.stop_watching");
    reveal_strlit("edit.redo");
    reveal_strlit("edit.undo");
    reveal_strlit("elcarax.palette.close");
    reveal_strlit("elcarax.palette.open");
    reveal_strlit("elcarax.status.show_renderer_stats");
    reveal_strlit("help.commands");
    reveal_strlit("help.shortcuts");
    reveal_strlit("inspector.clear");
    reveal_strlit("project.close");
    reveal_strlit("project.create");
    reveal_strlit("project.open");
    reveal_strlit("project.reopen_last");
    reveal_strlit("project.show_recent");
    reveal_strlit("project.validate");
    reveal_strlit("scene.clear");
    reveal_strlit("scene.clear_selection");
    reveal_strlit("scene.load");
    reveal_strlit("scene.save");
    reveal_strlit("viewport.clear");
    reveal_strlit("viewport.request_frame");
    reveal_strlit("viewport.show_status");
    assert(builtin_command_ids()[0].len() != builtin_command_ids()[34].len());
    assert(builtin_command_ids()[1].len() != builtin_command_ids()[34].len());
    assert(builtin_command_ids()[2].len() != builtin_command_ids()[34].len());
    assert(builtin_command_ids()[3].len() != builtin_command_ids()[34].len());
    assert(builtin_command_ids()[4].len() != builtin_command_ids()[34].len());
    assert(builtin_command_ids()[5].len() != builtin_command_ids()[34].len());
    assert(builtin_command_ids()[6].len() != builtin_command_ids()[34].len());
    assert(builtin_command_ids()[7].len() != builtin_command_ids()[34].len());
    assert(builtin_command_ids()[8].len() != builtin_command_ids()[34].len());
    assert(builtin_command_ids()[9].len() != builtin_command_ids()[34].len());
    assert(builtin_command_ids()[10].len() != builtin_command_ids()[34].len());
    assert(builtin_command_ids()[11].len() != builtin_command_ids()[34].len());
    assert(builtin_command_ids()[12].len() != builtin_command_ids()[34].len());
    assert(builtin_command_ids()[13].len() != builtin_command_ids()[34].len());
    assert(builtin_command_ids()[14].len() != builtin_command_ids()[34].len());
    assert(builtin_command_ids()[15].len() != builtin_command_ids()[34].len());
    assert(builtin_command_ids()[16].len() != builtin_command_ids()[34].len());
    assert(builtin_command_ids()[17].len() != builtin_command_ids()[34].len());
    assert(builtin_command_ids()[18].len() != builtin_command_ids()[34].len());
    assert(builtin_command_ids()[19].len() != builtin_command_ids()[34].len());
    assert(builtin_command_ids()[20].len() != builtin_command_ids()[34].len());
    assert(builtin_command_ids()[21].len() != builtin_command_ids()[34].len());
    assert(builtin_command_ids()[22].len() != builtin_command_ids()[34].len());
    assert(builtin_command_ids()[23].len() != builtin_command_ids()[34].len());
    assert(builtin_command_ids()[24].len() != builtin_command_ids()[34].len());
    assert(builtin_command_ids()[25].len() != builtin_command_ids()[34].len());
    assert(builtin_command_ids()[26].len() != builtin_command_ids()[34].len());
    assert(builtin_command_ids()[27].len() != builtin_command_ids()[34].len());
    assert(builtin_command_ids()[28].len() != builtin_command_ids()[34].len());
    assert(builtin_command_ids()[29].len() != builtin_command_ids()[34].len());
    assert(builtin_command_ids()[30].len() != builtin_command_ids()[34].len());
    assert(builtin_command_ids()[31].len() != builtin_command_ids()[34].len());
    assert(builtin_command_ids()[32].len() != builtin_command_ids()[34].len());
    assert(builtin_command_ids()[33].len() != builtin_command_ids()[34].len());
}

proof fn lemma_fresh_35()
    ensures
        forall|i: int| 0 <= i < 35 ==> #[trigger] builtin_command_ids()[i] != builtin_command_ids()[35],
{
    reveal_strlit("adapter.connect");
    reveal_strlit("adapter.disconnect");
    reveal_strlit("adapter.handshake");
    reveal_strlit("adapter.load_project");
    reveal_strlit("adapter.load_scene");
    reveal_strlit("adapter.show_diagnostics");
    reveal_strlit("adapter.show_status");
    reveal_strlit("asset.clear_selection");
    reveal_strlit("asset.refresh");
    reveal_strlit("asset.reveal_root");
    reveal_strlit("asset.scan");
    reveal_strlit("asset.show_selected");
    reveal_strlit("asset.start_watching");
    reveal_strlit("asset.stop_watching");
    reveal_strlit("edit.redo");
    reveal_strlit("edit.undo");
    reveal_strlit("elcarax.palette.close");
    reveal_strlit("elcarax.palette.open");
    reveal_strlit("elcarax.status.show_ready");
    reveal_strlit("elcarax.status.show_renderer_stats");
    reveal_strlit("help.commands");
    reveal_strlit("help.shortcuts");
    reveal_strlit("inspector.clear");
    reveal_strlit("project.close");
    reveal_strlit("project.create");
    reveal_strlit("project.open");
    reveal_strlit("project.reopen_last");
    reveal_strlit("project.show_recent");
    reveal_strlit("project.validate");
    reveal_strlit("scene.clear");
    reveal_strlit("scene.clear_selection");
    reveal_strlit("scene.load");
    reveal_strlit("scene.save");
    reveal_strlit("viewport.clear");
    reveal_strlit("viewport.request_frame");
    reveal_strlit("viewport.show_status");
    assert(builtin_command_ids()[0].len() != builtin_command_ids()[35].len());
    assert(builtin_command_ids()[1].len() != builtin_command_ids()[35].len());
    assert(builtin_command_ids()[2].len() != builtin_command_ids()[35].len());
    assert(builtin_command_ids()[3].len() != builtin_command_ids()[35].len());
    assert(builtin_command_ids()[4].len() != builtin_command_ids()[35].len());
    assert(builtin_command_ids()[5].len() != builtin_command_ids()[35].len());
    assert(builtin_command_ids()[6].len() != builtin_command_ids()[35].len());
    assert(builtin_command_ids()[7].len() != builtin_command_ids()[35].len());
    assert(builtin_command_ids()[8].len() != builtin_command_ids()[35].len());
    assert(builtin_command_ids()[9].len() != builtin_command_ids()[35].len());
    assert(builtin_command_ids()[10].len() != builtin_command_ids()[35].len());
    assert(builtin_command_ids()[11].len() != builtin_command_ids()[35].len());
    assert(builtin_command_ids()[12].len() != builtin_command_ids()[35].len());
    assert(builtin_command_ids()[13].len() != builtin_command_ids()[35].len());
    assert(builtin_command_ids()[14].len() != builtin_command_ids()[35].len());
    assert(builtin_command_ids()[15].len() != builtin_command_ids()[35].len());
    assert(builtin_command_ids()[16].len() != builtin_command_ids()[35].len());
    assert(builtin_command_ids()[17].len() != builtin_command_ids()[35].len());
    assert(builtin_command_ids()[18].len() != builtin_command_ids()[35].len());
    assert(builtin_command_ids()[19].len() != builtin_command_ids()[35].len());
    assert(builtin_command_ids()[20].len() != builtin_command_ids()[35].len());
    assert(builtin_command_ids()[21].len() != builtin_command_ids()[35].len());
    assert(builtin_command_ids()[22].len() != builtin_command_ids()[35].len());
    assert(builtin_command_ids()[23].len() != builtin_command_ids()[35].len());
    assert(builtin_command_ids()[24].len() != builtin_command_ids()[35].len());
    assert(builtin_command_ids()[25].len() != builtin_command_ids()[35].len());
    assert(builtin_command_ids()[26].len() != builtin_command_ids()[35].len());
    assert(builtin_command_ids()[27].len() != builtin_command_ids()[35].len());
    assert(builtin_command_ids()[28].len() != builtin_command_ids()[35].len());
    assert(builtin_command_ids()[29].len() != builtin_command_ids()[35].len());
    assert(builtin_command_ids()[30].len() != builtin_command_ids()[35].len());
    assert(builtin_command_ids()[31].len() != builtin_command_ids()[35].len());
    assert(builtin_command_ids()[32].len() != builtin_command_ids()[35].len());
    assert(builtin_command_ids()[33].len() != builtin_command_ids()[35].len());
    assert(builtin_command_ids()[34].len() != builtin_command_ids()[35].len());
}

fn register_builtins_0(registry: &mut CommandRegistry) -> (r: Result<(), CommandRegistryError>)
    requires
        old(registry)@.map_values(|c: CommandView| c.id) == builtin_command_ids().take(0),
        old(registry)@ == builtin_command_views().take(0),
    ensures
        r is Ok,
        final(registry)@.map_values(|c: CommandView| c.id) == builtin_command_ids().take(6),
        final(registry)@ == builtin_command_views().take(6),
{
    proof {
        lemma_builtin_chords();
    }
    let ghost ids = builtin_command_ids();
    assert(registry@.map_values(|c: CommandView| c.id).len() == registry@.len());
    assert(ids.len() == 36);
    proof {
        reveal_strlit("elcarax.palette.open");
        assert(!crate::text::is_whitespace_char("elcarax.palette.open"@[0]));
        reveal_strlit("Open Command Palette");
        assert(!crate::text::is_whitespace_char("Open Command Palette"@[0]));
        reveal_strlit("K");
        assert(!crate::text::is_whitespace_char("K"@[0]));
    }
    let c = registered("elcarax.palette.open", "Open Command Palette", "Open the command palette overlay", CommandCategory::Window);
    let c = c.with_shortcut(global_shortcut(false, "K"));
    assert(registry@.len() == 0);
    assert(!has_id(registry@, c@.id)) by {
        assert forall|i: int| 0 <= i < registry@.len() implies #[trigger] registry@[i].id != c@.id by {
            assert(registry@.map_values(|c: CommandView| c.id)[i] == registry@[i].id);
            assert(ids.take(0)[i] == ids[i]);
        }
    }
    let ghost before = registry@;
    match registry.register(c) {
        Ok(()) => {},
        Err(e) => return Err(e),
    }
    assert(registry@.map_values(|c: CommandView| c.id) =~= before.map_values(|c: CommandView| c.id).push(ids[0]));
    assert(ids.take(1) =~= ids.take(0).push(ids[0]));
    assert(registry@ =~= builtin_command_views().take(1));
    proof {
        reveal_strlit("elcarax.palette.close");
        assert(!crate::text::is_whitespace_char("elcarax.palette.close"@[0]));
        reveal_strlit("Close Command Palette");
        assert(!crate::text::is_whitespace_char("Close Command Palette"@[0]));
        lemma_fresh_1();
    }
    let c = registered("elcarax.palette.close", "Close Command Palette", "Close the command palette overlay", CommandCategory::Window);
    assert(registry@.len() == 1);
    assert(!has_id(registry@, c@.id)) by {
        assert forall|i: int| 0 <= i < registry@.len() implies #[trigger] registry@[i].id != c@.id by {
            assert(registry@.map_values(|c: CommandView| c.id)[i] == registry@[i].id);
            assert(ids.take(1)[i] == ids[i]);
        }
    }
    let ghost before = registry@;
    match registry.register(c) {
        Ok(()) => {},
        Err(e) => return Err(e),
    }
    assert(registry@.map_values(|c: CommandView| c.id) =~= before.map_values(|c: CommandView| c.id).push(ids[1]));
    assert(ids.take(2) =~= ids.take(1).push(ids[1]));
    assert(registry@ =~= builtin_command_views().take(2));
    proof {
        reveal_strlit("project.create");
        assert(!crate::text::is_whitespace_char("project.create"@[0]));
        reveal_strlit("Create Project");
        assert(!crate::text::is_whitespace_char("Create Project"@[0]));
        reveal_strlit("N");
        assert(!crate::text::is_whitespace_char("N"@[0]));
        lemma_fresh_2();
    }
    let c = registered("project.create", "Create Project", "Create a project at the configured project path", CommandCategory::Project);
    let c = c.with_shortcut(global_shortcut(false, "N"));
    let c = c.with_presentation(toolbar(CommandCategory::Project, 0, "New"));
    assert(registry@.len() == 2);
    assert(!has_id(registry@, c@.id)) by {
        assert forall|i: int| 0 <= i < registry@.len() implies #[trigger] registry@[i].id != c@.id by {
            assert(registry@.map_values(|c: CommandView| c.id)[i] == registry@[i].id);
            assert(ids.take(2)[i] == ids[i]);
        }
    }
    let ghost before = registry@;
    match registry.register(c) {
        Ok(()) => {},
        Err(e) => return Err(e),
    }
    assert(registry@.map_values(|c: CommandView| c.id) =~= before.map_values(|c: CommandView| c.id).push(ids[2]));
    assert(ids.take(3) =~= ids.take(2).push(ids[2]));
    assert(registry@ =~= builtin_command_views().take(3));
    proof {
        reveal_strlit("project.open");
        assert(!crate::text::is_whitespace_char("project.open"@[0]));
        reveal_strlit("Open Project");
        assert(!crate::text::is_whitespace_char("Open Project"@[0]));
        reveal_strlit("O");
        assert(!crate::text::is_whitespace_char("O"@[0]));
        lemma_fresh_3();
    }
    let c = registered("project.open", "Open Project", "Open a project from the configured project path", CommandCategory::Project);
    let c = c.with_shortcut(global_shortcut(false, "O"));
    let c = c.with_presentation(toolbar(CommandCategory::Project, 1, "Open"));
    assert(registry@.len() == 3);
    assert(!has_id(registry@, c@.id)) by {
        assert forall|i: int| 0 <= i < registry@.len() implies #[trigger] registry@[i].id != c@.id by {
            assert(registry@.map_values(|c: CommandView| c.id)[i] == registry@[i].id);
            assert(ids.take(3)[i] == ids[i]);
        }
    }
    let ghost before = registry@;
    match registry.register(c) {
        Ok(()) => {},
        Err(e) => return Err(e),
    }
    assert(registry@.map_values(|c: CommandView| c.id) =~= before.map_values(|c: CommandView| c.id).push(ids[3]));
    assert(ids.take(4) =~= ids.take(3).push(ids[3]));
    assert(registry@ =~= builtin_command_views().take(4));
    proof {
        reveal_strlit("project.close");
        assert(!crate::text::is_whitespace_char("project.close"@[0]));
        reveal_strlit("Close Project");
        assert(!crate::text::is_whitespace_char("Close Project"@[0]));
        lemma_fresh_4();
    }
    let c = registered("project.close", "Close Project", "Return to no-project state", CommandCategory::Project);
    assert(registry@.len() == 4);
    assert(!has_id(registry@, c@.id)) by {
        assert forall|i: int| 0 <= i < registry@.len() implies #[trigger] registry@[i].id != c@.id by {
            assert(registry@.map_values(|c: CommandView| c.id)[i] == registry@[i].id);
            assert(ids.take(4)[i] == ids[i]);
        }
    }
    let ghost before = registry@;
    match registry.register(c) {
        Ok(()) => {},
        Err(e) => return Err(e),
    }
    assert(registry@.map_values(|c: CommandView| c.id) =~= before.map_values(|c: CommandView| c.id).push(ids[4]));
    assert(ids.take(5) =~= ids.take(4).push(ids[4]));
    assert(registry@ =~= builtin_command_views().take(5));
    proof {
        reveal_strlit("project.validate");
        assert(!crate::text::is_whitespace_char("project.validate"@[0]));
        reveal_strlit("Validate Project");
        assert(!crate::text::is_whitespace_char("Validate Project"@[0]));
        lemma_fresh_5();
    }
    let c = registered("project.validate", "Validate Project", "Validate the current project manifest and paths", CommandCategory::Project);
    assert(registry@.len() == 5);
    assert(!has_id(registry@, c@.id)) by {
        assert forall|i: int| 0 <= i < registry@.len() implies #[trigger] registry@[i].id != c@.id by {
            assert(registry@.map_values(|c: CommandView| c.id)[i] == registry@[i].id);
            assert(ids.take(5)[i] == ids[i]);
        }
    }
    let ghost before = registry@;
    match registry.register(c) {
        Ok(()) => {},
        Err(e) => return Err(e),
    }
    assert(registry@.map_values(|c: CommandView| c.id) =~= before.map_values(|c: CommandView| c.id).push(ids[5]));
    assert(ids.take(6) =~= ids.take(5).push(ids[5]));
    assert(registry@ =~= builtin_command_views().take(6));
    Ok(())
}

fn register_builtins_1(registry: &mut CommandRegistry) -> (r: Result<(), CommandRegistryError>)
    requires
        old(registry)@.map_values(|c: CommandView| c.id) == builtin_command_ids().take(6),
        old(registry)@ == builtin_command_views().take(6),
    ensures
        r is Ok,
        final(registry)@.map_values(|c: CommandView| c.id) == builtin_command_ids().take(12),
        final(registry)@ == builtin_command_views().take(12),
{
    proof {
        lemma_builtin_chords();
    }
    let ghost ids = builtin_command_ids();
    assert(registry@.map_values(|c: CommandView| c.id).len() == registry@.len());
    assert(ids.len() == 36);
    proof {
        reveal_strlit("project.show_recent");
        assert(!crate::text::is_whitespace_char("project.show_recent"@[0]));
        reveal_strlit("Show Recent Projects");
        assert(!crate::text::is_whitespace_char("Show Recent Projects"@[0]));
        lemma_fresh_6();
    }
    let c = registered("project.show_recent", "Show Recent Projects", "Show the recent projects summary", CommandCategory::Project);
    assert(registry@.len() == 6);
    assert(!has_id(registry@, c@.id)) by {
        assert forall|i: int| 0 <= i < registry@.len() implies #[trigger] registry@[i].id != c@.id by {
            assert(registry@.map_values(|c: CommandView| c.id)[i] == registry@[i].id);
            assert(ids.take(6)[i] == ids[i]);
        }
    }
    let ghost before = registry@;
    match registry.register(c) {
        Ok(()) => {},
        Err(e) => return Err(e),
    }
    assert(registry@.map_values(|c: CommandView| c.id) =~= before.map_values(|c: CommandView| c.id).push(ids[6]));
    assert(ids.take(7) =~= ids.take(6).push(ids[6]));
    assert(registry@ =~= builtin_command_views().take(7));
    proof {
        reveal_strlit("project.reopen_last");
        assert(!crate::text::is_whitespace_char("project.reopen_last"@[0]));
        reveal_strlit("Reopen Last Project");
        assert(!crate::text::is_whitespace_char("Reopen Last Project"@[0]));
        reveal_strlit("O");
        assert(!crate::text::is_whitespace_char("O"@[0]));
        lemma_fresh_7();
    }
    let c = registered("project.reopen_last", "Reopen Last Project", "Open the most recent project when available", CommandCategory::Project);
    let c = c.with_shortcut(global_shortcut(true, "O"));
    assert(registry@.len() == 7);
    assert(!has_id(registry@, c@.id)) by {
        assert forall|i: int| 0 <= i < registry@.len() implies #[trigger] registry@[i].id != c@.id by {
            assert(registry@.map_values(|c: CommandView| c.id)[i] == registry@[i].id);
            assert(ids.take(7)[i] == ids[i]);
        }
    }
    let ghost before = registry@;
    match registry.register(c) {
        Ok(()) => {},
        Err(e) => return Err(e),
    }
    assert(registry@.map_values(|c: CommandView| c.id) =~= before.map_values(|c: CommandView| c.id).push(ids[7]));
    assert(ids.take(8) =~= ids.take(7).push(ids[7]));
    assert(registry@ =~= builtin_command_views().take(8));
    proof {
        reveal_strlit("asset.scan");
        assert(!crate::text::is_whitespace_char("asset.scan"@[0]));
        reveal_strlit("Scan Assets");
        assert(!crate::text::is_whitespace_char("Scan Assets"@[0]));
        lemma_fresh_8();
    }
    let c = registered("asset.scan", "Scan Assets", "Scan assets when an asset root is loaded", CommandCategory::Asset);
    let c = c.with_presentation(toolbar(CommandCategory::Asset, 5, "Scan"));
    assert(registry@.len() == 8);
    assert(!has_id(registry@, c@.id)) by {
        assert forall|i: int| 0 <= i < registry@.len() implies #[trigger] registry@[i].id != c@.id by {
            assert(registry@.map_values(|c: CommandView| c.id)[i] == registry@[i].id);
            assert(ids.take(8)[i] == ids[i]);
        }
    }
    let ghost before = registry@;
    match registry.register(c) {
        Ok(()) => {},
        Err(e) => return Err(e),
    }
    assert(registry@.map_values(|c: CommandView| c.id) =~= before.map_values(|c: CommandView| c.id).push(ids[8]));
    assert(ids.take(9) =~= ids.take(8).push(ids[8]));
    assert(registry@ =~= builtin_command_views().take(9));
    proof {
        reveal_strlit("asset.refresh");
        assert(!crate::text::is_whitespace_char("asset.refresh"@[0]));
        reveal_strlit("Refresh Assets");
        assert(!crate::text::is_whitespace_char("Refresh Assets"@[0]));
        lemma_fresh_9();
    }
    let c = registered("asset.refresh", "Refresh Assets", "Rescan the loaded project's asset root and clear dirty state", CommandCategory::Asset);
    let c = c.with_presentation(toolbar(CommandCategory::Asset, 6, "Refresh"));
    assert(registry@.len() == 9);
    assert(!has_id(registry@, c@.id)) by {
        assert forall|i: int| 0 <= i < registry@.len() implies #[trigger] registry@[i].id != c@.id by {
            assert(registry@.map_values(|c: CommandView| c.id)[i] == registry@[i].id);
            assert(ids.take(9)[i] == ids[i]);
        }
    }
    let ghost before = registry@;
    match registry.register(c) {
        Ok(()) => {},
        Err(e) => return Err(e),
    }
    assert(registry@.map_values(|c: CommandView| c.id) =~= before.map_values(|c: CommandView| c.id).push(ids[9]));
    assert(ids.take(10) =~= ids.take(9).push(ids[9]));
    assert(registry@ =~= builtin_command_views().take(10));
    proof {
        reveal_strlit("asset.start_watching");
        assert(!crate::text::is_whitespace_char("asset.start_watching"@[0]));
        reveal_strlit("Start Asset Watcher");
        assert(!crate::text::is_whitespace_char("Start Asset Watcher"@[0]));
        lemma_fresh_10();
    }
    let c = registered("asset.start_watching", "Start Asset Watcher", "Watch the loaded project's asset root for filesystem changes", CommandCategory::Asset);
    assert(registry@.len() == 10);
    assert(!has_id(registry@, c@.id)) by {
        assert forall|i: int| 0 <= i < registry@.len() implies #[trigger] registry@[i].id != c@.id by {
            assert(registry@.map_values(|c: CommandView| c.id)[i] == registry@[i].id);
            assert(ids.take(10)[i] == ids[i]);
        }
    }
    let ghost before = registry@;
    match registry.register(c) {
        Ok(()) => {},
        Err(e) => return Err(e),
    }
    assert(registry@.map_values(|c: CommandView| c.id) =~= before.map_values(|c: CommandView| c.id).push(ids[10]));
    assert(ids.take(11) =~= ids.take(10).push(ids[10]));
    assert(registry@ =~= builtin_command_views().take(11));
    proof {
        reveal_strlit("asset.stop_watching");
        assert(!crate::text::is_whitespace_char("asset.stop_watching"@[0]));
        reveal_strlit("Stop Asset Watcher");
        assert(!crate::text::is_whitespace_char("Stop Asset Watcher"@[0]));
        lemma_fresh_11();
    }
    let c = registered("asset.stop_watching", "Stop Asset Watcher", "Stop watching the current project asset root", CommandCategory::Asset);
    assert(registry@.len() == 11);
    assert(!has_id(registry@, c@.id)) by {
        assert forall|i: int| 0 <= i < registry@.len() implies #[trigger] registry@[i].id != c@.id by {
            assert(registry@.map_values(|c: CommandView| c.id)[i] == registry@[i].id);
            assert(ids.take(11)[i] == ids[i]);
        }
    }
    let ghost before = registry@;
    match registry.register(c) {
        Ok(()) => {},
        Err(e) => return Err(e),
    }
    assert(registry@.map_values(|c: CommandView| c.id) =~= before.map_values(|c: CommandView| c.id).push(ids[11]));
    assert(ids.take(12) =~= ids.take(11).push(ids[11]));
    assert(registry@ =~= builtin_command_views().take(12));
    Ok(())
}

fn register_builtins_2(registry: &mut CommandRegistry) -> (r: Result<(), CommandRegistryError>)
    requires
        old(registry)@.map_values(|c: CommandView| c.id) == builtin_command_ids().take(12),
        old(registry)@ == builtin_command_views().take(12),
    ensures
        r is Ok,
        final(registry)@.map_values(|c: CommandView| c.id) == builtin_command_ids().take(18),
        final(registry)@ == builtin_command_views().take(18),
{
    proof {
        lemma_builtin_chords();
    }
    let ghost ids = builtin_command_ids();
    assert(registry@.map_values(|c: CommandView| c.id).len() == registry@.len());
    assert(ids.len() == 36);
    proof {
        reveal_strlit("asset.clear_selection");
        assert(!crate::text::is_whitespace_char("asset.clear_selection"@[0]));
        reveal_strlit("Clear Asset Selection");
        assert(!crate::text::is_whitespace_char("Clear Asset Selection"@[0]));
        lemma_fresh_12();
    }
    let c = registered("asset.clear_selection", "Clear Asset Selection", "Clear the current asset selection", CommandCategory::Asset);
    assert(registry@.len() == 12);
    assert(!has_id(registry@, c@.id)) by {
        assert forall|i: int| 0 <= i < registry@.len() implies #[trigger] registry@[i].id != c@.id by {
            assert(registry@.map_values(|c: CommandView| c.id)[i] == registry@[i].id);
            assert(ids.take(12)[i] == ids[i]);
        }
    }
    let ghost before = registry@;
    match registry.register(c) {
        Ok(()) => {},
        Err(e) => return Err(e),
    }
    assert(registry@.map_values(|c: CommandView| c.id) =~= before.map_values(|c: CommandView| c.id).push(ids[12]));
    assert(ids.take(13) =~= ids.take(12).push(ids[12]));
    assert(registry@ =~= builtin_command_views().take(13));
    proof {
        reveal_strlit("asset.show_selected");
        assert(!crate::text::is_whitespace_char("asset.show_selected"@[0]));
        reveal_strlit("Show Selected Asset");
        assert(!crate::text::is_whitespace_char("Show Selected Asset"@[0]));
        lemma_fresh_13();
    }
    let c = registered("asset.show_selected", "Show Selected Asset", "Report the current selected asset", CommandCategory::Asset);
    assert(registry@.len() == 13);
    assert(!has_id(registry@, c@.id)) by {
        assert forall|i: int| 0 <= i < registry@.len() implies #[trigger] registry@[i].id != c@.id by {
            assert(registry@.map_values(|c: CommandView| c.id)[i] == registry@[i].id);
            assert(ids.take(13)[i] == ids[i]);
        }
    }
    let ghost before = registry@;
    match registry.register(c) {
        Ok(()) => {},
        Err(e) => return Err(e),
    }
    assert(registry@.map_values(|c: CommandView| c.id) =~= before.map_values(|c: CommandView| c.id).push(ids[13]));
    assert(ids.take(14) =~= ids.take(13).push(ids[13]));
    assert(registry@ =~= builtin_command_views().take(14));
    proof {
        reveal_strlit("asset.reveal_root");
        assert(!crate::text::is_whitespace_char("asset.reveal_root"@[0]));
        reveal_strlit("Reveal Asset Root");
        assert(!crate::text::is_whitespace_char("Reveal Asset Root"@[0]));
        lemma_fresh_14();
    }
    let c = registered("asset.reveal_root", "Reveal Asset Root", "Report the current project asset root path", CommandCategory::Asset);
    assert(registry@.len() == 14);
    assert(!has_id(registry@, c@.id)) by {
        assert forall|i: int| 0 <= i < registry@.len() implies #[trigger] registry@[i].id != c@.id by {
            assert(registry@.map_values(|c: CommandView| c.id)[i] == registry@[i].id);
            assert(ids.take(14)[i] == ids[i]);
        }
    }
    let ghost before = registry@;
    match registry.register(c) {
        Ok(()) => {},
        Err(e) => return Err(e),
    }
    assert(registry@.map_values(|c: CommandView| c.id) =~= before.map_values(|c: CommandView| c.id).push(ids[14]));
    assert(ids.take(15) =~= ids.take(14).push(ids[14]));
    assert(registry@ =~= builtin_command_views().take(15));
    proof {
        reveal_strlit("scene.load");
        assert(!crate::text::is_whitespace_char("scene.load"@[0]));
        reveal_strlit("Load Scene");
        assert(!crate::text::is_whitespace_char("Load Scene"@[0]));
        lemma_fresh_15();
    }
    let c = registered("scene.load", "Load Scene", "Load the active scene from the open project scene root", CommandCategory::Scene);
    assert(registry@.len() == 15);
    assert(!has_id(registry@, c@.id)) by {
        assert forall|i: int| 0 <= i < registry@.len() implies #[trigger] registry@[i].id != c@.id by {
            assert(registry@.map_values(|c: CommandView| c.id)[i] == registry@[i].id);
            assert(ids.take(15)[i] == ids[i]);
        }
    }
    let ghost before = registry@;
    match registry.register(c) {
        Ok(()) => {},
        Err(e) => return Err(e),
    }
    assert(registry@.map_values(|c: CommandView| c.id) =~= before.map_values(|c: CommandView| c.id).push(ids[15]));
    assert(ids.take(16) =~= ids.take(15).push(ids[15]));
    assert(registry@ =~= builtin_command_views().take(16));
    proof {
        reveal_strlit("scene.save");
        assert(!crate::text::is_whitespace_char("scene.save"@[0]));
        reveal_strlit("Save Scene");
        assert(!crate::text::is_whitespace_char("Save Scene"@[0]));
        reveal_strlit("S");
        assert(!crate::text::is_whitespace_char("S"@[0]));
        lemma_fresh_16();
    }
    let c = registered("scene.save", "Save Scene", "Save the loaded project scene back to disk", CommandCategory::Scene);
    let c = c.with_shortcut(global_shortcut(false, "S"));
    let c = c.with_presentation(toolbar(CommandCategory::Scene, 2, "Save"));
    assert(registry@.len() == 16);
    assert(!has_id(registry@, c@.id)) by {
        assert forall|i: int| 0 <= i < registry@.len() implies #[trigger] registry@[i].id != c@.id by {
            assert(registry@.map_values(|c: CommandView| c.id)[i] == registry@[i].id);
            assert(ids.take(16)[i] == ids[i]);
        }
    }
    let ghost before = registry@;
    match registry.register(c) {
        Ok(()) => {},
        Err(e) => return Err(e),
    }
    assert(registry@.map_values(|c: CommandView| c.id) =~= before.map_values(|c: CommandView| c.id).push(ids[16]));
    assert(ids.take(17) =~= ids.take(16).push(ids[16]));
    assert(registry@ =~= builtin_command_views().take(17));
    proof {
        reveal_strlit("scene.clear");
        assert(!crate::text::is_whitespace_char("scene.clear"@[0]));
        reveal_strlit("Clear Scene");
        assert(!crate::text::is_whitespace_char("Clear Scene"@[0]));
        lemma_fresh_17();
    }
    let c = registered("scene.clear", "Clear Scene", "Unload the current scene", CommandCategory::Scene);
    assert(registry@.len() == 17);
    assert(!has_id(registry@, c@.id)) by {
        assert forall|i: int| 0 <= i < registry@.len() implies #[trigger] registry@[i].id != c@.id by {
            assert(registry@.map_values(|c: CommandView| c.id)[i] == registry@[i].id);
            assert(ids.take(17)[i] == ids[i]);
        }
    }
    let ghost before = registry@;
    match registry.register(c) {
        Ok(()) => {},
        Err(e) => return Err(e),
    }
    assert(registry@.map_values(|c: CommandView| c.id) =~= before.map_values(|c: CommandView| c.id).push(ids[17]));
    assert(ids.take(18) =~= ids.take(17).push(ids[17]));
    assert(registry@ =~= builtin_command_views().take(18));
    Ok(())
}

fn register_builtins_3(registry: &mut CommandRegistry) -> (r: Result<(), CommandRegistryError>)
    requires
        old(registry)@.map_values(|c: CommandView| c.id) == builtin_command_ids().take(18),
        old(registry)@ == builtin_command_views().take(18),
    ensures
        r is Ok,
        final(registry)@.map_values(|c: CommandView| c.id) == builtin_command_ids().take(24),
        final(registry)@ == builtin_command_views().take(24),
{
    proof {
        lemma_builtin_chords();
    }
    let ghost ids = builtin_command_ids();
    assert(registry@.map_values(|c: CommandView| c.id).len() == registry@.len());
    assert(ids.len() == 36);
    proof {
        reveal_strlit("scene.clear_selection");
        assert(!crate::text::is_whitespace_char("scene.clear_selection"@[0]));
        reveal_strlit("Clear Scene Selection");
        assert(!crate::text::is_whitespace_char("Clear Scene Selection"@[0]));
        lemma_fresh_18();
    }
    let c = registered("scene.clear_selection", "Clear Scene Selection", "Clear the current scene object selection", CommandCategory::Scene);
    assert(registry@.len() == 18);
    assert(!has_id(registry@, c@.id)) by {
        assert forall|i: int| 0 <= i < registry@.len() implies #[trigger] registry@[i].id != c@.id by {
            assert(registry@.map_values(|c: CommandView| c.id)[i] == registry@[i].id);
            assert(ids.take(18)[i] == ids[i]);
        }
    }
    let ghost before = registry@;
    match registry.register(c) {
        Ok(()) => {},
        Err(e) => return Err(e),
    }
    assert(registry@.map_values(|c: CommandView| c.id) =~= before.map_values(|c: CommandView| c.id).push(ids[18]));
    assert(ids.take(19) =~= ids.take(18).push(ids[18]));
    assert(registry@ =~= builtin_command_views().take(19));
    proof {
        reveal_strlit("inspector.clear");
        assert(!crate::text::is_whitespace_char("inspector.clear"@[0]));
        reveal_strlit("Clear Inspector");
        assert(!crate::text::is_whitespace_char("Clear Inspector"@[0]));
        lemma_fresh_19();
    }
    let c = registered("inspector.clear", "Clear Inspector", "Clear the inspector view", CommandCategory::Inspector);
    assert(registry@.len() == 19);
    assert(!has_id(registry@, c@.id)) by {
        assert forall|i: int| 0 <= i < registry@.len() implies #[trigger] registry@[i].id != c@.id by {
            assert(registry@.map_values(|c: CommandView| c.id)[i] == registry@[i].id);
            assert(ids.take(19)[i] == ids[i]);
        }
    }
    let ghost before = registry@;
    match registry.register(c) {
        Ok(()) => {},
        Err(e) => return Err(e),
    }
    assert(registry@.map_values(|c: CommandView| c.id) =~= before.map_values(|c: CommandView| c.id).push(ids[19]));
    assert(ids.take(20) =~= ids.take(19).push(ids[19]));
    assert(registry@ =~= builtin_command_views().take(20));
    proof {
        reveal_strlit("edit.undo");
        assert(!crate::text::is_whitespace_char("edit.undo"@[0]));
        reveal_strlit("Undo");
        assert(!crate::text::is_whitespace_char("Undo"@[0]));
        reveal_strlit("Z");
        assert(!crate::text::is_whitespace_char("Z"@[0]));
        lemma_fresh_20();
    }
    let c = registered("edit.undo", "Undo", "Undo the last editor command", CommandCategory::Edit);
    let c = c.with_shortcut(global_shortcut(false, "Z"));
    let c = c.with_presentation(toolbar(CommandCategory::Edit, 3, "Undo"));
    assert(registry@.len() == 20);
    assert(!has_id(registry@, c@.id)) by {
        assert forall|i: int| 0 <= i < registry@.len() implies #[trigger] registry@[i].id != c@.id by {
            assert(registry@.map_values(|c: CommandView| c.id)[i] == registry@[i].id);
            assert(ids.take(20)[i] == ids[i]);
        }
    }
    let ghost before = registry@;
    match registry.register(c) {
        Ok(()) => {},
        Err(e) => return Err(e),
    }
    assert(registry@.map_values(|c: CommandView| c.id) =~= before.map_values(|c: CommandView| c.id).push(ids[20]));
    assert(ids.take(21) =~= ids.take(20).push(ids[20]));
    assert(registry@ =~= builtin_command_views().take(21));
    proof {
        reveal_strlit("edit.redo");
        assert(!crate::text::is_whitespace_char("edit.redo"@[0]));
        reveal_strlit("Redo");
        assert(!crate::text::is_whitespace_char("Redo"@[0]));
        reveal_strlit("Y");
        assert(!crate::text::is_whitespace_char("Y"@[0]));
        reveal_strlit("Z");
        assert(!crate::text::is_whitespace_char("Z"@[0]));
        lemma_fresh_21();
    }
    let c = registered("edit.redo", "Redo", "Redo the last undone editor command", CommandCategory::Edit);
    let c = c.with_shortcut(global_shortcut(false, "Y"));
    let c = c.with_shortcut(global_shortcut(true, "Z"));
    let c = c.with_presentation(toolbar(CommandCategory::Edit, 4, "Redo"));
    assert(c@.shortcuts =~= seq![
        global_binding(seq![KeyModifier::Control], "Y"@),
        global_binding(seq![KeyModifier::Control, KeyModifier::Shift], "Z"@),
    ]);
    assert(registry@.len() == 21);
    assert(!has_id(registry@, c@.id)) by {
        assert forall|i: int| 0 <= i < registry@.len() implies #[trigger] registry@[i].id != c@.id by {
            assert(registry@.map_values(|c: CommandView| c.id)[i] == registry@[i].id);
            assert(ids.take(21)[i] == ids[i]);
        }
    }
    let ghost before = registry@;
    match registry.register(c) {
        Ok(()) => {},
        Err(e) => return Err(e),
    }
    assert(registry@.map_values(|c: CommandView| c.id) =~= before.map_values(|c: CommandView| c.id).push(ids[21]));
    assert(ids.take(22) =~= ids.take(21).push(ids[21]));
    assert(registry@ =~= builtin_command_views().take(22));
    proof {
        reveal_strlit("adapter.connect");
        assert(!crate::text::is_whitespace_char("adapter.connect"@[0]));
        reveal_strlit("Connect Adapter");
        assert(!crate::text::is_whitespace_char("Connect Adapter"@[0]));
        lemma_fresh_22();
    }
    let c = registered("adapter.connect", "Connect Adapter", "Connect an adapter when adapter configuration is available", CommandCategory::Adapter);
    let c = c.with_presentation(toolbar(CommandCategory::Adapter, 7, "Connect"));
    assert(registry@.len() == 22);
    assert(!has_id(registry@, c@.id)) by {
        assert forall|i: int| 0 <= i < registry@.len() implies #[trigger] registry@[i].id != c@.id by {
            assert(registry@.map_values(|c: CommandView| c.id)[i] == registry@[i].id);
            assert(ids.take(22)[i] == ids[i]);
        }
    }
    let ghost before = registry@;
    match registry.register(c) {
        Ok(()) => {},
        Err(e) => return Err(e),
    }
    assert(registry@.map_values(|c: CommandView| c.id) =~= before.map_values(|c: CommandView| c.id).push(ids[22]));
    assert(ids.take(23) =~= ids.take(22).push(ids[22]));
    assert(registry@ =~= builtin_command_views().take(23));
    proof {
        reveal_strlit("adapter.handshake");
        assert(!crate::text::is_whitespace_char("adapter.handshake"@[0]));
        reveal_strlit("Handshake Adapter");
        assert(!crate::text::is_whitespace_char("Handshake Adapter"@[0]));
        lemma_fresh_23();
    }
    let c = registered("adapter.handshake", "Handshake Adapter", "Run the adapter handshake for the current adapter session", CommandCategory::Adapter);
    assert(registry@.len() == 23);
    assert(!has_id(registry@, c@.id)) by {
        assert forall|i: int| 0 <= i < registry@.len() implies #[trigger] registry@[i].id != c@.id by {
            assert(registry@.map_values(|c: CommandView| c.id)[i] == registry@[i].id);
            assert(ids.take(23)[i] == ids[i]);
        }
    }
    let ghost before = registry@;
    match registry.register(c) {
        Ok(()) => {},
        Err(e) => return Err(e),
    }
    assert(registry@.map_values(|c: CommandView| c.id) =~= before.map_values(|c: CommandView| c.id).push(ids[23]));
    assert(ids.take(24) =~= ids.take(23).push(ids[23]));
    assert(registry@ =~= builtin_command_views().take(24));
    Ok(())
}

fn register_builtins_4(registry: &mut CommandRegistry) -> (r: Result<(), CommandRegistryError>)
    requires
        old(registry)@.map_values(|c: CommandView| c.id) == builtin_command_ids().take(24),
        old(registry)@ == builtin_command_views().take(24),
    ensures
        r is Ok,
        final(registry)@.map_values(|c: CommandView| c.id) == builtin_command_ids().take(30),
        final(registry)@ == builtin_command_views().take(30),
{
    proof {
        lemma_builtin_chords();
    }
    let ghost ids = builtin_command_ids();
    assert(registry@.map_values(|c: CommandView| c.id).len() == registry@.len());
    assert(ids.len() == 36);
    proof {
        reveal_strlit("adapter.load_project");
        assert(!crate::text::is_whitespace_char("adapter.load_project"@[0]));
        reveal_strlit("Load Adapter Project");
        assert(!crate::text::is_whitespace_char("Load Adapter Project"@[0]));
        lemma_fresh_24();
    }
    let c = registered("adapter.load_project", "Load Adapter Project", "Send the current project path to the connected adapter", CommandCategory::Adapter);
    assert(registry@.len() == 24);
    assert(!has_id(registry@, c@.id)) by {
        assert forall|i: int| 0 <= i < registry@.len() implies #[trigger] registry@[i].id != c@.id by {
            assert(registry@.map_values(|c: CommandView| c.id)[i] == registry@[i].id);
            assert(ids.take(24)[i] == ids[i]);
        }
    }
    let ghost before = registry@;
    match registry.register(c) {
        Ok(()) => {},
        Err(e) => return Err(e),
    }
    assert(registry@.map_values(|c: CommandView| c.id) =~= before.map_values(|c: CommandView| c.id).push(ids[24]));
    assert(ids.take(25) =~= ids.take(24).push(ids[24]));
    assert(registry@ =~= builtin_command_views().take(25));
    proof {
        reveal_strlit("adapter.disconnect");
        assert(!crate::text::is_whitespace_char("adapter.disconnect"@[0]));
        reveal_strlit("Disconnect Adapter");
        assert(!crate::text::is_whitespace_char("Disconnect Adapter"@[0]));
        lemma_fresh_25();
    }
    let c = registered("adapter.disconnect", "Disconnect Adapter", "Disconnect the current adapter session", CommandCategory::Adapter);
    assert(registry@.len() == 25);
    assert(!has_id(registry@, c@.id)) by {
        assert forall|i: int| 0 <= i < registry@.len() implies #[trigger] registry@[i].id != c@.id by {
            assert(registry@.map_values(|c: CommandView| c.id)[i] == registry@[i].id);
            assert(ids.take(25)[i] == ids[i]);
        }
    }
    let ghost before = registry@;
    match registry.register(c) {
        Ok(()) => {},
        Err(e) => return Err(e),
    }
    assert(registry@.map_values(|c: CommandView| c.id) =~= before.map_values(|c: CommandView| c.id).push(ids[25]));
    assert(ids.take(26) =~= ids.take(25).push(ids[25]));
    assert(registry@ =~= builtin_command_views().take(26));
    proof {
        reveal_strlit("adapter.show_status");
        assert(!crate::text::is_whitespace_char("adapter.show_status"@[0]));
        reveal_strlit("Show Adapter Status");
        assert(!crate::text::is_whitespace_char("Show Adapter Status"@[0]));
        lemma_fresh_26();
    }
    let c = registered("adapter.show_status", "Show Adapter Status", "Report the current adapter connection state", CommandCategory::Adapter);
    assert(registry@.len() == 26);
    assert(!has_id(registry@, c@.id)) by {
        assert forall|i: int| 0 <= i < registry@.len() implies #[trigger] registry@[i].id != c@.id by {
            assert(registry@.map_values(|c: CommandView| c.id)[i] == registry@[i].id);
            assert(ids.take(26)[i] == ids[i]);
        }
    }
    let ghost before = registry@;
    match registry.register(c) {
        Ok(()) => {},
        Err(e) => return Err(e),
    }
    assert(registry@.map_values(|c: CommandView| c.id) =~= before.map_values(|c: CommandView| c.id).push(ids[26]));
    assert(ids.take(27) =~= ids.take(26).push(ids[26]));
    assert(registry@ =~= builtin_command_views().take(27));
    proof {
        reveal_strlit("adapter.show_diagnostics");
        assert(!crate::text::is_whitespace_char("adapter.show_diagnostics"@[0]));
        reveal_strlit("Show Adapter Diagnostics");
        assert(!crate::text::is_whitespace_char("Show Adapter Diagnostics"@[0]));
        lemma_fresh_27();
    }
    let c = registered("adapter.show_diagnostics", "Show Adapter Diagnostics", "Request and report adapter diagnostics", CommandCategory::Adapter);
    assert(registry@.len() == 27);
    assert(!has_id(registry@, c@.id)) by {
        assert forall|i: int| 0 <= i < registry@.len() implies #[trigger] registry@[i].id != c@.id by {
            assert(registry@.map_values(|c: CommandView| c.id)[i] == registry@[i].id);
            assert(ids.take(27)[i] == ids[i]);
        }
    }
    let ghost before = registry@;
    match registry.register(c) {
        Ok(()) => {},
        Err(e) => return Err(e),
    }
    assert(registry@.map_values(|c: CommandView| c.id) =~= before.map_values(|c: CommandView| c.id).push(ids[27]));
    assert(ids.take(28) =~= ids.take(27).push(ids[27]));
    assert(registry@ =~= builtin_command_views().take(28));
    proof {
        reveal_strlit("adapter.load_scene");
        assert(!crate::text::is_whitespace_char("adapter.load_scene"@[0]));
        reveal_strlit("Load Adapter Scene");
        assert(!crate::text::is_whitespace_char("Load Adapter Scene"@[0]));
        lemma_fresh_28();
    }
    let c = registered("adapter.load_scene", "Load Adapter Scene", "Request a scene snapshot from a connected adapter", CommandCategory::Adapter);
    assert(registry@.len() == 28);
    assert(!has_id(registry@, c@.id)) by {
        assert forall|i: int| 0 <= i < registry@.len() implies #[trigger] registry@[i].id != c@.id by {
            assert(registry@.map_values(|c: CommandView| c.id)[i] == registry@[i].id);
            assert(ids.take(28)[i] == ids[i]);
        }
    }
    let ghost before = registry@;
    match registry.register(c) {
        Ok(()) => {},
        Err(e) => return Err(e),
    }
    assert(registry@.map_values(|c: CommandView| c.id) =~= before.map_values(|c: CommandView| c.id).push(ids[28]));
    assert(ids.take(29) =~= ids.take(28).push(ids[28]));
    assert(registry@ =~= builtin_command_views().take(29));
    proof {
        reveal_strlit("viewport.request_frame");
        assert(!crate::text::is_whitespace_char("viewport.request_frame"@[0]));
        reveal_strlit("Request Viewport Frame");
        assert(!crate::text::is_whitespace_char("Request Viewport Frame"@[0]));
        lemma_fresh_29();
    }
    let c = registered("viewport.request_frame", "Request Viewport Frame", "Request a preview frame from the connected adapter", CommandCategory::Viewport);
    assert(registry@.len() == 29);
    assert(!has_id(registry@, c@.id)) by {
        assert forall|i: int| 0 <= i < registry@.len() implies #[trigger] registry@[i].id != c@.id by {
            assert(registry@.map_values(|c: CommandView| c.id)[i] == registry@[i].id);
            assert(ids.take(29)[i] == ids[i]);
        }
    }
    let ghost before = registry@;
    match registry.register(c) {
        Ok(()) => {},
        Err(e) => return Err(e),
    }
    assert(registry@.map_values(|c: CommandView| c.id) =~= before.map_values(|c: CommandView| c.id).push(ids[29]));
    assert(ids.take(30) =~= ids.take(29).push(ids[29]));
    assert(registry@ =~= builtin_command_views().take(30));
    Ok(())
}

fn register_builtins_5(registry: &mut CommandRegistry) -> (r: Result<(), CommandRegistryError>)
    requires
        old(registry)@.map_values(|c: CommandView| c.id) == builtin_command_ids().take(30),
        old(registry)@ == builtin_command_views().take(30),
    ensures
        r is Ok,
        final(registry)@.map_values(|c: CommandView| c.id) == builtin_command_ids().take(36),
        final(registry)@ == builtin_command_views().take(36),
{
    proof {
        lemma_builtin_chords();
    }
    let ghost ids = builtin_command_ids();
    assert(registry@.map_values(|c: CommandView| c.id).len() == registry@.len());
    assert(ids.len() == 36);
    proof {
        reveal_strlit("viewport.clear");
        assert(!crate::text::is_whitespace_char("viewport.clear"@[0]));
        reveal_strlit("Clear Viewport");
        assert(!crate::text::is_whitespace_char("Clear Viewport"@[0]));
        lemma_fresh_30();
    }
    let c = registered("viewport.clear", "Clear Viewport", "Clear the current viewport preview frame", CommandCategory::Viewport);
    assert(registry@.len() == 30);
    assert(!has_id(registry@, c@.id)) by {
        assert forall|i: int| 0 <= i < registry@.len() implies #[trigger] registry@[i].id != c@.id by {
            assert(registry@.map_values(|c: CommandView| c.id)[i] == registry@[i].id);
            assert(ids.take(30)[i] == ids[i]);
        }
    }
    let ghost before = registry@;
    match registry.register(c) {
        Ok(()) => {},
        Err(e) => return Err(e),
    }
    assert(registry@.map_values(|c: CommandView| c.id) =~= before.map_values(|c: CommandView| c.id).push(ids[30]));
    assert(ids.take(31) =~= ids.take(30).push(ids[30]));
    assert(registry@ =~= builtin_command_views().take(31));
    proof {
        reveal_strlit("viewport.show_status");
        assert(!crate::text::is_whitespace_char("viewport.show_status"@[0]));
        reveal_strlit("Show Viewport Status");
        assert(!crate::text::is_whitespace_char("Show Viewport Status"@[0]));
        lemma_fresh_31();
    }
    let c = registered("viewport.show_status", "Show Viewport Status", "Report the current viewport source and status", CommandCategory::Viewport);
    assert(registry@.len() == 31);
    assert(!has_id(registry@, c@.id)) by {
        assert forall|i: int| 0 <= i < registry@.len() implies #[trigger] registry@[i].id != c@.id by {
            assert(registry@.map_values(|c: CommandView| c.id)[i] == registry@[i].id);
            assert(ids.take(31)[i] == ids[i]);
        }
    }
    let ghost before = registry@;
    match registry.register(c) {
        Ok(()) => {},
        Err(e) => return Err(e),
    }
    assert(registry@.map_values(|c: CommandView| c.id) =~= before.map_values(|c: CommandView| c.id).push(ids[31]));
    assert(ids.take(32) =~= ids.take(31).push(ids[31]));
    assert(registry@ =~= builtin_command_views().take(32));
    proof {
        reveal_strlit("help.shortcuts");
        assert(!crate::text::is_whitespace_char("help.shortcuts"@[0]));
        reveal_strlit("Show Shortcuts");
        assert(!crate::text::is_whitespace_char("Show Shortcuts"@[0]));
        lemma_fresh_32();
    }
    let c = registered("help.shortcuts", "Show Shortcuts", "Report the default keybinding summary", CommandCategory::Help);
    assert(registry@.len() == 32);
    assert(!has_id(registry@, c@.id)) by {
        assert forall|i: int| 0 <= i < registry@.len() implies #[trigger] registry@[i].id != c@.id by {
            assert(registry@.map_values(|c: CommandView| c.id)[i] == registry@[i].id);
            assert(ids.take(32)[i] == ids[i]);
        }
    }
    let ghost before = registry@;
    match registry.register(c) {
        Ok(()) => {},
        Err(e) => return Err(e),
    }
    assert(registry@.map_values(|c: CommandView| c.id) =~= before.map_values(|c: CommandView| c.id).push(ids[32]));
    assert(ids.take(33) =~= ids.take(32).push(ids[32]));
    assert(registry@ =~= builtin_command_views().take(33));
    proof {
        reveal_strlit("help.commands");
        assert(!crate::text::is_whitespace_char("help.commands"@[0]));
        reveal_strlit("Show Commands");
        assert(!crate::text::is_whitespace_char("Show Commands"@[0]));
        lemma_fresh_33();
    }
    let c = registered("help.commands", "Show Commands", "Report the command registry summary", CommandCategory::Help);
    assert(registry@.len() == 33);
    assert(!has_id(registry@, c@.id)) by {
        assert forall|i: int| 0 <= i < registry@.len() implies #[trigger] registry@[i].id != c@.id by {
            assert(registry@.map_values(|c: CommandView| c.id)[i] == registry@[i].id);
            assert(ids.take(33)[i] == ids[i]);
        }
    }
    let ghost before = registry@;
    match registry.register(c) {
        Ok(()) => {},
        Err(e) => return Err(e),
    }
    assert(registry@.map_values(|c: CommandView| c.id) =~= before.map_values(|c: CommandView| c.id).push(ids[33]));
    assert(ids.take(34) =~= ids.take(33).push(ids[33]));
    assert(registry@ =~= builtin_command_views().take(34));
    proof {
        reveal_strlit("elcarax.status.show_renderer_stats");
        assert(!crate::text::is_whitespace_char("elcarax.status.show_renderer_stats"@[0]));
        reveal_strlit("Show Renderer Stats");
        assert(!crate::text::is_whitespace_char("Show Renderer Stats"@[0]));
        lemma_fresh_34();
    }
    let c = registered("elcarax.status.show_renderer_stats", "Show Renderer Stats", "Show current primitive, text, and glyph counts", CommandCategory::Developer);
    assert(registry@.len() == 34);
    assert(!has_id(registry@, c@.id)) by {
        assert forall|i: int| 0 <= i < registry@.len() implies #[trigger] registry@[i].id != c@.id by {
            assert(registry@.map_values(|c: CommandView| c.id)[i] == registry@[i].id);
            assert(ids.take(34)[i] == ids[i]);
        }
    }
    let ghost before = registry@;
    match registry.register(c) {
        Ok(()) => {},
        Err(e) => return Err(e),
    }
    assert(registry@.map_values(|c: CommandView| c.id) =~= before.map_values(|c: CommandView| c.id).push(ids[34]));
    assert(ids.take(35) =~= ids.take(34).push(ids[34]));
    assert(registry@ =~= builtin_command_views().take(35));
    proof {
        reveal_strlit("elcarax.status.show_ready");
        assert(!crate::text::is_whitespace_char("elcarax.status.show_ready"@[0]));
        reveal_strlit("Show Ready Status");
        assert(!crate::text::is_whitespace_char("Show Ready Status"@[0]));
        lemma_fresh_35();
    }
    let c = registered("elcarax.status.show_ready", "Show Ready Status", "Set the status label to ready", CommandCategory::Status);
    assert(registry@.len() == 35);
    assert(!has_id(registry@, c@.id)) by {
        assert forall|i: int| 0 <= i < registry@.len() implies #[trigger] registry@[i].id != c@.id by {
            assert(registry@.map_values(|c: CommandView| c.id)[i] == registry@[i].id);
            assert(ids.take(35)[i] == ids[i]);
        }
    }
    let ghost before = registry@;
    match registry.register(c) {
        Ok(()) => {},
        Err(e) => return Err(e),
    }
    assert(registry@.map_values(|c: CommandView| c.id) =~= before.map_values(|c: CommandView| c.id).push(ids[35]));
    assert(ids.take(36) =~= ids.take(35).push(ids[35]));
    assert(registry@ =~= builtin_command_views().take(36));
    Ok(())
}

/// The editor's commands, registered in their fixed order.
pub fn built_in_commands() -> (r: Result<CommandRegistry, CommandRegistryError>)
    ensures
        r is Ok,
        r matches Ok(reg) ==> reg@.map_values(|c: CommandView| c.id) == builtin_command_ids(),
        r matches Ok(reg) ==> reg@ == builtin_command_views(),
{
    let mut registry = CommandRegistry::new();
    assert(registry@.map_values(|c: CommandView| c.id) =~= builtin_command_ids().take(0));
    assert(registry@ =~= builtin_command_views().take(0));
    match register_builtins_0(&mut registry) {
        Ok(()) => {},
        Err(e) => return Err(e),
    }
    match register_builtins_1(&mut registry) {
        Ok(()) => {},
        Err(e) => return Err(e),
    }
    match register_builtins_2(&mut registry) {
        Ok(()) => {},
        Err(e) => return Err(e),
    }
    match register_builtins_3(&mut registry) {
        Ok(()) => {},
        Err(e) => return Err(e),
    }
    match register_builtins_4(&mut registry) {
        Ok(()) => {},
        Err(e) => return Err(e),
    }
    match register_builtins_5(&mut registry) {
        Ok(()) => {},
        Err(e) => return Err(e),
    }
    assert(builtin_command_ids().take(36) =~= builtin_command_ids());
    assert(builtin_command_views().take(36) =~= builtin_command_views());
    Ok(registry)
}

/// The shortcuts of the built-in commands, in command order: each with its
/// command's identifier and position.
pub open spec fn builtin_shortcut_entries() -> Seq<(Seq<char>, KeyBindingView, usize)> {
    seq![
        ("elcarax.palette.open"@, global_binding(seq![KeyModifier::Control], "K"@), 0usize),
        ("project.create"@, global_binding(seq![KeyModifier::Control], "N"@), 2usize),
        ("project.open"@, global_binding(seq![KeyModifier::Control], "O"@), 3usize),
        ("project.reopen_last"@, global_binding(seq![KeyModifier::Control, KeyModifier::Shift], "O"@), 7usize),
        ("scene.save"@, global_binding(seq![KeyModifier::Control], "S"@), 16usize),
        ("edit.undo"@, global_binding(seq![KeyModifier::Control], "Z"@), 20usize),
        ("edit.redo"@, global_binding(seq![KeyModifier::Control], "Y"@), 21usize),
        ("edit.redo"@, global_binding(seq![KeyModifier::Control, KeyModifier::Shift], "Z"@), 21usize)
    ]
}

proof fn lemma_builtin_entries_0_12()
    requires
        shortcut_entries(builtin_command_views().take(0)) == builtin_shortcut_entries().take(0),
    ensures
        shortcut_entries(builtin_command_views().take(12)) == builtin_shortcut_entries().take(4),
{
    let v = builtin_command_views();
    let e = builtin_shortcut_entries();
    assert(v.take(1).drop_last() =~= v.take(0));
    assert(v.take(1).last() == builtin_view(0));
    assert(shortcut_entries(v.take(1)) =~= e.take(1));
    assert(v.take(2).drop_last() =~= v.take(1));
    assert(v.take(2).last() == builtin_view(1));
    assert(shortcut_entries(v.take(2)) =~= e.take(1));
    assert(v.take(3).drop_last() =~= v.take(2));
    assert(v.take(3).last() == builtin_view(2));
    assert(shortcut_entries(v.take(3)) =~= e.take(2));
    assert(v.take(4).drop_last() =~= v.take(3));
    assert(v.take(4).last() == builtin_view(3));
    assert(shortcut_entries(v.take(4)) =~= e.take(3));
    assert(v.take(5).drop_last() =~= v.take(4));
    assert(v.take(5).last() == builtin_view(4));
    assert(shortcut_entries(v.take(5)) =~= e.take(3));
    assert(v.take(6).drop_last() =~= v.take(5));
    assert(v.take(6).last() == builtin_view(5));
    assert(shortcut_entries(v.take(6)) =~= e.take(3));
    assert(v.take(7).drop_last() =~= v.take(6));
    assert(v.take(7).last() == builtin_view(6));
    assert(shortcut_entries(v.take(7)) =~= e.take(3));
    assert(v.take(8).drop_last() =~= v.take(7));
    assert(v.take(8).last() == builtin_view(7));
    assert(shortcut_entries(v.take(8)) =~= e.take(4));
    assert(v.take(9).drop_last() =~= v.take(8));
    assert(v.take(9).last() == builtin_view(8));
    assert(shortcut_entries(v.take(9)) =~= e.take(4));
    assert(v.take(10).drop_last() =~= v.take(9));
    assert(v.take(10).last() == builtin_view(9));
    assert(shortcut_entries(v.take(10)) =~= e.take(4));
    assert(v.take(11).drop_last() =~= v.take(10));
    assert(v.take(11).last() == builtin_view(10));
    assert(shortcut_entries(v.take(11)) =~= e.take(4));
    assert(v.take(12).drop_last() =~= v.take(11));
    assert(v.take(12).last() == builtin_view(11));
    assert(shortcut_entries(v.take(12)) =~= e.take(4));
}

proof fn lemma_builtin_entries_12_24()
    requires
        shortcut_entries(builtin_command_views().take(12)) == builtin_shortcut_entries().take(4),
    ensures
        shortcut_entries(builtin_command_views().take(24)) == builtin_shortcut_entries().take(8),
{
    let v = builtin_command_views();
    let e = builtin_shortcut_entries();
    assert(v.take(13).drop_last() =~= v.take(12));
    assert(v.take(13).last() == builtin_view(12));
    assert(shortcut_entries(v.take(13)) =~= e.take(4));
    assert(v.take(14).drop_last() =~= v.take(13));
    assert(v.take(14).last() == builtin_view(13));
    assert(shortcut_entries(v.take(14)) =~= e.take(4));
    assert(v.take(15).drop_last() =~= v.take(14));
    assert(v.take(15).last() == builtin_view(14));
    assert(shortcut_entries(v.take(15)) =~= e.take(4));
    assert(v.take(16).drop_last() =~= v.take(15));
    assert(v.take(16).last() == builtin_view(15));
    assert(shortcut_entries(v.take(16)) =~= e.take(4));
    assert(v.take(17).drop_last() =~= v.take(16));
    assert(v.take(17).last() == builtin_view(16));
    assert(shortcut_entries(v.take(17)) =~= e.take(5));
    assert(v.take(18).drop_last() =~= v.take(17));
    assert(v.take(18).last() == builtin_view(17));
    assert(shortcut_entries(v.take(18)) =~= e.take(5));
    assert(v.take(19).drop_last() =~= v.take(18));
    assert(v.take(19).last() == builtin_view(18));
    assert(shortcut_entries(v.take(19)) =~= e.take(5));
    assert(v.take(20).drop_last() =~= v.take(19));
    assert(v.take(20).last() == builtin_view(19));
    assert(shortcut_entries(v.take(20)) =~= e.take(5));
    assert(v.take(21).drop_last() =~= v.take(20));
    assert(v.take(21).last() == builtin_view(20));
    assert(shortcut_entries(v.take(21)) =~= e.take(6));
    assert(v.take(22).drop_last() =~= v.take(21));
    assert(v.take(22).last() == builtin_view(21));
    assert(shortcut_entries(v.take(22)) =~= e.take(8));
    assert(v.take(23).drop_last() =~= v.take(22));
    assert(v.take(23).last() == builtin_view(22));
    assert(shortcut_entries(v.take(23)) =~= e.take(8));
    assert(v.take(24).drop_last() =~= v.take(23));
    assert(v.take(24).last() == builtin_view(23));
    assert(shortcut_entries(v.take(24)) =~= e.take(8));
}

proof fn lemma_builtin_entries_24_36()
    requires
        shortcut_entries(builtin_command_views().take(24)) == builtin_shortcut_entries().take(8),
    ensures
        shortcut_entries(builtin_command_views().take(36)) == builtin_shortcut_entries().take(8),
{
    let v = builtin_command_views();
    let e = builtin_shortcut_entries();
    assert(v.take(25).drop_last() =~= v.take(24));
    assert(v.take(25).last() == builtin_view(24));
    assert(shortcut_entries(v.take(25)) =~= e.take(8));
    assert(v.take(26).drop_last() =~= v.take(25));
    assert(v.take(26).last() == builtin_view(25));
    assert(shortcut_entries(v.take(26)) =~= e.take(8));
    assert(v.take(27).drop_last() =~= v.take(26));
    assert(v.take(27).last() == builtin_view(26));
    assert(shortcut_entries(v.take(27)) =~= e.take(8));
    assert(v.take(28).drop_last() =~= v.take(27));
    assert(v.take(28).last() == builtin_view(27));
    assert(shortcut_entries(v.take(28)) =~= e.take(8));
    assert(v.take(29).drop_last() =~= v.take(28));
    assert(v.take(29).last() == builtin_view(28));
    assert(shortcut_entries(v.take(29)) =~= e.take(8));
    assert(v.take(30).drop_last() =~= v.take(29));
    assert(v.take(30).last() == builtin_view(29));
    assert(shortcut_entries(v.take(30)) =~= e.take(8));
    assert(v.take(31).drop_last() =~= v.take(30));
    assert(v.take(31).last() == builtin_view(30));
    assert(shortcut_entries(v.take(31)) =~= e.take(8));
    assert(v.take(32).drop_last() =~= v.take(31));
    assert(v.take(32).last() == builtin_view(31));
    assert(shortcut_entries(v.take(32)) =~= e.take(8));
    assert(v.take(33).drop_last() =~= v.take(32));
    assert(v.take(33).last() == builtin_view(32));
    assert(shortcut_entries(v.take(33)) =~= e.take(8));
    assert(v.take(34).drop_last() =~= v.take(33));
    assert(v.take(34).last() == builtin_view(33));
    assert(shortcut_entries(v.take(34)) =~= e.take(8));
    assert(v.take(35).drop_last() =~= v.take(34));
    assert(v.take(35).last() == builtin_view(34));
    assert(shortcut_entries(v.take(35)) =~= e.take(8));
    assert(v.take(36).drop_last() =~= v.take(35));
    assert(v.take(36).last() == builtin_view(35));
    assert(shortcut_entries(v.take(36)) =~= e.take(8));
}

/// The shortcuts of the built-ins are exactly these, in this order.
pub proof fn lemma_builtin_shortcut_entries()
    ensures
        shortcut_entries(builtin_command_views()) == builtin_shortcut_entries(),
{
    let v = builtin_command_views();
    assert(v.take(0) =~= Seq::<CommandView>::empty());
    assert(builtin_shortcut_entries().take(0) =~= Seq::<(Seq<char>, KeyBindingView, usize)>::empty());
    lemma_builtin_entries_0_12();
    lemma_builtin_entries_12_24();
    lemma_builtin_entries_24_36();
    assert(v.take(36) =~= v);
    assert(builtin_shortcut_entries().take(8) =~= builtin_shortcut_entries());
}

/// The bindings the built-ins register, in order.
pub open spec fn builtin_bindings() -> Seq<RegisteredBindingView> {
    seq![
        RegisteredBindingView {
            command_id: "elcarax.palette.open"@,
            binding: global_binding(seq![KeyModifier::Control], "K"@),
            order: 0usize,
        },
        RegisteredBindingView {
            command_id: "project.create"@,
            binding: global_binding(seq![KeyModifier::Control], "N"@),
            order: 2usize,
        },
        RegisteredBindingView {
            command_id: "project.open"@,
            binding: global_binding(seq![KeyModifier::Control], "O"@),
            order: 3usize,
        },
        RegisteredBindingView {
            command_id: "project.reopen_last"@,
            binding: global_binding(seq![KeyModifier::Control, KeyModifier::Shift], "O"@),
            order: 7usize,
        },
        RegisteredBindingView {
            command_id: "scene.save"@,
            binding: global_binding(seq![KeyModifier::Control], "S"@),
            order: 16usize,
        },
        RegisteredBindingView {
            command_id: "edit.undo"@,
            binding: global_binding(seq![KeyModifier::Control], "Z"@),
            order: 20usize,
        },
        RegisteredBindingView {
            command_id: "edit.redo"@,
            binding: global_binding(seq![KeyModifier::Control], "Y"@),
            order: 21usize,
        },
        RegisteredBindingView {
            command_id: "edit.redo"@,
            binding: global_binding(seq![KeyModifier::Control, KeyModifier::Shift], "Z"@),
            order: 21usize,
        }
    ]
}

proof fn lemma_builtin_registered()
    ensures
        register_entries(
            BindingRegistryView { bindings: Seq::empty(), diagnostics: Seq::empty() },
            builtin_shortcut_entries(),
        ) == (BindingRegistryView { bindings: builtin_bindings(), diagnostics: Seq::empty() }),
{
    reveal_strlit("K");
    reveal_strlit("N");
    reveal_strlit("O");
    reveal_strlit("S");
    reveal_strlit("Y");
    reveal_strlit("Z");
    let empty = BindingRegistryView { bindings: Seq::empty(), diagnostics: Seq::empty() };
    let e = builtin_shortcut_entries();
    let b = builtin_bindings();
    assert(e.take(0) =~= Seq::<(Seq<char>, KeyBindingView, usize)>::empty());
    assert(register_entries(empty, e.take(0)) == empty);
    assert(supported_key("K"@) && supported_key("N"@) && supported_key("O"@));
    assert(supported_key("S"@) && supported_key("Y"@) && supported_key("Z"@));
    assert(e.take(1).drop_last() =~= e.take(0));
    assert(e.take(1).last() == e[0]);
    assert(b.take(1) =~= b.take(0).push(b[0]));
    assert(register_entries(empty, e.take(1)).bindings =~= b.take(1));
    assert(register_entries(empty, e.take(1)).diagnostics =~= Seq::<BindingDiagnosticView>::empty());
    assert(e.take(2).drop_last() =~= e.take(1));
    assert(e.take(2).last() == e[1]);
    assert(b.take(2) =~= b.take(1).push(b[1]));
    assert(register_entries(empty, e.take(2)).bindings =~= b.take(2));
    assert(register_entries(empty, e.take(2)).diagnostics =~= Seq::<BindingDiagnosticView>::empty());
    assert(e.take(3).drop_last() =~= e.take(2));
    assert(e.take(3).last() == e[2]);
    assert(b.take(3) =~= b.take(2).push(b[2]));
    assert(register_entries(empty, e.take(3)).bindings =~= b.take(3));
    assert(register_entries(empty, e.take(3)).diagnostics =~= Seq::<BindingDiagnosticView>::empty());
    assert(e.take(4).drop_last() =~= e.take(3));
    assert(e.take(4).last() == e[3]);
    assert(b.take(4) =~= b.take(3).push(b[3]));
    assert(register_entries(empty, e.take(4)).bindings =~= b.take(4));
    assert(register_entries(empty, e.take(4)).diagnostics =~= Seq::<BindingDiagnosticView>::empty());
    assert(e.take(5).drop_last() =~= e.take(4));
    assert(e.take(5).last() == e[4]);
    assert(b.take(5) =~= b.take(4).push(b[4]));
    assert(register_entries(empty, e.take(5)).bindings =~= b.take(5));
    assert(register_entries(empty, e.take(5)).diagnostics =~= Seq::<BindingDiagnosticView>::empty());
    assert(e.take(6).drop_last() =~= e.take(5));
    assert(e.take(6).last() == e[5]);
    assert(b.take(6) =~= b.take(5).push(b[5]));
    assert(register_entries(empty, e.take(6)).bindings =~= b.take(6));
    assert(register_entries(empty, e.take(6)).diagnostics =~= Seq::<BindingDiagnosticView>::empty());
    assert(e.take(7).drop_last() =~= e.take(6));
    assert(e.take(7).last() == e[6]);
    assert(b.take(7) =~= b.take(6).push(b[6]));
    assert(register_entries(empty, e.take(7)).bindings =~= b.take(7));
    assert(register_entries(empty, e.take(7)).diagnostics =~= Seq::<BindingDiagnosticView>::empty());
    assert(e.take(8).drop_last() =~= e.take(7));
    assert(e.take(8).last() == e[7]);
    assert(b.take(8) =~= b.take(7).push(b[7]));
    assert(register_entries(empty, e.take(8)).bindings =~= b.take(8));
    assert(register_entries(empty, e.take(8)).diagnostics =~= Seq::<BindingDiagnosticView>::empty());
    assert(e.take(8) =~= e);
    assert(b.take(8) =~= b);
}

/// No two bindings of the built-ins have the same scope and chord.
proof fn lemma_builtin_bindings_distinct()
    ensures
        forall|i: int, j: int|
            0 <= i < j < builtin_bindings().len() ==> #[trigger] builtin_bindings()[i].binding
                != #[trigger] builtin_bindings()[j].binding,
{
    reveal_strlit("K");
    reveal_strlit("N");
    reveal_strlit("O");
    reveal_strlit("S");
    reveal_strlit("Y");
    reveal_strlit("Z");
    assert("K"@[0] == 'K' && "N"@[0] == 'N' && "O"@[0] == 'O' && "S"@[0] == 'S' && "Y"@[0] == 'Y'
        && "Z"@[0] == 'Z');
    assert(seq![KeyModifier::Control].len() != seq![KeyModifier::Control, KeyModifier::Shift].len());
}

/// In bindings that are pairwise distinct, no chord is bound twice.
proof fn lemma_distinct_groups_small(bs: Seq<RegisteredBindingView>, key: KeyBindingView)
    requires
        forall|i: int, j: int| 0 <= i < j < bs.len() ==> #[trigger] bs[i].binding != #[trigger] bs[j].binding,
    ensures
        group_of(bs, key).len() <= 1,
    decreases bs.len(),
{
    reveal(group_of);
    if bs.len() > 0 {
        let init = bs.drop_last();
        let pred = |b: RegisteredBindingView| b.binding == key;
        assert forall|i: int, j: int| 0 <= i < j < init.len() implies #[trigger] init[i].binding
            != #[trigger] init[j].binding by {
            assert(init[i] == bs[i] && init[j] == bs[j]);
        }
        lemma_distinct_groups_small(init, key);
        assert(bs =~= init.push(bs.last()));
        init.lemma_filter_len_push(pred, bs.last());
        if bs.last().binding == key {
            assert forall|i: int| 0 <= i < init.len() implies !pred(#[trigger] init[i]) by {
                assert(init[i] == bs[i]);
                assert(bs[i].binding != bs[bs.len() - 1].binding);
            }
            init.lemma_all_neg_filter_empty(pred);
        }
    }
}

/// The bindings of the built-in commands: the eight shortcuts, in command
/// order, with no shortcut refused and no conflict, so that each chord names
/// at most one built-in command.
pub proof fn law_builtin_bindings_are_conflict_free(r: BindingRegistryView)
    requires
        bindings_of_commands(builtin_command_views(), r),
    ensures
        r.bindings == builtin_bindings(),
        r.diagnostics.len() == 0,
        forall|i: int, j: int|
            0 <= i < j < r.bindings.len() ==> #[trigger] r.bindings[i].binding
                != #[trigger] r.bindings[j].binding,
{
    lemma_builtin_shortcut_entries();
    lemma_builtin_registered();
    lemma_builtin_bindings_distinct();
    let ds = r.diagnostics.skip(0);
    assert(ds =~= r.diagnostics);
    if r.diagnostics.len() > 0 {
        assert(ds[0] is Conflict);
        lemma_distinct_groups_small(r.bindings, conflict_key(ds[0]));
        assert(false);
    }
}

} // verus!
