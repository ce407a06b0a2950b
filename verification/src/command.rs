//! Command metadata: identifiers, titles, categories, availability,
//! presentation, key chords and bindings.
use crate::text::{
    all_whitespace, ascii_lower_seq, ascii_lowercase_str, ascii_upper_seq, ascii_uppercase_str,
    char_is_ascii_alphanumeric, concat2, is_ascii_alphanumeric, is_blank, join_seq, str_eq, trim,
    trim_str,
};
use vstd::prelude::*;

verus! {

/// A command identifier: a string that is not blank.
#[derive(Debug, PartialEq, Eq, PartialOrd, Ord, Hash)]
pub struct CommandId(String);

impl View for CommandId {
    type V = Seq<char>;

    closed spec fn view(&self) -> Seq<char> {
        self.0@
    }
}

impl Clone for CommandId {
    fn clone(&self) -> (r: Self)
        ensures
            r@ == self@,
    {
        CommandId(self.0.clone())
    }
}

impl CommandId {
    /// The identifier `value`, refused when it is blank.
    pub fn new(value: &str) -> (r: Result<Self, CommandRegistryError>)
        ensures
            all_whitespace(value@) ==> r == Err::<Self, CommandRegistryError>(
                CommandRegistryError::EmptyCommandId,
            ),
            !all_whitespace(value@) ==> (r matches Ok(id) && id@ == value@),
    {
        if is_blank(value) {
            return Err(CommandRegistryError::EmptyCommandId);
        }
        Ok(CommandId(value.to_owned()))
    }

    pub fn as_str(&self) -> (r: &str)
        ensures
            r@ == self@,
    {
        self.0.as_str()
    }
}

/// A command title: a string that is not blank.
#[derive(Debug, PartialEq, Eq)]
pub struct CommandTitle(String);

pub type CommandName = CommandTitle;

impl View for CommandTitle {
    type V = Seq<char>;

    closed spec fn view(&self) -> Seq<char> {
        self.0@
    }
}

impl Clone for CommandTitle {
    fn clone(&self) -> (r: Self)
        ensures
            r@ == self@,
    {
        CommandTitle(self.0.clone())
    }
}

impl CommandTitle {
    pub fn new(value: &str) -> (r: Result<Self, CommandRegistryError>)
        ensures
            all_whitespace(value@) ==> r == Err::<Self, CommandRegistryError>(
                CommandRegistryError::EmptyCommandTitle,
            ),
            !all_whitespace(value@) ==> (r matches Ok(t) && t@ == value@),
    {
        if is_blank(value) {
            return Err(CommandRegistryError::EmptyCommandTitle);
        }
        Ok(CommandTitle(value.to_owned()))
    }

    pub fn as_str(&self) -> (r: &str)
        ensures
            r@ == self@,
    {
        self.0.as_str()
    }
}

#[derive(Debug, PartialEq, Eq)]
pub struct CommandDescription(String);

impl View for CommandDescription {
    type V = Seq<char>;

    closed spec fn view(&self) -> Seq<char> {
        self.0@
    }
}

impl Clone for CommandDescription {
    fn clone(&self) -> (r: Self)
        ensures
            r@ == self@,
    {
        CommandDescription(self.0.clone())
    }
}

impl CommandDescription {
    pub fn new(value: &str) -> (r: Self)
        ensures
            r@ == value@,
    {
        CommandDescription(value.to_owned())
    }

    pub fn as_str(&self) -> (r: &str)
        ensures
            r@ == self@,
    {
        self.0.as_str()
    }
}

#[derive(Debug, Clone, Copy, PartialEq, Eq, PartialOrd, Ord, Hash, Structural)]
pub enum CommandCategory {
    Project,
    Asset,
    Scene,
    Edit,
    Viewport,
    Adapter,
    Window,
    Help,
    Developer,
    Palette,
    Inspector,
    Status,
}

/// The position of a category in the declaration order, which is the order
/// categories sort in.
pub open spec fn category_rank(c: CommandCategory) -> int {
    match c {
        CommandCategory::Project => 0,
        CommandCategory::Asset => 1,
        CommandCategory::Scene => 2,
        CommandCategory::Edit => 3,
        CommandCategory::Viewport => 4,
        CommandCategory::Adapter => 5,
        CommandCategory::Window => 6,
        CommandCategory::Help => 7,
        CommandCategory::Developer => 8,
        CommandCategory::Palette => 9,
        CommandCategory::Inspector => 10,
        CommandCategory::Status => 11,
    }
}

pub open spec fn category_label(c: CommandCategory) -> Seq<char> {
    match c {
        CommandCategory::Project => "Project"@,
        CommandCategory::Asset => "Asset"@,
        CommandCategory::Scene => "Scene"@,
        CommandCategory::Edit => "Edit"@,
        CommandCategory::Viewport => "Viewport"@,
        CommandCategory::Adapter => "Adapter"@,
        CommandCategory::Window => "Window"@,
        CommandCategory::Help => "Help"@,
        CommandCategory::Developer => "Developer"@,
        CommandCategory::Palette => "Palette"@,
        CommandCategory::Inspector => "Inspector"@,
        CommandCategory::Status => "Status"@,
    }
}

impl CommandCategory {
    pub fn label(self) -> (r: &'static str)
        ensures
            r@ == category_label(self),
    {
        match self {
            CommandCategory::Project => "Project",
            CommandCategory::Asset => "Asset",
            CommandCategory::Scene => "Scene",
            CommandCategory::Edit => "Edit",
            CommandCategory::Viewport => "Viewport",
            CommandCategory::Adapter => "Adapter",
            CommandCategory::Window => "Window",
            CommandCategory::Help => "Help",
            CommandCategory::Developer => "Developer",
            CommandCategory::Palette => "Palette",
            CommandCategory::Inspector => "Inspector",
            CommandCategory::Status => "Status",
        }
    }

    pub fn rank(self) -> (r: u8)
        ensures
            r == category_rank(self),
    {
        match self {
            CommandCategory::Project => 0,
            CommandCategory::Asset => 1,
            CommandCategory::Scene => 2,
            CommandCategory::Edit => 3,
            CommandCategory::Viewport => 4,
            CommandCategory::Adapter => 5,
            CommandCategory::Window => 6,
            CommandCategory::Help => 7,
            CommandCategory::Developer => 8,
            CommandCategory::Palette => 9,
            CommandCategory::Inspector => 10,
            CommandCategory::Status => 11,
        }
    }
}

#[derive(Debug, Clone, Copy, PartialEq, Eq, PartialOrd, Ord, Hash, Structural)]
pub enum CommandScope {
    Global,
    Overlay,
    TextEdit,
}

pub open spec fn scope_rank(s: CommandScope) -> int {
    match s {
        CommandScope::Global => 0,
        CommandScope::Overlay => 1,
        CommandScope::TextEdit => 2,
    }
}

pub open spec fn scope_label(s: CommandScope) -> Seq<char> {
    match s {
        CommandScope::Global => "Global"@,
        CommandScope::Overlay => "Overlay"@,
        CommandScope::TextEdit => "Text Edit"@,
    }
}

impl CommandScope {
    pub fn label(self) -> (r: &'static str)
        ensures
            r@ == scope_label(self),
    {
        match self {
            CommandScope::Global => "Global",
            CommandScope::Overlay => "Overlay",
            CommandScope::TextEdit => "Text Edit",
        }
    }

    pub fn rank(self) -> (r: u8)
        ensures
            r == scope_rank(self),
    {
        match self {
            CommandScope::Global => 0,
            CommandScope::Overlay => 1,
            CommandScope::TextEdit => 2,
        }
    }
}

/// Whether a command can run now, and why not when it cannot.
#[derive(Debug, PartialEq, Eq)]
pub struct CommandAvailability {
    enabled: bool,
    disabled_reason: Option<String>,
}

pub struct AvailabilityView {
    pub enabled: bool,
    pub disabled_reason: Option<Seq<char>>,
}

pub open spec fn option_text(o: Option<String>) -> Option<Seq<char>> {
    match o {
        Some(s) => Some(s@),
        None => None,
    }
}

pub fn clone_option_string(o: &Option<String>) -> (r: Option<String>)
    ensures
        option_text(r) == option_text(*o),
{
    match o {
        Some(s) => Some(s.clone()),
        None => None,
    }
}

impl View for CommandAvailability {
    type V = AvailabilityView;

    closed spec fn view(&self) -> AvailabilityView {
        AvailabilityView { enabled: self.enabled, disabled_reason: option_text(self.disabled_reason) }
    }
}

impl Clone for CommandAvailability {
    fn clone(&self) -> (r: Self)
        ensures
            r@ == self@,
    {
        CommandAvailability {
            enabled: self.enabled,
            disabled_reason: clone_option_string(&self.disabled_reason),
        }
    }
}

impl CommandAvailability {
    pub fn enabled() -> (r: Self)
        ensures
            r@.enabled,
            r@.disabled_reason is None,
    {
        CommandAvailability { enabled: true, disabled_reason: None }
    }

    pub fn disabled(reason: &str) -> (r: Self)
        ensures
            !r@.enabled,
            r@.disabled_reason == Some(reason@),
    {
        CommandAvailability { enabled: false, disabled_reason: Some(reason.to_owned()) }
    }

    pub fn is_enabled(&self) -> (r: bool)
        ensures
            r == self@.enabled,
    {
        self.enabled
    }

    pub fn disabled_reason(&self) -> (r: Option<&str>)
        ensures
            r matches Some(s) ==> self@.disabled_reason == Some(s@),
            r is None ==> self@.disabled_reason is None,
    {
        match &self.disabled_reason {
            Some(s) => Some(s.as_str()),
            None => None,
        }
    }
}

/// Where a command appears on the toolbar.
#[derive(Debug, PartialEq, Eq)]
pub struct CommandToolbarPlacement {
    pub section: CommandCategory,
    pub order: usize,
    pub short_label: String,
}

pub struct ToolbarPlacementView {
    pub section: CommandCategory,
    pub order: usize,
    pub short_label: Seq<char>,
}

impl View for CommandToolbarPlacement {
    type V = ToolbarPlacementView;

    open spec fn view(&self) -> ToolbarPlacementView {
        ToolbarPlacementView {
            section: self.section,
            order: self.order,
            short_label: self.short_label@,
        }
    }
}

impl Clone for CommandToolbarPlacement {
    fn clone(&self) -> (r: Self)
        ensures
            r@ == self@,
    {
        CommandToolbarPlacement {
            section: self.section,
            order: self.order,
            short_label: self.short_label.clone(),
        }
    }
}

impl CommandToolbarPlacement {
    pub fn new(section: CommandCategory, order: usize, short_label: &str) -> (r: Self)
        ensures
            r.section == section,
            r.order == order,
            r.short_label@ == short_label@,
    {
        CommandToolbarPlacement { section, order, short_label: short_label.to_owned() }
    }
}

/// Whether a command is listed in the palette, and where it sits on the
/// toolbar if it does.
#[derive(Debug, PartialEq, Eq)]
pub struct CommandPresentation {
    palette_visible: bool,
    toolbar: Option<CommandToolbarPlacement>,
}

pub struct PresentationView {
    pub palette_visible: bool,
    pub toolbar: Option<ToolbarPlacementView>,
}

pub open spec fn option_placement_view(o: Option<CommandToolbarPlacement>) -> Option<
    ToolbarPlacementView,
> {
    match o {
        Some(p) => Some(p@),
        None => None,
    }
}

impl View for CommandPresentation {
    type V = PresentationView;

    closed spec fn view(&self) -> PresentationView {
        PresentationView {
            palette_visible: self.palette_visible,
            toolbar: option_placement_view(self.toolbar),
        }
    }
}

impl Clone for CommandPresentation {
    fn clone(&self) -> (r: Self)
        ensures
            r@ == self@,
    {
        CommandPresentation {
            palette_visible: self.palette_visible,
            toolbar: match &self.toolbar {
                Some(p) => Some(p.clone()),
                None => None,
            },
        }
    }
}

impl CommandPresentation {
    pub fn palette_only() -> (r: Self)
        ensures
            r@.palette_visible,
            r@.toolbar is None,
    {
        CommandPresentation { palette_visible: true, toolbar: None }
    }

    pub fn hidden() -> (r: Self)
        ensures
            !r@.palette_visible,
            r@.toolbar is None,
    {
        CommandPresentation { palette_visible: false, toolbar: None }
    }

    pub fn with_toolbar(self, placement: CommandToolbarPlacement) -> (r: Self)
        ensures
            r@.palette_visible == self@.palette_visible,
            r@.toolbar == Some(placement@),
    {
        CommandPresentation { palette_visible: self.palette_visible, toolbar: Some(placement) }
    }

    pub fn palette_visible(&self) -> (r: bool)
        ensures
            r == self@.palette_visible,
    {
        self.palette_visible
    }

    pub fn toolbar(&self) -> (r: Option<&CommandToolbarPlacement>)
        ensures
            r matches Some(p) ==> self@.toolbar == Some(p@),
            r is None ==> self@.toolbar is None,
    {
        match &self.toolbar {
            Some(p) => Some(p),
            None => None,
        }
    }
}

impl Default for CommandPresentation {
    fn default() -> (r: Self)
        ensures
            r@.palette_visible,
            r@.toolbar is None,
    {
        Self::palette_only()
    }
}

#[derive(Debug, Clone, Copy, PartialEq, Eq, PartialOrd, Ord, Hash, Structural)]
pub enum KeyModifier {
    Control,
    Shift,
    Alt,
    Super,
}

pub open spec fn modifier_rank(m: KeyModifier) -> int {
    match m {
        KeyModifier::Control => 0,
        KeyModifier::Shift => 1,
        KeyModifier::Alt => 2,
        KeyModifier::Super => 3,
    }
}

pub open spec fn modifier_label(m: KeyModifier) -> Seq<char> {
    match m {
        KeyModifier::Control => "Ctrl"@,
        KeyModifier::Shift => "Shift"@,
        KeyModifier::Alt => "Alt"@,
        KeyModifier::Super => "Super"@,
    }
}

impl KeyModifier {
    pub fn label(&self) -> (r: &'static str)
        ensures
            r@ == modifier_label(*self),
    {
        match self {
            KeyModifier::Control => "Ctrl",
            KeyModifier::Shift => "Shift",
            KeyModifier::Alt => "Alt",
            KeyModifier::Super => "Super",
        }
    }

    pub fn rank(&self) -> (r: u8)
        ensures
            r == modifier_rank(*self),
    {
        match self {
            KeyModifier::Control => 0,
            KeyModifier::Shift => 1,
            KeyModifier::Alt => 2,
            KeyModifier::Super => 3,
        }
    }
}

/// The modifiers present in `ms`, each once, in their sort order.
pub open spec fn sorted_modifier_set(ms: Seq<KeyModifier>) -> Seq<KeyModifier> {
    seq![KeyModifier::Control, KeyModifier::Shift, KeyModifier::Alt, KeyModifier::Super].filter(
        |m: KeyModifier| ms.contains(m),
    )
}

/// A chord's modifiers are the ones given, each once, in the order Control,
/// Shift, Alt, Super.
pub proof fn law_modifier_set(ms: Seq<KeyModifier>)
    ensures
        forall|m: KeyModifier| sorted_modifier_set(ms).contains(m) <==> ms.contains(m),
        forall|i: int, j: int|
            0 <= i < j < sorted_modifier_set(ms).len() ==> modifier_rank(
                #[trigger] sorted_modifier_set(ms)[i],
            ) < modifier_rank(#[trigger] sorted_modifier_set(ms)[j]),
{
    let base = seq![KeyModifier::Control, KeyModifier::Shift, KeyModifier::Alt, KeyModifier::Super];
    let p = |m: KeyModifier| ms.contains(m);
    let r = base.filter(p);
    assert(sorted_modifier_set(ms) == r);
    assert forall|m: KeyModifier| r.contains(m) <==> ms.contains(m) by {
        if r.contains(m) {
            base.lemma_filter_contains_rev(p, m);
            let i = choose|i: int| 0 <= i < r.len() && r[i] == m;
            base.lemma_filter_pred(p, i);
        }
        if ms.contains(m) {
            let k = modifier_rank(m);
            assert(base[k] == m);
            base.lemma_filter_contains(p, k);
        }
    }
    crate::registry::lemma_filter_places_in_order(base, p);
    let f = choose|f: spec_fn(int) -> int| #[trigger] crate::registry::places_in_order(r, base, f);
    assert forall|i: int, j: int| 0 <= i < j < r.len() implies modifier_rank(#[trigger] r[i]) < modifier_rank(
        #[trigger] r[j],
    ) by {
        assert(0 <= f(i) < base.len() && r[i] == base[f(i)]);
        assert(0 <= f(j) < base.len() && r[j] == base[f(j)]);
        assert(f(i) < f(j));
        assert(forall|k: int| 0 <= k < 4 ==> modifier_rank(#[trigger] base[k]) == k);
    }
}

/// The canonical spelling of a multi-character key name given in lower case.
pub open spec fn canonical_key_name(lower: Seq<char>) -> Option<Seq<char>> {
    if lower == "esc"@ || lower == "escape"@ {
        Some("Escape"@)
    } else if lower == "enter"@ || lower == "return"@ {
        Some("Enter"@)
    } else if lower == "space"@ {
        Some("Space"@)
    } else if lower == "tab"@ {
        Some("Tab"@)
    } else if lower == "backspace"@ {
        Some("Backspace"@)
    } else if lower == "arrowleft"@ || lower == "left"@ {
        Some("ArrowLeft"@)
    } else if lower == "arrowright"@ || lower == "right"@ {
        Some("ArrowRight"@)
    } else if lower == "arrowup"@ || lower == "up"@ {
        Some("ArrowUp"@)
    } else if lower == "arrowdown"@ || lower == "down"@ {
        Some("ArrowDown"@)
    } else {
        None
    }
}

/// The key name as a chord stores it: trimmed, a single character in upper
/// case, and the known named keys in their canonical spelling.
pub open spec fn normalize_key(key: Seq<char>) -> Seq<char> {
    let t = trim(key);
    if t.len() == 1 {
        ascii_upper_seq(t)
    } else {
        match canonical_key_name(ascii_lower_seq(t)) {
            Some(name) => name,
            None => t,
        }
    }
}

/// A key name that a chord may use: one ASCII letter or digit, or a named key.
pub open spec fn supported_key(key: Seq<char>) -> bool {
    if key.len() == 1 {
        is_ascii_alphanumeric(key[0])
    } else {
        ||| key == "Escape"@
        ||| key == "Enter"@
        ||| key == "Space"@
        ||| key == "Tab"@
        ||| key == "Backspace"@
        ||| key == "ArrowLeft"@
        ||| key == "ArrowRight"@
        ||| key == "ArrowUp"@
        ||| key == "ArrowDown"@
    }
}

/// The named keys a chord may use, written in any ASCII case and with
/// surrounding whitespace: `esc` or `escape` is Escape, `enter` or `return`
/// is Enter, `space`, `tab` and `backspace` are Space, Tab and Backspace, and
/// `left`, `right`, `up` and `down`, with or without `arrow` before them, are
/// the arrow keys. Each is a supported key.
pub proof fn law_named_keys(key: Seq<char>)
    ensures
        ascii_lower_seq(trim(key)) == "esc"@ || ascii_lower_seq(trim(key)) == "escape"@ ==> normalize_key(key) == "Escape"@ && supported_key(normalize_key(key)),
        ascii_lower_seq(trim(key)) == "enter"@ || ascii_lower_seq(trim(key)) == "return"@ ==> normalize_key(key) == "Enter"@ && supported_key(normalize_key(key)),
        ascii_lower_seq(trim(key)) == "space"@ ==> normalize_key(key) == "Space"@ && supported_key(normalize_key(key)),
        ascii_lower_seq(trim(key)) == "tab"@ ==> normalize_key(key) == "Tab"@ && supported_key(normalize_key(key)),
        ascii_lower_seq(trim(key)) == "backspace"@ ==> normalize_key(key) == "Backspace"@ && supported_key(normalize_key(key)),
        ascii_lower_seq(trim(key)) == "arrowleft"@ || ascii_lower_seq(trim(key)) == "left"@ ==> normalize_key(key) == "ArrowLeft"@ && supported_key(normalize_key(key)),
        ascii_lower_seq(trim(key)) == "arrowright"@ || ascii_lower_seq(trim(key)) == "right"@ ==> normalize_key(key) == "ArrowRight"@ && supported_key(normalize_key(key)),
        ascii_lower_seq(trim(key)) == "arrowup"@ || ascii_lower_seq(trim(key)) == "up"@ ==> normalize_key(key) == "ArrowUp"@ && supported_key(normalize_key(key)),
        ascii_lower_seq(trim(key)) == "arrowdown"@ || ascii_lower_seq(trim(key)) == "down"@ ==> normalize_key(key) == "ArrowDown"@ && supported_key(normalize_key(key)),
{
    let t = trim(key);
    assert(ascii_lower_seq(t).len() == t.len());
    reveal_strlit("ArrowDown");
    assert("ArrowDown"@.len() == 9 && "ArrowDown"@[0] == 'A' && "ArrowDown"@[1] == 'r' && "ArrowDown"@[2] == 'r' && "ArrowDown"@[3] == 'o' && "ArrowDown"@[4] == 'w' && "ArrowDown"@[5] == 'D' && "ArrowDown"@[6] == 'o' && "ArrowDown"@[7] == 'w' && "ArrowDown"@[8] == 'n');
    reveal_strlit("ArrowLeft");
    assert("ArrowLeft"@.len() == 9 && "ArrowLeft"@[0] == 'A' && "ArrowLeft"@[1] == 'r' && "ArrowLeft"@[2] == 'r' && "ArrowLeft"@[3] == 'o' && "ArrowLeft"@[4] == 'w' && "ArrowLeft"@[5] == 'L' && "ArrowLeft"@[6] == 'e' && "ArrowLeft"@[7] == 'f' && "ArrowLeft"@[8] == 't');
    reveal_strlit("ArrowRight");
    assert("ArrowRight"@.len() == 10 && "ArrowRight"@[0] == 'A' && "ArrowRight"@[1] == 'r' && "ArrowRight"@[2] == 'r' && "ArrowRight"@[3] == 'o' && "ArrowRight"@[4] == 'w' && "ArrowRight"@[5] == 'R' && "ArrowRight"@[6] == 'i' && "ArrowRight"@[7] == 'g' && "ArrowRight"@[8] == 'h' && "ArrowRight"@[9] == 't');
    reveal_strlit("ArrowUp");
    assert("ArrowUp"@.len() == 7 && "ArrowUp"@[0] == 'A' && "ArrowUp"@[1] == 'r' && "ArrowUp"@[2] == 'r' && "ArrowUp"@[3] == 'o' && "ArrowUp"@[4] == 'w' && "ArrowUp"@[5] == 'U' && "ArrowUp"@[6] == 'p');
    reveal_strlit("Backspace");
    assert("Backspace"@.len() == 9 && "Backspace"@[0] == 'B' && "Backspace"@[1] == 'a' && "Backspace"@[2] == 'c' && "Backspace"@[3] == 'k' && "Backspace"@[4] == 's' && "Backspace"@[5] == 'p' && "Backspace"@[6] == 'a' && "Backspace"@[7] == 'c' && "Backspace"@[8] == 'e');
    reveal_strlit("Enter");
    assert("Enter"@.len() == 5 && "Enter"@[0] == 'E' && "Enter"@[1] == 'n' && "Enter"@[2] == 't' && "Enter"@[3] == 'e' && "Enter"@[4] == 'r');
    reveal_strlit("Escape");
    assert("Escape"@.len() == 6 && "Escape"@[0] == 'E' && "Escape"@[1] == 's' && "Escape"@[2] == 'c' && "Escape"@[3] == 'a' && "Escape"@[4] == 'p' && "Escape"@[5] == 'e');
    reveal_strlit("Space");
    assert("Space"@.len() == 5 && "Space"@[0] == 'S' && "Space"@[1] == 'p' && "Space"@[2] == 'a' && "Space"@[3] == 'c' && "Space"@[4] == 'e');
    reveal_strlit("Tab");
    assert("Tab"@.len() == 3 && "Tab"@[0] == 'T' && "Tab"@[1] == 'a' && "Tab"@[2] == 'b');
    reveal_strlit("arrowdown");
    assert("arrowdown"@.len() == 9 && "arrowdown"@[0] == 'a' && "arrowdown"@[1] == 'r' && "arrowdown"@[2] == 'r' && "arrowdown"@[3] == 'o' && "arrowdown"@[4] == 'w' && "arrowdown"@[5] == 'd' && "arrowdown"@[6] == 'o' && "arrowdown"@[7] == 'w' && "arrowdown"@[8] == 'n');
    reveal_strlit("arrowleft");
    assert("arrowleft"@.len() == 9 && "arrowleft"@[0] == 'a' && "arrowleft"@[1] == 'r' && "arrowleft"@[2] == 'r' && "arrowleft"@[3] == 'o' && "arrowleft"@[4] == 'w' && "arrowleft"@[5] == 'l' && "arrowleft"@[6] == 'e' && "arrowleft"@[7] == 'f' && "arrowleft"@[8] == 't');
    reveal_strlit("arrowright");
    assert("arrowright"@.len() == 10 && "arrowright"@[0] == 'a' && "arrowright"@[1] == 'r' && "arrowright"@[2] == 'r' && "arrowright"@[3] == 'o' && "arrowright"@[4] == 'w' && "arrowright"@[5] == 'r' && "arrowright"@[6] == 'i' && "arrowright"@[7] == 'g' && "arrowright"@[8] == 'h' && "arrowright"@[9] == 't');
    reveal_strlit("arrowup");
    assert("arrowup"@.len() == 7 && "arrowup"@[0] == 'a' && "arrowup"@[1] == 'r' && "arrowup"@[2] == 'r' && "arrowup"@[3] == 'o' && "arrowup"@[4] == 'w' && "arrowup"@[5] == 'u' && "arrowup"@[6] == 'p');
    reveal_strlit("backspace");
    assert("backspace"@.len() == 9 && "backspace"@[0] == 'b' && "backspace"@[1] == 'a' && "backspace"@[2] == 'c' && "backspace"@[3] == 'k' && "backspace"@[4] == 's' && "backspace"@[5] == 'p' && "backspace"@[6] == 'a' && "backspace"@[7] == 'c' && "backspace"@[8] == 'e');
    reveal_strlit("down");
    assert("down"@.len() == 4 && "down"@[0] == 'd' && "down"@[1] == 'o' && "down"@[2] == 'w' && "down"@[3] == 'n');
    reveal_strlit("enter");
    assert("enter"@.len() == 5 && "enter"@[0] == 'e' && "enter"@[1] == 'n' && "enter"@[2] == 't' && "enter"@[3] == 'e' && "enter"@[4] == 'r');
    reveal_strlit("esc");
    assert("esc"@.len() == 3 && "esc"@[0] == 'e' && "esc"@[1] == 's' && "esc"@[2] == 'c');
    reveal_strlit("escape");
    assert("escape"@.len() == 6 && "escape"@[0] == 'e' && "escape"@[1] == 's' && "escape"@[2] == 'c' && "escape"@[3] == 'a' && "escape"@[4] == 'p' && "escape"@[5] == 'e');
    reveal_strlit("left");
    assert("left"@.len() == 4 && "left"@[0] == 'l' && "left"@[1] == 'e' && "left"@[2] == 'f' && "left"@[3] == 't');
    reveal_strlit("return");
    assert("return"@.len() == 6 && "return"@[0] == 'r' && "return"@[1] == 'e' && "return"@[2] == 't' && "return"@[3] == 'u' && "return"@[4] == 'r' && "return"@[5] == 'n');
    reveal_strlit("right");
    assert("right"@.len() == 5 && "right"@[0] == 'r' && "right"@[1] == 'i' && "right"@[2] == 'g' && "right"@[3] == 'h' && "right"@[4] == 't');
    reveal_strlit("space");
    assert("space"@.len() == 5 && "space"@[0] == 's' && "space"@[1] == 'p' && "space"@[2] == 'a' && "space"@[3] == 'c' && "space"@[4] == 'e');
    reveal_strlit("tab");
    assert("tab"@.len() == 3 && "tab"@[0] == 't' && "tab"@[1] == 'a' && "tab"@[2] == 'b');
    reveal_strlit("up");
    assert("up"@.len() == 2 && "up"@[0] == 'u' && "up"@[1] == 'p');
}

/// A single ASCII letter or digit is a key a chord may use: it normalizes
/// to itself in upper case (a digit to itself), and that key is supported,
/// so `KeyChord::new` accepts it.
pub proof fn law_single_letters_and_digits_are_keys(c: char)
    requires
        ('0' <= c && c <= '9') || ('a' <= c && c <= 'z') || ('A' <= c && c <= 'Z'),
    ensures
        normalize_key(seq![c]).len() == 1,
        supported_key(normalize_key(seq![c])),
        '0' <= c && c <= '9' ==> normalize_key(seq![c]) == seq![c],
        'A' <= c && c <= 'Z' ==> normalize_key(seq![c]) == seq![c],
        'a' <= c && c <= 'z' ==> normalize_key(seq![c]) == seq![((c as u32) - 32) as char],
{
    let k = seq![c];
    assert(!crate::text::is_whitespace_char(c));
    assert(k.drop_first().len() == 0);
    assert(crate::text::trim_start(k) == k);
    assert(crate::text::trim_end(k) == k);
    assert(trim(k) == k);
    let u = ascii_upper_seq(k);
    assert(u.len() == 1);
    if 'a' <= c && c <= 'z' {
        assert(u[0] == ((c as u32) - 32) as char);
        assert(u =~= seq![((c as u32) - 32) as char]);
    } else {
        assert(u[0] == c);
        assert(u =~= k);
    }
}

/// A key and the modifiers held with it.
#[derive(Debug, PartialEq, Eq, PartialOrd, Ord, Hash)]
pub struct KeyChord {
    modifiers: Vec<KeyModifier>,
    key: String,
}

pub struct KeyChordView {
    pub modifiers: Seq<KeyModifier>,
    pub key: Seq<char>,
}

impl View for KeyChord {
    type V = KeyChordView;

    closed spec fn view(&self) -> KeyChordView {
        KeyChordView { modifiers: self.modifiers@, key: self.key@ }
    }
}

impl Clone for KeyChord {
    fn clone(&self) -> (r: Self)
        ensures
            r@ == self@,
    {
        KeyChord { modifiers: self.modifiers.clone(), key: self.key.clone() }
    }
}

/// The labels of `ms` followed by `key`, joined with `+`.
pub open spec fn chord_label(ms: Seq<KeyModifier>, key: Seq<char>) -> Seq<char> {
    join_seq(ms.map_values(|m: KeyModifier| modifier_label(m)).push(key), "+"@)
}

fn normalize_key_name(key: &str) -> (r: String)
    ensures
        r@ == normalize_key(key@),
{
    let trimmed = trim_str(key);
    if trimmed.as_str().unicode_len() == 1 {
        return ascii_uppercase_str(trimmed.as_str());
    }
    let lower = ascii_lowercase_str(trimmed.as_str());
    let l = lower.as_str();
    if str_eq(l, "esc") || str_eq(l, "escape") {
        String::from_str("Escape")
    } else if str_eq(l, "enter") || str_eq(l, "return") {
        String::from_str("Enter")
    } else if str_eq(l, "space") {
        String::from_str("Space")
    } else if str_eq(l, "tab") {
        String::from_str("Tab")
    } else if str_eq(l, "backspace") {
        String::from_str("Backspace")
    } else if str_eq(l, "arrowleft") || str_eq(l, "left") {
        String::from_str("ArrowLeft")
    } else if str_eq(l, "arrowright") || str_eq(l, "right") {
        String::from_str("ArrowRight")
    } else if str_eq(l, "arrowup") || str_eq(l, "up") {
        String::from_str("ArrowUp")
    } else if str_eq(l, "arrowdown") || str_eq(l, "down") {
        String::from_str("ArrowDown")
    } else {
        trimmed
    }
}

pub fn is_supported_key_name(key: &str) -> (r: bool)
    ensures
        r == supported_key(key@),
{
    if key.unicode_len() == 1 {
        return char_is_ascii_alphanumeric(key.get_char(0));
    }
    str_eq(key, "Escape") || str_eq(key, "Enter") || str_eq(key, "Space") || str_eq(key, "Tab")
        || str_eq(key, "Backspace") || str_eq(key, "ArrowLeft") || str_eq(key, "ArrowRight")
        || str_eq(key, "ArrowUp") || str_eq(key, "ArrowDown")
}

fn contains_modifier(ms: &[KeyModifier], m: KeyModifier) -> (r: bool)
    ensures
        r == ms@.contains(m),
{
    let mut i: usize = 0;
    while i < ms.len()
        invariant
            i <= ms.len(),
            forall|j: int| 0 <= j < i ==> ms@[j] != m,
        decreases ms.len() - i,
    {
        if ms[i].rank() == m.rank() {
            assert(ms@[i as int] == m);
            return true;
        }
        i = i + 1;
    }
    false
}

fn sorted_modifiers(modifiers: &[KeyModifier]) -> (r: Vec<KeyModifier>)
    ensures
        r@ == sorted_modifier_set(modifiers@),
{
    let ghost all = seq![KeyModifier::Control, KeyModifier::Shift, KeyModifier::Alt, KeyModifier::Super];
    let ghost pred = |m: KeyModifier| modifiers@.contains(m);
    let mut out: Vec<KeyModifier> = Vec::new();
    reveal_with_fuel(Seq::filter, 5);
    assert(all.take(0).filter(pred) =~= Seq::<KeyModifier>::empty());
    if contains_modifier(modifiers, KeyModifier::Control) {
        out.push(KeyModifier::Control);
    }
    assert(all.take(1).drop_last() =~= all.take(0));
    assert(out@ =~= all.take(1).filter(pred));
    if contains_modifier(modifiers, KeyModifier::Shift) {
        out.push(KeyModifier::Shift);
    }
    assert(all.take(2).drop_last() =~= all.take(1));
    assert(out@ =~= all.take(2).filter(pred));
    if contains_modifier(modifiers, KeyModifier::Alt) {
        out.push(KeyModifier::Alt);
    }
    assert(all.take(3).drop_last() =~= all.take(2));
    assert(out@ =~= all.take(3).filter(pred));
    if contains_modifier(modifiers, KeyModifier::Super) {
        out.push(KeyModifier::Super);
    }
    assert(all.take(4).drop_last() =~= all.take(3));
    assert(out@ =~= all.take(4).filter(pred));
    assert(all.take(4) =~= all);
    out
}

impl KeyChord {
    /// A chord of `key` with `modifiers`. The key name is trimmed and
    /// normalized; it is refused when it is empty or not a supported key. The
    /// modifiers are kept once each, in their sort order.
    pub fn new(modifiers: &[KeyModifier], key: &str) -> (r: Result<Self, CommandRegistryError>)
        ensures
            normalize_key(key@).len() == 0 ==> r == Err::<Self, CommandRegistryError>(
                CommandRegistryError::EmptyKeyChord,
            ),
            normalize_key(key@).len() != 0 && !supported_key(normalize_key(key@)) ==> (r matches Err(
                CommandRegistryError::UnsupportedKeyName(k),
            ) && k@ == normalize_key(key@)),
            normalize_key(key@).len() != 0 && supported_key(normalize_key(key@)) ==> (r matches Ok(
                c,
            ) && c@.key == normalize_key(key@) && c@.modifiers == sorted_modifier_set(
                modifiers@,
            )),
    {
        let key = normalize_key_name(key);
        if key.as_str().unicode_len() == 0 {
            return Err(CommandRegistryError::EmptyKeyChord);
        }
        if !is_supported_key_name(key.as_str()) {
            return Err(CommandRegistryError::UnsupportedKeyName(key));
        }
        Ok(KeyChord { modifiers: sorted_modifiers(modifiers), key })
    }

    pub fn key(&self) -> (r: &str)
        ensures
            r@ == self@.key,
    {
        self.key.as_str()
    }

    pub fn modifiers(&self) -> (r: &[KeyModifier])
        ensures
            r@ == self@.modifiers,
    {
        self.modifiers.as_slice()
    }

    /// The chord as it is shown: modifier labels and the key joined with `+`.
    pub fn display_label(&self) -> (r: String)
        ensures
            r@ == chord_label(self@.modifiers, self@.key),
    {
        let ghost parts = self@.modifiers.map_values(|m: KeyModifier| modifier_label(m)).push(
            self@.key,
        );
        let mut out = String::new();
        let n = self.modifiers.len();
        let mut i: usize = 0;
        while i < n
            invariant
                n == self.modifiers@.len(),
                i <= n,
                parts == self@.modifiers.map_values(|m: KeyModifier| modifier_label(m)).push(
                    self@.key,
                ),
                out@ == join_seq(parts.take(i as int), "+"@),
            decreases n - i,
        {
            proof {
                assert(parts.take(i + 1).drop_last() =~= parts.take(i as int));
                assert(parts.take(i + 1).last() == modifier_label(self.modifiers@[i as int]));
            }
            if i > 0 {
                out.append("+");
            } else {
                assert(out@ =~= Seq::<char>::empty());
            }
            out.append(self.modifiers[i].label());
            proof {
                if i == 0 {
                    assert(parts.take(1) =~= seq![parts[0]]);
                    assert(out@ =~= parts[0]);
                }
            }
            i = i + 1;
        }
        proof {
            assert(parts.take(n + 1).drop_last() =~= parts.take(n as int));
            assert(parts.take(n + 1).last() == self@.key);
            assert(parts.take(n + 1) =~= parts);
        }
        if n > 0 {
            out.append("+");
        } else {
            assert(parts.take(1) =~= seq![parts[0]]);
        }
        out.append(self.key.as_str());
        out
    }
}

/// A chord together with the scope it is active in.
#[derive(Debug, PartialEq, Eq)]
pub struct KeyBinding {
    chord: KeyChord,
    scope: CommandScope,
}

pub struct KeyBindingView {
    pub chord: KeyChordView,
    pub scope: CommandScope,
}

impl View for KeyBinding {
    type V = KeyBindingView;

    closed spec fn view(&self) -> KeyBindingView {
        KeyBindingView { chord: self.chord@, scope: self.scope }
    }
}

impl Clone for KeyBinding {
    fn clone(&self) -> (r: Self)
        ensures
            r@ == self@,
    {
        KeyBinding { chord: self.chord.clone(), scope: self.scope }
    }
}

impl KeyBinding {
    pub fn global(chord: KeyChord) -> (r: Self)
        ensures
            r@.chord == chord@,
            r@.scope == CommandScope::Global,
    {
        KeyBinding { chord, scope: CommandScope::Global }
    }

    pub fn new(chord: KeyChord, scope: CommandScope) -> (r: Self)
        ensures
            r@.chord == chord@,
            r@.scope == scope,
    {
        KeyBinding { chord, scope }
    }

    pub fn chord(&self) -> (r: &KeyChord)
        ensures
            r@ == self@.chord,
    {
        &self.chord
    }

    pub fn scope(&self) -> (r: CommandScope)
        ensures
            r == self@.scope,
    {
        self.scope
    }
}

/// A shortcut that runs a command.
#[derive(Debug, PartialEq, Eq)]
pub struct CommandShortcut {
    binding: KeyBinding,
}

impl View for CommandShortcut {
    type V = KeyBindingView;

    closed spec fn view(&self) -> KeyBindingView {
        self.binding@
    }
}

impl Clone for CommandShortcut {
    fn clone(&self) -> (r: Self)
        ensures
            r@ == self@,
    {
        CommandShortcut { binding: self.binding.clone() }
    }
}

impl CommandShortcut {
    pub fn new(binding: KeyBinding) -> (r: Self)
        ensures
            r@ == binding@,
    {
        CommandShortcut { binding }
    }

    pub fn binding(&self) -> (r: &KeyBinding)
        ensures
            r@ == self@,
    {
        &self.binding
    }

    pub fn display_label(&self) -> (r: String)
        ensures
            r@ == chord_label(self@.chord.modifiers, self@.chord.key),
    {
        self.binding.chord().display_label()
    }
}

#[derive(Debug, PartialEq, Eq)]
pub enum CommandRegistryError {
    EmptyCommandId,
    EmptyCommandName,
    EmptyCommandTitle,
    DuplicateCommandId(CommandId),
    EmptyKeyChord,
    UnsupportedKeyName(String),
}

/// The text a registry error is shown with.
pub open spec fn registry_error_text(e: CommandRegistryError) -> Seq<char> {
    match e {
        CommandRegistryError::EmptyCommandId => "command ID cannot be empty"@,
        CommandRegistryError::EmptyCommandName => "command title cannot be empty"@,
        CommandRegistryError::EmptyCommandTitle => "command title cannot be empty"@,
        CommandRegistryError::DuplicateCommandId(id) => "duplicate command ID "@ + id@,
        CommandRegistryError::EmptyKeyChord => "key chord cannot be empty"@,
        CommandRegistryError::UnsupportedKeyName(k) => "unsupported key name "@ + k@,
    }
}

impl CommandRegistryError {
    pub fn message(&self) -> (r: String)
        ensures
            r@ == registry_error_text(*self),
    {
        match self {
            CommandRegistryError::EmptyCommandId => String::from_str("command ID cannot be empty"),
            CommandRegistryError::EmptyCommandName => String::from_str(
                "command title cannot be empty",
            ),
            CommandRegistryError::EmptyCommandTitle => String::from_str(
                "command title cannot be empty",
            ),
            CommandRegistryError::DuplicateCommandId(id) => concat2(
                "duplicate command ID ",
                id.as_str(),
            ),
            CommandRegistryError::EmptyKeyChord => String::from_str("key chord cannot be empty"),
            CommandRegistryError::UnsupportedKeyName(k) => concat2(
                "unsupported key name ",
                k.as_str(),
            ),
        }
    }
}

} // verus!
