//! What a key press means in each mode, given which configured bindings it
//! matches.
use vstd::prelude::*;

verus! {

/// The key of a press, as far as the modes tell keys apart.
#[derive(Clone, Copy, Debug, PartialEq, Eq, Structural)]
pub enum KeyKind {
    Char(char),
    Home,
    End,
    Tab,
    BackTab,
    Other,
}

/// A key press with its modifiers (`other`: any modifier besides Shift,
/// Control and Alt).
#[derive(Clone, Copy, Debug, PartialEq, Eq, Structural)]
pub struct KeyPress {
    pub kind: KeyKind,
    pub shift: bool,
    pub ctrl: bool,
    pub alt: bool,
    pub other: bool,
}

/// Which configured bindings a key press matches.
#[derive(Clone, Copy, Debug, PartialEq, Eq, Structural)]
pub struct BindingMatches {
    pub exit: bool,
    pub select: bool,
    pub up: bool,
    pub down: bool,
    pub left: bool,
    pub right: bool,
    pub backspace: bool,
    pub pin: bool,
    pub hide: bool,
    pub unhide_last: bool,
    pub image_preview: bool,
    pub tag: bool,
    pub tag_removal: bool,
    pub cclip_delete: bool,
}

/// The character typed by a press with no modifier but Shift.
pub open spec fn typed_char(k: KeyPress) -> Option<char> {
    match k.kind {
        KeyKind::Char(c) => if !k.ctrl && !k.alt && !k.other {
            Some(c)
        } else {
            None
        },
        _ => None,
    }
}

fn typed(k: KeyPress) -> (r: Option<char>)
    ensures
        r == typed_char(k),
{
    match k.kind {
        KeyKind::Char(c) => {
            if !k.ctrl && !k.alt && !k.other {
                Some(c)
            } else {
                None
            }
        },
        _ => None,
    }
}

/// What a key does in the clipboard picker.
#[derive(Clone, Copy, Debug, PartialEq, Eq, Structural)]
pub enum ClipKeyAction {
    ImagePreview,
    BeginTagCreation,
    BeginTagRemoval,
    Delete,
    Exit,
    Select,
    Input(char),
    Backspace,
    First,
    Last,
    Down,
    Up,
    Ignore,
}

/// The clipboard picker's reading of a key: the bindings in a fixed order
/// of precedence, then typed characters.
pub open spec fn clip_key_action_of(m: BindingMatches, k: KeyPress) -> ClipKeyAction {
    if m.image_preview {
        ClipKeyAction::ImagePreview
    } else if m.tag {
        ClipKeyAction::BeginTagCreation
    } else if m.tag_removal {
        ClipKeyAction::BeginTagRemoval
    } else if m.cclip_delete {
        ClipKeyAction::Delete
    } else if m.exit {
        ClipKeyAction::Exit
    } else if m.select {
        ClipKeyAction::Select
    } else if m.backspace {
        ClipKeyAction::Backspace
    } else if m.left {
        ClipKeyAction::First
    } else if m.right {
        ClipKeyAction::Last
    } else if m.down {
        ClipKeyAction::Down
    } else if m.up {
        ClipKeyAction::Up
    } else {
        match typed_char(k) {
            Some(c) => ClipKeyAction::Input(c),
            None => ClipKeyAction::Ignore,
        }
    }
}

/// Classifies a key in the clipboard picker (see [`clip_key_action_of`]).
pub fn key_action(m: &BindingMatches, k: KeyPress) -> (r: ClipKeyAction)
    ensures
        r == clip_key_action_of(*m, k),
{
    if m.image_preview {
        ClipKeyAction::ImagePreview
    } else if m.tag {
        ClipKeyAction::BeginTagCreation
    } else if m.tag_removal {
        ClipKeyAction::BeginTagRemoval
    } else if m.cclip_delete {
        ClipKeyAction::Delete
    } else if m.exit {
        ClipKeyAction::Exit
    } else if m.select {
        ClipKeyAction::Select
    } else if m.backspace {
        ClipKeyAction::Backspace
    } else if m.left {
        ClipKeyAction::First
    } else if m.right {
        ClipKeyAction::Last
    } else if m.down {
        ClipKeyAction::Down
    } else if m.up {
        ClipKeyAction::Up
    } else {
        match typed(k) {
            Some(c) => ClipKeyAction::Input(c),
            None => ClipKeyAction::Ignore,
        }
    }
}

/// What the clipboard picker does for a key action.
#[derive(Clone, Copy, Debug, PartialEq, Eq, Structural)]
pub enum ClipEffect {
    ShowImagePreview,
    BeginTagCreation,
    BeginTagRemoval,
    DeleteSelected,
    /// Leave the tag prompt, back to filtering.
    LeaveTagPrompt,
    Exit,
    CopySelected,
    SubmitTagPrompt,
    PushChar(char),
    PopChar,
    MoveFirst,
    MoveLast,
    StepDown,
    StepUp,
    Nothing,
}

/// The effect of an action, with or without a tag prompt open: deleting,
/// jumping to an end and copying happen only while filtering; leaving
/// closes a prompt before it exits; the arrows swap when the layout is
/// turned by 180 degrees or more.
pub open spec fn clip_effect_of(a: ClipKeyAction, filtering: bool, rotation: int) -> ClipEffect {
    match a {
        ClipKeyAction::ImagePreview => ClipEffect::ShowImagePreview,
        ClipKeyAction::BeginTagCreation => ClipEffect::BeginTagCreation,
        ClipKeyAction::BeginTagRemoval => ClipEffect::BeginTagRemoval,
        ClipKeyAction::Delete => if filtering {
            ClipEffect::DeleteSelected
        } else {
            ClipEffect::Nothing
        },
        ClipKeyAction::Exit => if filtering {
            ClipEffect::Exit
        } else {
            ClipEffect::LeaveTagPrompt
        },
        ClipKeyAction::Select => if filtering {
            ClipEffect::CopySelected
        } else {
            ClipEffect::SubmitTagPrompt
        },
        ClipKeyAction::Input(c) => ClipEffect::PushChar(c),
        ClipKeyAction::Backspace => ClipEffect::PopChar,
        ClipKeyAction::First => if filtering {
            ClipEffect::MoveFirst
        } else {
            ClipEffect::Nothing
        },
        ClipKeyAction::Last => if filtering {
            ClipEffect::MoveLast
        } else {
            ClipEffect::Nothing
        },
        ClipKeyAction::Down => if rotation >= 180 {
            ClipEffect::StepUp
        } else {
            ClipEffect::StepDown
        },
        ClipKeyAction::Up => if rotation >= 180 {
            ClipEffect::StepDown
        } else {
            ClipEffect::StepUp
        },
        ClipKeyAction::Ignore => ClipEffect::Nothing,
    }
}

/// The effect of a key action in the clipboard picker (see
/// [`clip_effect_of`]).
pub fn clip_key_effect(a: ClipKeyAction, filtering: bool, rotation: u16) -> (r: ClipEffect)
    ensures
        r == clip_effect_of(a, filtering, rotation as int),
{
    match a {
        ClipKeyAction::ImagePreview => ClipEffect::ShowImagePreview,
        ClipKeyAction::BeginTagCreation => ClipEffect::BeginTagCreation,
        ClipKeyAction::BeginTagRemoval => ClipEffect::BeginTagRemoval,
        ClipKeyAction::Delete => if filtering {
            ClipEffect::DeleteSelected
        } else {
            ClipEffect::Nothing
        },
        ClipKeyAction::Exit => if filtering {
            ClipEffect::Exit
        } else {
            ClipEffect::LeaveTagPrompt
        },
        ClipKeyAction::Select => if filtering {
            ClipEffect::CopySelected
        } else {
            ClipEffect::SubmitTagPrompt
        },
        ClipKeyAction::Input(c) => ClipEffect::PushChar(c),
        ClipKeyAction::Backspace => ClipEffect::PopChar,
        ClipKeyAction::First => if filtering {
            ClipEffect::MoveFirst
        } else {
            ClipEffect::Nothing
        },
        ClipKeyAction::Last => if filtering {
            ClipEffect::MoveLast
        } else {
            ClipEffect::Nothing
        },
        ClipKeyAction::Down => if rotation >= 180 {
            ClipEffect::StepUp
        } else {
            ClipEffect::StepDown
        },
        ClipKeyAction::Up => if rotation >= 180 {
            ClipEffect::StepDown
        } else {
            ClipEffect::StepUp
        },
        ClipKeyAction::Ignore => ClipEffect::Nothing,
    }
}

/// What a key does in the dmenu picker.
#[derive(Clone, Copy, Debug, PartialEq, Eq, Structural)]
pub enum MenuKeyAction {
    Exit,
    Submit,
    /// Delete the last query character.
    Backspace,
    /// Move the selection by one row in this direction.
    Step(i8),
    First,
    Last,
    Input(char),
    Nothing,
}

/// The dmenu picker's reading of a key: exit, submit, backspace, then the
/// arrows (left and right step through a horizontal list, else jump to its
/// ends), then typed characters.
pub open spec fn menu_key_action_of(m: BindingMatches, k: KeyPress, horizontal: bool) -> MenuKeyAction {
    if m.exit {
        MenuKeyAction::Exit
    } else if m.select {
        MenuKeyAction::Submit
    } else if m.backspace {
        MenuKeyAction::Backspace
    } else if m.left {
        if horizontal {
            MenuKeyAction::Step(-1i8)
        } else {
            MenuKeyAction::First
        }
    } else if m.right {
        if horizontal {
            MenuKeyAction::Step(1i8)
        } else {
            MenuKeyAction::Last
        }
    } else if m.down {
        MenuKeyAction::Step(1i8)
    } else if m.up {
        MenuKeyAction::Step(-1i8)
    } else {
        match typed_char(k) {
            Some(c) => MenuKeyAction::Input(c),
            None => MenuKeyAction::Nothing,
        }
    }
}

/// Classifies a key in the dmenu picker (see [`menu_key_action_of`]).
pub fn menu_key_action(m: &BindingMatches, k: KeyPress, horizontal: bool) -> (r: MenuKeyAction)
    ensures
        r == menu_key_action_of(*m, k, horizontal),
{
    if m.exit {
        MenuKeyAction::Exit
    } else if m.select {
        MenuKeyAction::Submit
    } else if m.backspace {
        MenuKeyAction::Backspace
    } else if m.left {
        if horizontal {
            MenuKeyAction::Step(-1)
        } else {
            MenuKeyAction::First
        }
    } else if m.right {
        if horizontal {
            MenuKeyAction::Step(1)
        } else {
            MenuKeyAction::Last
        }
    } else if m.down {
        MenuKeyAction::Step(1)
    } else if m.up {
        MenuKeyAction::Step(-1)
    } else {
        match typed(k) {
            Some(c) => MenuKeyAction::Input(c),
            None => MenuKeyAction::Nothing,
        }
    }
}

/// What a key does in the app launcher.
#[derive(Clone, Copy, Debug, PartialEq, Eq, Structural)]
pub enum LauncherKeyAction {
    Exit,
    Select,
    MoveUp,
    MoveDown,
    Backspace,
    TogglePin,
    HideSelected,
    UnhideLast,
    CharInput(char),
    MoveFirst,
    MoveLast,
    Tick,
}

/// The launcher's reading of a key: the bindings in order of precedence
/// (left and right move like up and down), then characters typed without
/// Control or Alt, Home, End, Tab and Shift-Tab.
pub open spec fn launcher_key_action_of(m: BindingMatches, k: KeyPress) -> LauncherKeyAction {
    if m.exit {
        LauncherKeyAction::Exit
    } else if m.select {
        LauncherKeyAction::Select
    } else if m.up {
        LauncherKeyAction::MoveUp
    } else if m.down {
        LauncherKeyAction::MoveDown
    } else if m.left {
        LauncherKeyAction::MoveUp
    } else if m.right {
        LauncherKeyAction::MoveDown
    } else if m.backspace {
        LauncherKeyAction::Backspace
    } else if m.pin {
        LauncherKeyAction::TogglePin
    } else if m.hide {
        LauncherKeyAction::HideSelected
    } else if m.unhide_last {
        LauncherKeyAction::UnhideLast
    } else {
        match k.kind {
            KeyKind::Char(c) => if !k.ctrl && !k.alt {
                LauncherKeyAction::CharInput(c)
            } else {
                LauncherKeyAction::Tick
            },
            KeyKind::Home => LauncherKeyAction::MoveFirst,
            KeyKind::End => LauncherKeyAction::MoveLast,
            KeyKind::Tab => LauncherKeyAction::MoveDown,
            KeyKind::BackTab => LauncherKeyAction::MoveUp,
            KeyKind::Other => LauncherKeyAction::Tick,
        }
    }
}

/// The key is handled by pinning, hiding or unhiding, which end its
/// handling early.
pub open spec fn handled_by_entry_action(m: BindingMatches) -> bool {
    !m.exit && !m.select && !m.up && !m.down && !m.left && !m.right && !m.backspace && (m.pin
        || m.hide || m.unhide_last)
}

/// Classifies a key in the app launcher (see [`launcher_key_action_of`]),
/// and whether it also asks to quit: Control-C does unless it is bound to
/// exit or handled by an entry action.
pub fn launcher_key_action(m: &BindingMatches, k: KeyPress) -> (r: (LauncherKeyAction, bool))
    ensures
        r.0 == launcher_key_action_of(*m, k),
        r.1 == (k.ctrl && k.kind == KeyKind::Char('c') && !m.exit && !handled_by_entry_action(*m)),
{
    let action = if m.exit {
        LauncherKeyAction::Exit
    } else if m.select {
        LauncherKeyAction::Select
    } else if m.up {
        LauncherKeyAction::MoveUp
    } else if m.down {
        LauncherKeyAction::MoveDown
    } else if m.left {
        LauncherKeyAction::MoveUp
    } else if m.right {
        LauncherKeyAction::MoveDown
    } else if m.backspace {
        LauncherKeyAction::Backspace
    } else if m.pin {
        LauncherKeyAction::TogglePin
    } else if m.hide {
        LauncherKeyAction::HideSelected
    } else if m.unhide_last {
        LauncherKeyAction::UnhideLast
    } else {
        match k.kind {
            KeyKind::Char(c) => if !k.ctrl && !k.alt {
                LauncherKeyAction::CharInput(c)
            } else {
                LauncherKeyAction::Tick
            },
            KeyKind::Home => LauncherKeyAction::MoveFirst,
            KeyKind::End => LauncherKeyAction::MoveLast,
            KeyKind::Tab => LauncherKeyAction::MoveDown,
            KeyKind::BackTab => LauncherKeyAction::MoveUp,
            KeyKind::Other => LauncherKeyAction::Tick,
        }
    };
    let early = !m.exit && !m.select && !m.up && !m.down && !m.left && !m.right && !m.backspace
        && (m.pin || m.hide || m.unhide_last);
    let is_ctrl_c = k.ctrl && k.kind == KeyKind::Char('c');
    let quits = is_ctrl_c && !m.exit && !early;
    (action, quits)
}

} // verus!
