//! Moving and resizing the dmenu panels from the keyboard and mouse, for the
//! session only.
use crate::cli::enums::PanelSide;
use crate::config::schema::PanelsConfig;
use crate::dmenu::panels::{DmenuPanel, PanelModel};
use vstd::prelude::*;

verus! {

/// `side` turned clockwise by `degrees` in quarter turns.
pub open spec fn rotated_side(side: PanelSide, degrees: int) -> PanelSide
    decreases (if degrees >= 90 { degrees } else { 0 }),
{
    if degrees < 90 {
        side
    } else {
        let turned = match side {
            PanelSide::Top => PanelSide::Right,
            PanelSide::Right => PanelSide::Bottom,
            PanelSide::Bottom => PanelSide::Left,
            PanelSide::Left => PanelSide::Top,
        };
        rotated_side(turned, degrees - 90)
    }
}

/// Turns `side` clockwise by `degrees` (see [`rotated_side`]).
pub fn rotate_side(side: PanelSide, degrees: u16) -> (r: PanelSide)
    ensures
        r == rotated_side(side, degrees as int),
{
    let mut s = side;
    let mut d = degrees;
    while d >= 90
        invariant
            rotated_side(side, degrees as int) == rotated_side(s, d as int),
        decreases d,
    {
        s = match s {
            PanelSide::Top => PanelSide::Right,
            PanelSide::Right => PanelSide::Bottom,
            PanelSide::Bottom => PanelSide::Left,
            PanelSide::Left => PanelSide::Top,
        };
        d = d - 90;
    }
    s
}

/// A rectangle of the screen.
#[derive(Clone, Copy, Debug, PartialEq, Eq, Structural)]
pub struct Area {
    pub x: u16,
    pub y: u16,
    pub width: u16,
    pub height: u16,
}

pub open spec fn distance(a: int, b: int) -> int {
    if a >= b {
        a - b
    } else {
        b - a
    }
}

/// `a + b` capped at `u16::MAX`, less one, floored at zero: the last
/// column or row of a span.
pub open spec fn last_cell(start: int, len: int) -> int {
    let end = if start + len > 65535 {
        65535
    } else {
        start + len
    };
    if end > 0 {
        end - 1
    } else {
        0
    }
}

/// The edge of `area` nearest to the pointer: left, right, top, bottom,
/// the first of them on a tie.
pub open spec fn nearest_edge_of(area: Area, x: int, y: int) -> PanelSide {
    let l = distance(x, area.x as int);
    let r = distance(x, last_cell(area.x as int, area.width as int));
    let t = distance(y, area.y as int);
    let b = distance(y, last_cell(area.y as int, area.height as int));
    if l <= r && l <= t && l <= b {
        PanelSide::Left
    } else if r <= t && r <= b {
        PanelSide::Right
    } else if t <= b {
        PanelSide::Top
    } else {
        PanelSide::Bottom
    }
}

fn abs_diff(a: u16, b: u16) -> (r: u16)
    ensures
        r == distance(a as int, b as int),
{
    if a >= b {
        a - b
    } else {
        b - a
    }
}

/// The edge of `area` nearest to the pointer (see [`nearest_edge_of`]).
pub fn nearest_edge(area: Area, x: u16, y: u16) -> (r: PanelSide)
    ensures
        r == nearest_edge_of(area, x as int, y as int),
{
    let right = area.x.saturating_add(area.width).saturating_sub(1);
    let bottom = area.y.saturating_add(area.height).saturating_sub(1);
    let l = abs_diff(x, area.x);
    let r = abs_diff(x, right);
    let t = abs_diff(y, area.y);
    let b = abs_diff(y, bottom);
    if l <= r && l <= t && l <= b {
        PanelSide::Left
    } else if r <= t && r <= b {
        PanelSide::Right
    } else if t <= b {
        PanelSide::Top
    } else {
        PanelSide::Bottom
    }
}

/// The panels the editor can move: the preview (0), the input (1), then
/// the custom panels.
pub struct EditablePanels {
    pub panels: PanelsConfig,
    pub custom_panels: Vec<DmenuPanel>,
    /// The preview height in percent when no size was set.
    pub content_panel_height_percent: u16,
    /// The input height in rows when no size was set.
    pub input_panel_height: u16,
}

pub struct EditableModel {
    pub info_position: Option<PanelSide>,
    pub input_position: Option<PanelSide>,
    pub info_size: Option<u16>,
    pub input_size: Option<u16>,
    pub rotation: u16,
    pub item_width: u16,
    pub custom: Seq<PanelModel>,
    pub content_panel_height_percent: u16,
    pub input_panel_height: u16,
}

impl View for EditablePanels {
    type V = EditableModel;

    open spec fn view(&self) -> EditableModel {
        EditableModel {
            info_position: self.panels.info_position,
            input_position: self.panels.input_position,
            info_size: self.panels.info_size,
            input_size: self.panels.input_size,
            rotation: self.panels.rotation,
            item_width: self.panels.item_width,
            custom: self.custom_panels@.map_values(|p: DmenuPanel| p@),
            content_panel_height_percent: self.content_panel_height_percent,
            input_panel_height: self.input_panel_height,
        }
    }
}

/// The panels after docking the focused one to the screen edge `physical`,
/// taken back through the layout's rotation.
pub open spec fn docked(m: EditableModel, focused: int, physical: PanelSide) -> EditableModel {
    let side = rotated_side(physical, (360 - m.rotation) % 360);
    if focused == 0 {
        EditableModel { info_position: Some(side), ..m }
    } else if focused == 1 {
        EditableModel { input_position: Some(side), ..m }
    } else if 0 <= focused - 2 < m.custom.len() {
        EditableModel {
            custom: m.custom.update(focused - 2, PanelModel { position: side, ..m.custom[focused - 2] }),
            ..m
        }
    } else {
        m
    }
}

/// `value` one step bigger (at most `maximum`) or smaller (at least zero).
pub open spec fn stepped_size(value: int, step: int, maximum: int, grow: bool) -> int {
    if grow {
        let v = if value + step > 65535 {
            65535
        } else {
            value + step
        };
        if v < maximum {
            v
        } else {
            maximum
        }
    } else if value >= step {
        value - step
    } else {
        0
    }
}

/// The panels after growing or shrinking the focused one: the preview by
/// 5 up to 90 percent, the input by one row, a custom panel by 5 up to 90
/// percent. A size that was not set starts from the configured one.
pub open spec fn resized(m: EditableModel, focused: int, grow: bool) -> EditableModel {
    if focused == 0 {
        let v = match m.info_size {
            Some(s) => s as int,
            None => m.content_panel_height_percent as int,
        };
        EditableModel { info_size: Some(stepped_size(v, 5, 90, grow) as u16), ..m }
    } else if focused == 1 {
        let v = match m.input_size {
            Some(s) => s as int,
            None => m.input_panel_height as int,
        };
        EditableModel { input_size: Some(stepped_size(v, 1, 65535, grow) as u16), ..m }
    } else if 0 <= focused - 2 < m.custom.len() {
        let p = m.custom[focused - 2];
        EditableModel {
            custom: m.custom.update(
                focused - 2,
                PanelModel { size: stepped_size(p.size as int, 5, 90, grow) as u16, ..p },
            ),
            ..m
        }
    } else {
        m
    }
}

fn step_size(value: u16, step: u16, maximum: u16, grow: bool) -> (r: u16)
    ensures
        r == stepped_size(value as int, step as int, maximum as int, grow),
{
    if grow {
        let v = value.saturating_add(step);
        if v < maximum {
            v
        } else {
            maximum
        }
    } else {
        value.saturating_sub(step)
    }
}

fn with_position(p: &DmenuPanel, side: PanelSide) -> (r: DmenuPanel)
    ensures
        r@ == (PanelModel { position: side, ..p@ }),
{
    DmenuPanel { name: p.name.clone(), command: p.command.clone(), position: side, size: p.size }
}

fn with_size(p: &DmenuPanel, size: u16) -> (r: DmenuPanel)
    ensures
        r@ == (PanelModel { size, ..p@ }),
{
    DmenuPanel { name: p.name.clone(), command: p.command.clone(), position: p.position, size }
}

/// Docks the focused panel to the screen edge `physical` (see [`docked`]).
pub fn dock(target: &mut EditablePanels, focused: usize, physical: PanelSide)
    requires
        old(target).panels.rotation <= 360,
    ensures
        final(target)@ == docked(old(target)@, focused as int, physical),
{
    let side = rotate_side(physical, (360 - target.panels.rotation) % 360);
    if focused == 0 {
        target.panels.info_position = Some(side);
    } else if focused == 1 {
        target.panels.input_position = Some(side);
    } else if focused - 2 < target.custom_panels.len() {
        let updated = with_position(&target.custom_panels[focused - 2], side);
        let ghost before = target.custom_panels@.map_values(|p: DmenuPanel| p@);
        target.custom_panels.set(focused - 2, updated);
        assert(target.custom_panels@.map_values(|p: DmenuPanel| p@) =~= before.update(
            focused - 2,
            PanelModel { position: side, ..before[focused - 2] },
        ));
    }
}

/// Grows or shrinks the focused panel (see [`resized`]).
pub fn resize(target: &mut EditablePanels, focused: usize, grow: bool)
    ensures
        final(target)@ == resized(old(target)@, focused as int, grow),
{
    if focused == 0 {
        let v = match target.panels.info_size {
            Some(s) => s,
            None => target.content_panel_height_percent,
        };
        target.panels.info_size = Some(step_size(v, 5, 90, grow));
    } else if focused == 1 {
        let v = match target.panels.input_size {
            Some(s) => s,
            None => target.input_panel_height,
        };
        target.panels.input_size = Some(step_size(v, 1, 65535, grow));
    } else if focused - 2 < target.custom_panels.len() {
        let size = step_size(target.custom_panels[focused - 2].size, 5, 90, grow);
        let updated = with_size(&target.custom_panels[focused - 2], size);
        let ghost before = target.custom_panels@.map_values(|p: DmenuPanel| p@);
        target.custom_panels.set(focused - 2, updated);
        assert(target.custom_panels@.map_values(|p: DmenuPanel| p@) =~= before.update(
            focused - 2,
            PanelModel { size, ..before[focused - 2] },
        ));
    }
}

/// A key of the panel editor.
#[derive(Clone, Copy, Debug, PartialEq, Eq, Structural)]
pub enum EditorKey {
    /// Alt-P, which switches the editor on and off.
    Toggle,
    Esc,
    Enter,
    Tab,
    BackTab,
    Left,
    Right,
    Up,
    Down,
    /// `+` or `=`.
    Grow,
    /// `-`.
    Shrink,
    Other,
}

/// An event for the panel editor; mouse positions come already resolved
/// against the layout.
#[derive(Clone, Copy, Debug, PartialEq, Eq, Structural)]
pub enum EditorEvent {
    Key(EditorKey),
    /// Left button pressed over the panel with this index, if any.
    MouseDown(Option<usize>),
    MouseUp,
    /// Dragged with the left button; the edge of the item area nearest to
    /// the pointer.
    MouseDrag(PanelSide),
    ScrollUp,
    ScrollDown,
    OtherMouse,
    /// A tick or redraw request.
    Idle,
}

/// The state of the panel editor.
#[derive(Clone, Copy, Debug, PartialEq, Eq, Structural)]
pub struct PanelEditor {
    pub enabled: bool,
    pub active: bool,
    pub focused: usize,
    pub dragging: bool,
}

/// The editor and panels after an event, and whether the editor took it.
pub open spec fn handled(
    e: PanelEditor,
    m: EditableModel,
    event: EditorEvent,
) -> (PanelEditor, EditableModel, bool) {
    let count: int = 2 + m.custom.len() as int;
    if !e.enabled {
        (e, m, false)
    } else if event == EditorEvent::Key(EditorKey::Toggle) {
        (PanelEditor { active: !e.active, dragging: false, ..e }, m, true)
    } else if !e.active {
        (e, m, false)
    } else {
        match event {
            EditorEvent::Key(k) => match k {
                EditorKey::Esc | EditorKey::Enter => (
                    PanelEditor { active: false, dragging: false, ..e },
                    m,
                    true,
                ),
                EditorKey::Tab => (
                    PanelEditor { focused: ((e.focused + 1) % count) as usize, ..e },
                    m,
                    true,
                ),
                EditorKey::BackTab => (
                    PanelEditor { focused: ((e.focused + 1 + m.custom.len()) % count) as usize, ..e },
                    m,
                    true,
                ),
                EditorKey::Left => (e, docked(m, e.focused as int, PanelSide::Left), true),
                EditorKey::Right => (e, docked(m, e.focused as int, PanelSide::Right), true),
                EditorKey::Up => (e, docked(m, e.focused as int, PanelSide::Top), true),
                EditorKey::Down => (e, docked(m, e.focused as int, PanelSide::Bottom), true),
                EditorKey::Grow => (e, resized(m, e.focused as int, true), true),
                EditorKey::Shrink => (e, resized(m, e.focused as int, false), true),
                _ => (e, m, true),
            },
            EditorEvent::MouseDown(hit) => match hit {
                Some(i) => (PanelEditor { focused: i, dragging: true, ..e }, m, true),
                None => (e, m, true),
            },
            EditorEvent::MouseUp => (PanelEditor { dragging: false, ..e }, m, true),
            EditorEvent::MouseDrag(side) => if e.dragging {
                (e, docked(m, e.focused as int, side), true)
            } else {
                (e, m, true)
            },
            EditorEvent::ScrollUp => (e, resized(m, e.focused as int, true), true),
            EditorEvent::ScrollDown => (e, resized(m, e.focused as int, false), true),
            EditorEvent::OtherMouse => (e, m, true),
            EditorEvent::Idle => (e, m, false),
        }
    }
}

impl PanelEditor {
    /// A new editor, off until toggled; `enabled` allows editing at all.
    pub fn new(enabled: bool) -> (e: PanelEditor)
        ensures
            e == (PanelEditor { enabled, active: false, focused: 0, dragging: false }),
    {
        PanelEditor { enabled, active: false, focused: 0, dragging: false }
    }

    /// Handles an event (see [`handled`]); true when the editor took it.
    pub fn handle(&mut self, event: EditorEvent, target: &mut EditablePanels) -> (taken: bool)
        requires
            old(self).focused < 2 + old(target).custom_panels@.len(),
            old(target).custom_panels@.len() < 0x1000_0000,
            old(target).panels.rotation <= 360,
        ensures
            (*final(self), final(target)@, taken) == handled(*old(self), old(target)@, event),
    {
        if !self.enabled {
            return false;
        }
        if event == EditorEvent::Key(EditorKey::Toggle) {
            *self = PanelEditor { active: !self.active, dragging: false, ..*self };
            return true;
        }
        if !self.active {
            return false;
        }
        let n = target.custom_panels.len();
        match event {
            EditorEvent::Key(k) => {
                match k {
                    EditorKey::Esc | EditorKey::Enter => {
                        *self = PanelEditor { active: false, dragging: false, ..*self };
                    },
                    EditorKey::Tab => {
                        *self = PanelEditor { focused: (self.focused + 1) % (2 + n), ..*self };
                    },
                    EditorKey::BackTab => {
                        *self = PanelEditor { focused: (self.focused + 1 + n) % (2 + n), ..*self };
                    },
                    EditorKey::Left => dock(target, self.focused, PanelSide::Left),
                    EditorKey::Right => dock(target, self.focused, PanelSide::Right),
                    EditorKey::Up => dock(target, self.focused, PanelSide::Top),
                    EditorKey::Down => dock(target, self.focused, PanelSide::Bottom),
                    EditorKey::Grow => resize(target, self.focused, true),
                    EditorKey::Shrink => resize(target, self.focused, false),
                    _ => {},
                }
                true
            },
            EditorEvent::MouseDown(hit) => {
                match hit {
                    Some(i) => {
                        *self = PanelEditor { focused: i, dragging: true, ..*self };
                    },
                    None => {},
                }
                true
            },
            EditorEvent::MouseUp => {
                *self = PanelEditor { dragging: false, ..*self };
                true
            },
            EditorEvent::MouseDrag(side) => {
                if self.dragging {
                    dock(target, self.focused, side);
                }
                true
            },
            EditorEvent::ScrollUp => {
                resize(target, self.focused, true);
                true
            },
            EditorEvent::ScrollDown => {
                resize(target, self.focused, false);
                true
            },
            EditorEvent::OtherMouse => true,
            EditorEvent::Idle => false,
        }
    }
}

/// Docking undoes the layout's rotation: the side stored for a panel,
/// turned by the rotation, is the screen edge it was docked to (for the
/// quarter-turn rotations).
pub proof fn lemma_dock_lands_on_the_chosen_edge(physical: PanelSide, rotation: int)
    requires
        rotation == 0 || rotation == 90 || rotation == 180 || rotation == 270,
    ensures
        rotated_side(rotated_side(physical, (360 - rotation) % 360), rotation) == physical,
{
    reveal_with_fuel(rotated_side, 9);
}

/// Sizes stay within bounds: growing never passes the maximum, shrinking
/// never goes below zero, and each step changes the size by at most one
/// step.
pub proof fn lemma_resize_bounds(value: int, step: int, maximum: int, grow: bool)
    requires
        0 <= value <= maximum <= 65535,
        0 <= step,
    ensures
        0 <= stepped_size(value, step, maximum, grow) <= maximum,
        distance(stepped_size(value, step, maximum, grow), value) <= step,
{
}

} // verus!
