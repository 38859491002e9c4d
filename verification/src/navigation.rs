//! Moving the selection through a filtered list: keys, the mouse, submit,
//! and what a chosen row prints.
use crate::text::{
    chars_of, contains_chars, decimal, lowercase, occurs_in, strings_view, to_lowercase,
    u64_to_decimal,
};
use vstd::prelude::*;

verus! {

/// The selected row of the shown list and the first row on screen.
#[derive(Clone, Copy, Debug, PartialEq, Eq, Structural)]
pub struct ListCursor {
    pub selected: Option<usize>,
    pub scroll_offset: usize,
}

/// The row after (or before) `selected` among `len` rows: the next one,
/// else the first again, unless `hard_stop` keeps it at the end.
pub open spec fn stepped(selected: int, len: int, forward: bool, hard_stop: bool) -> int {
    if forward {
        if selected < len - 1 {
            selected + 1
        } else if !hard_stop {
            0
        } else {
            selected
        }
    } else if selected > 0 {
        selected - 1
    } else if !hard_stop {
        len - 1
    } else {
        selected
    }
}

/// The first row shown so that `selected` is on a screen of `max_visible`
/// rows, moving the window as little as possible.
pub open spec fn scrolled_to(scroll: int, selected: int, max_visible: int) -> int {
    if max_visible == 0 {
        0
    } else if selected < scroll {
        selected
    } else if selected >= scroll + max_visible {
        selected - (max_visible - 1)
    } else {
        scroll
    }
}

/// The cursor after moving one row. A down key moves forward unless the
/// layout is rotated by 180 degrees or more, which reverses it. Nothing
/// changes without a selection or without rows.
pub open spec fn moved(
    c: ListCursor,
    len: int,
    direction: int,
    rotation: int,
    hard_stop: bool,
    max_visible: int,
) -> ListCursor {
    match c.selected {
        None => c,
        Some(s) => if len == 0 {
            c
        } else {
            let forward = (direction > 0) != (rotation >= 180);
            let n = stepped(s as int, len, forward, hard_stop);
            ListCursor {
                selected: Some(n as usize),
                scroll_offset: scrolled_to(c.scroll_offset as int, n, max_visible) as usize,
            }
        },
    }
}

/// Moves the selection one row (see [`moved`]).
pub fn move_selection(
    cursor: &mut ListCursor,
    shown_len: usize,
    direction: i32,
    rotation: u16,
    hard_stop: bool,
    max_visible: usize,
)
    requires
        match old(cursor).selected {
            Some(s) => s < shown_len,
            None => true,
        },
    ensures
        *final(cursor) == moved(
            *old(cursor),
            shown_len as int,
            direction as int,
            rotation as int,
            hard_stop,
            max_visible as int,
        ),
{
    let selected = match cursor.selected {
        Some(s) => s,
        None => {
            return ;
        },
    };
    if shown_len == 0 {
        return ;
    }
    let last_index = shown_len - 1;
    let forward = (direction > 0) != (rotation >= 180);
    let new_selected = if forward {
        if selected < last_index {
            selected + 1
        } else if !hard_stop {
            0
        } else {
            selected
        }
    } else if selected > 0 {
        selected - 1
    } else if !hard_stop {
        last_index
    } else {
        selected
    };
    let scroll = if max_visible == 0 {
        0
    } else if new_selected < cursor.scroll_offset {
        new_selected
    } else if new_selected - cursor.scroll_offset >= max_visible {
        new_selected - (max_visible - 1)
    } else {
        cursor.scroll_offset
    };
    *cursor = ListCursor { selected: Some(new_selected), scroll_offset: scroll };
}

/// Selects the first row and scrolls to the top, when there are rows.
pub fn move_to_first(cursor: &mut ListCursor, shown_len: usize)
    ensures
        *final(cursor) == (if shown_len > 0 {
            ListCursor { selected: Some(0), scroll_offset: 0 }
        } else {
            *old(cursor)
        }),
{
    if shown_len > 0 {
        *cursor = ListCursor { selected: Some(0), scroll_offset: 0 };
    }
}

/// Selects the last row and scrolls so that the last screenful shows.
pub fn move_to_last(cursor: &mut ListCursor, shown_len: usize, max_visible: usize)
    ensures
        *final(cursor) == (if shown_len > 0 {
            ListCursor {
                selected: Some((shown_len - 1) as usize),
                scroll_offset: if max_visible > 0 && shown_len > max_visible {
                    (shown_len - max_visible) as usize
                } else {
                    0
                },
            }
        } else {
            *old(cursor)
        }),
{
    if shown_len == 0 {
        return ;
    }
    let scroll = if max_visible > 0 && shown_len > max_visible {
        shown_len - max_visible
    } else {
        0
    };
    *cursor = ListCursor { selected: Some(shown_len - 1), scroll_offset: scroll };
}

/// With auto-select on and exactly one row, that row is selected.
pub fn auto_select_if_single_match(cursor: &mut ListCursor, shown_len: usize, auto_select: bool)
    ensures
        *final(cursor) == (if auto_select && shown_len == 1 {
            ListCursor { selected: Some(0), ..*old(cursor) }
        } else {
            *old(cursor)
        }),
{
    if auto_select && shown_len == 1 {
        *cursor = ListCursor { selected: Some(0), scroll_offset: cursor.scroll_offset };
    }
}

/// What the loop does after a key or click.
#[derive(Clone, Copy, Debug, PartialEq, Eq, Structural)]
pub enum SubmitOutcome {
    /// Print the output of this row and stop.
    PrintRow(usize),
    /// Print the typed query and stop.
    PrintQuery,
    /// Keep running.
    Continue,
    /// Stop without output.
    Exit,
}

/// What submitting does: print the selected row when it exists, else the
/// query when it is not empty and free text is allowed; with only-match
/// the menu stays open, otherwise it closes.
pub open spec fn submit_result(
    selected: Option<usize>,
    shown_len: int,
    query_empty: bool,
    only_match: bool,
) -> SubmitOutcome {
    match selected {
        Some(s) if s < shown_len => SubmitOutcome::PrintRow(s),
        _ => if !only_match && !query_empty {
            SubmitOutcome::PrintQuery
        } else if only_match {
            SubmitOutcome::Continue
        } else {
            SubmitOutcome::Exit
        },
    }
}

/// Submits the menu (auto-selecting a single match first).
pub fn handle_submit(
    cursor: &mut ListCursor,
    shown_len: usize,
    query: &str,
    auto_select: bool,
    only_match: bool,
) -> (r: SubmitOutcome)
    ensures
        *final(cursor) == (if auto_select && shown_len == 1 {
            ListCursor { selected: Some(0), ..*old(cursor) }
        } else {
            *old(cursor)
        }),
        r == submit_result(final(cursor).selected, shown_len as int, query@.len() == 0, only_match),
{
    auto_select_if_single_match(cursor, shown_len, auto_select);
    match cursor.selected {
        Some(s) => {
            if s < shown_len {
                return SubmitOutcome::PrintRow(s);
            }
        },
        None => {},
    }
    if !only_match && query.unicode_len() != 0 {
        return SubmitOutcome::PrintQuery;
    }
    if only_match {
        SubmitOutcome::Continue
    } else {
        SubmitOutcome::Exit
    }
}

/// What a chosen row prints: its original line number, its position in
/// the shown list, its `--accept-nth` columns, or the line itself.
pub open spec fn row_output(
    index_original_mode: bool,
    index_mode: bool,
    accept_output: Option<Seq<char>>,
    position: nat,
    line_number: nat,
    original_line: Seq<char>,
) -> Seq<char> {
    if index_original_mode {
        decimal(line_number)
    } else if index_mode {
        decimal(position)
    } else {
        match accept_output {
            Some(a) => a,
            None => original_line,
        }
    }
}

/// The output for the row at `position`; `accept_output` holds its
/// selected columns when `--accept-nth` is given.
pub fn selected_output(
    index_original_mode: bool,
    index_mode: bool,
    accept_output: Option<&str>,
    position: u64,
    line_number: u64,
    original_line: &str,
) -> (s: String)
    ensures
        s@ == row_output(
            index_original_mode,
            index_mode,
            match accept_output {
                Some(a) => Some(a@),
                None => None,
            },
            position as nat,
            line_number as nat,
            original_line@,
        ),
{
    if index_original_mode {
        u64_to_decimal(line_number)
    } else if index_mode {
        u64_to_decimal(position)
    } else {
        match accept_output {
            Some(a) => a.to_owned(),
            None => original_line.to_owned(),
        }
    }
}

/// A configured binding matches a key: as pressed, or, for the keys that
/// always worked with any modifier (Esc, Enter, Backspace, arrows), as
/// pressed without modifiers.
pub fn matches_binding(
    matches_as_pressed: bool,
    is_special_key: bool,
    matches_without_modifiers: bool,
) -> (r: bool)
    ensures
        r == (matches_as_pressed || (is_special_key && matches_without_modifiers)),
{
    matches_as_pressed || (is_special_key && matches_without_modifiers)
}

/// A mouse event over the list.
#[derive(Clone, Copy, Debug, PartialEq, Eq, Structural)]
pub enum MouseKind {
    Moved,
    LeftDown,
    ScrollUp,
    ScrollDown,
    Other,
}

/// What a mouse event does: `None` to keep running, `Some(row)` to print
/// that row. `hit` is the screen row under the pointer, when it is on a
/// list slot; `capacity` is how many rows the list shows.
pub open spec fn mouse_result(
    c: ListCursor,
    len: int,
    hit: Option<usize>,
    kind: MouseKind,
    capacity: int,
) -> (ListCursor, Option<usize>) {
    match hit {
        None => (c, None),
        Some(relative) => {
            let index = c.scroll_offset + relative;
            if kind == MouseKind::LeftDown && index < len {
                (c, Some(index as usize))
            } else {
                let scroll: int = if kind == MouseKind::ScrollUp && c.scroll_offset > 0 {
                    c.scroll_offset - 1
                } else if kind == MouseKind::ScrollDown && c.scroll_offset + capacity < len {
                    c.scroll_offset + 1
                } else {
                    c.scroll_offset as int
                };
                let selected = if len > 0 {
                    Some(
                        (if scroll + relative < len - 1 {
                            scroll + relative
                        } else {
                            len - 1
                        }) as usize,
                    )
                } else {
                    c.selected
                };
                (ListCursor { selected, scroll_offset: scroll as usize }, None)
            }
        },
    }
}

/// Handles a mouse event over the list (see [`mouse_result`]).
pub fn handle_mouse_event(
    cursor: &mut ListCursor,
    shown_len: usize,
    hit: Option<usize>,
    kind: MouseKind,
    capacity: usize,
) -> (r: Option<usize>)
    requires
        match hit {
            Some(relative) => old(cursor).scroll_offset + relative < usize::MAX
                && old(cursor).scroll_offset + capacity <= usize::MAX,
            None => true,
        },
    ensures
        (*final(cursor), r) == mouse_result(*old(cursor), shown_len as int, hit, kind, capacity as int),
{
    let relative = match hit {
        Some(r) => r,
        None => {
            return None;
        },
    };
    let index = cursor.scroll_offset + relative;
    if kind == MouseKind::LeftDown && index < shown_len {
        return Some(index);
    }
    let scroll = if kind == MouseKind::ScrollUp && cursor.scroll_offset > 0 {
        cursor.scroll_offset - 1
    } else if kind == MouseKind::ScrollDown && cursor.scroll_offset + capacity < shown_len {
        cursor.scroll_offset + 1
    } else {
        cursor.scroll_offset
    };
    let selected = if shown_len > 0 {
        let at = scroll + relative;
        Some(
            if at < shown_len - 1 {
                at
            } else {
                shown_len - 1
            },
        )
    } else {
        cursor.selected
    };
    *cursor = ListCursor { selected, scroll_offset: scroll };
    None
}

/// Moving by a key keeps the selection on a row and on screen: after any
/// move from a selected row, the selection is a row of the list and, on a
/// screen of at least one row, lies within the shown window.
pub proof fn lemma_move_keeps_selection_visible(
    c: ListCursor,
    len: int,
    direction: int,
    rotation: int,
    hard_stop: bool,
    max_visible: int,
)
    requires
        c.selected is Some,
        c.selected.unwrap() < len,
        max_visible > 0,
        len <= usize::MAX,
    ensures
        ({
            let m = moved(c, len, direction, rotation, hard_stop, max_visible);
            &&& m.selected is Some
            &&& m.selected.unwrap() < len
            &&& m.scroll_offset <= m.selected.unwrap() < m.scroll_offset + max_visible
        }),
{
}

/// Without a hard stop, one step forward and one step back return to the
/// row where the selection started.
pub proof fn lemma_step_back_undoes_step(selected: int, len: int, forward: bool)
    requires
        0 <= selected < len,
    ensures
        stepped(stepped(selected, len, forward, false), len, !forward, false) == selected,
        0 <= stepped(selected, len, forward, false) < len,
{
}

/// With a hard stop the selection never wraps: stepping forward never
/// lowers it and stepping back never raises it.
pub proof fn lemma_hard_stop_never_wraps(selected: int, len: int)
    requires
        0 <= selected < len,
    ensures
        stepped(selected, len, true, true) >= selected,
        stepped(selected, len, false, true) <= selected,
        0 <= stepped(selected, len, true, true) < len,
        0 <= stepped(selected, len, false, true) < len,
{
}

/// The row after `selected` in the clipboard list: the next, else the
/// first again unless `hard_stop`; unchanged on an empty list.
pub open spec fn clip_next(selected: int, len: int, hard_stop: bool) -> int {
    if len == 0 {
        selected
    } else if selected + 1 < len {
        selected + 1
    } else if !hard_stop {
        0
    } else {
        selected
    }
}

/// The row before `selected` in the clipboard list: the previous, else
/// the last unless `hard_stop` or the list is empty.
pub open spec fn clip_previous(selected: int, len: int, hard_stop: bool) -> int {
    if selected > 0 {
        selected - 1
    } else if !hard_stop && len > 0 {
        len - 1
    } else {
        selected
    }
}

/// The clipboard list's selection after the down key (see [`clip_next`]).
pub fn next_clip_row(selected: usize, shown_len: usize, hard_stop: bool) -> (r: usize)
    requires
        selected < usize::MAX,
    ensures
        r == clip_next(selected as int, shown_len as int, hard_stop),
{
    if shown_len == 0 {
        selected
    } else if selected + 1 < shown_len {
        selected + 1
    } else if !hard_stop {
        0
    } else {
        selected
    }
}

/// The clipboard list's selection after the up key (see [`clip_previous`]).
pub fn previous_clip_row(selected: usize, shown_len: usize, hard_stop: bool) -> (r: usize)
    ensures
        r == clip_previous(selected as int, shown_len as int, hard_stop),
{
    if selected > 0 {
        selected - 1
    } else if !hard_stop && shown_len > 0 {
        shown_len - 1
    } else {
        selected
    }
}

/// The clipboard list's cursor after the down (or up) key: the selection
/// steps (see [`clip_next`] and [`clip_previous`]) and the list scrolls
/// just enough to show it. Nothing changes without a selection.
pub open spec fn clip_stepped(c: ListCursor, len: int, down: bool, hard_stop: bool, max_visible: int) -> ListCursor {
    match c.selected {
        None => c,
        Some(s) => {
            let n = if down {
                clip_next(s as int, len, hard_stop)
            } else {
                clip_previous(s as int, len, hard_stop)
            };
            ListCursor {
                selected: Some(n as usize),
                scroll_offset: scrolled_to(c.scroll_offset as int, n, max_visible) as usize,
            }
        },
    }
}

/// Moves the clipboard list's selection one row (see [`clip_stepped`]).
pub fn step_clip_selection(
    cursor: &mut ListCursor,
    shown_len: usize,
    down: bool,
    hard_stop: bool,
    max_visible: usize,
)
    requires
        match old(cursor).selected {
            Some(s) => s < usize::MAX,
            None => true,
        },
    ensures
        *final(cursor) == clip_stepped(*old(cursor), shown_len as int, down, hard_stop, max_visible as int),
{
    let selected = match cursor.selected {
        Some(s) => s,
        None => {
            return ;
        },
    };
    let next = if down {
        next_clip_row(selected, shown_len, hard_stop)
    } else {
        previous_clip_row(selected, shown_len, hard_stop)
    };
    let scroll = if max_visible == 0 {
        0
    } else if next < cursor.scroll_offset {
        next
    } else if next - cursor.scroll_offset >= max_visible {
        next - (max_visible - 1)
    } else {
        cursor.scroll_offset
    };
    *cursor = ListCursor { selected: Some(next), scroll_offset: scroll };
}

/// In the clipboard list too, a step from a selected row lands on a row of
/// the list that is on screen, and down then up (without a hard stop)
/// returns to the starting row.
pub proof fn lemma_clip_step_keeps_selection_visible(
    c: ListCursor,
    len: int,
    down: bool,
    hard_stop: bool,
    max_visible: int,
)
    requires
        c.selected is Some,
        c.selected.unwrap() < len,
        max_visible > 0,
        len <= usize::MAX,
    ensures
        ({
            let m = clip_stepped(c, len, down, hard_stop, max_visible);
            &&& m.selected is Some
            &&& m.selected.unwrap() < len
            &&& m.scroll_offset <= m.selected.unwrap() < m.scroll_offset + max_visible
        }),
        !hard_stop ==> clip_previous(clip_next(c.selected.unwrap() as int, len, false), len, false)
            == c.selected.unwrap(),
{
}

/// Rows of the launcher's app list on screen: where the list starts, how
/// many apps fit, and how tall each app's row is.
#[derive(Clone, Copy, Debug, PartialEq, Eq, Structural)]
pub struct ListMetrics {
    pub list_content_start: u16,
    pub max_visible: usize,
    pub row_height: u16,
}

/// `a + b` capped at `u16::MAX`.
pub open spec fn sat_add(a: int, b: int) -> int {
    if a + b > 65535 {
        65535
    } else {
        a + b
    }
}

/// `a * b` capped at `u16::MAX`.
pub open spec fn sat_mul(a: int, b: int) -> int {
    if a * b > 65535 {
        65535
    } else {
        a * b
    }
}

/// The screen row lies in the list: from its first row to the end of the
/// last visible app (the app count taken as a `u16`).
pub open spec fn in_list(m: ListMetrics, row: int) -> bool {
    row >= m.list_content_start && row < sat_add(
        m.list_content_start as int,
        sat_mul((m.max_visible as u16) as int, m.row_height as int),
    )
}

impl ListMetrics {
    /// Whether the screen row lies in the list (see [`in_list`]).
    pub fn contains_row(&self, row: u16) -> (r: bool)
        ensures
            r == in_list(*self, row as int),
    {
        let count = self.max_visible as u16;
        let a = count as u32;
        let b = self.row_height as u32;
        assert(a * b <= 65535 * 65535) by (nonlinear_arith)
            requires
                a <= 65535,
                b <= 65535,
        ;
        let product = a * b;
        let span: u16 = if product > 65535 {
            65535
        } else {
            product as u16
        };
        row >= self.list_content_start && row < self.list_content_start.saturating_add(span)
    }

    /// The index of the app shown at the screen row, when there is one.
    pub fn app_index_for_row(&self, row: u16, scroll_offset: usize, shown_len: usize) -> (r:
        Option<usize>)
        requires
            self.row_height > 0,
            scroll_offset + 65535 <= usize::MAX,
        ensures
            r == (if in_list(*self, row as int) && scroll_offset + (row - self.list_content_start)
                / (self.row_height as int) < shown_len {
                Some((scroll_offset + (row - self.list_content_start) / (self.row_height as int)) as usize)
            } else {
                None
            }),
    {
        if !self.contains_row(row) {
            return None;
        }
        let row_in_content = (row - self.list_content_start) / self.row_height;
        let index = scroll_offset + row_in_content as usize;
        if index < shown_len {
            Some(index)
        } else {
            None
        }
    }

    /// Selects the app under the screen row after scrolling, if it exists.
    pub fn snap_selection_to_mouse(
        &self,
        cursor: &mut ListCursor,
        shown_len: usize,
        row: u16,
    )
        requires
            self.row_height > 0,
            old(cursor).scroll_offset + 65535 <= usize::MAX,
        ensures
            ({
                let at = if row >= self.list_content_start {
                    (row - self.list_content_start) / (self.row_height as int)
                } else {
                    0
                };
                *final(cursor) == (if old(cursor).scroll_offset + at < shown_len {
                    ListCursor {
                        selected: Some((old(cursor).scroll_offset + at) as usize),
                        ..*old(cursor)
                    }
                } else {
                    *old(cursor)
                })
            }),
    {
        let row_in_content = row.saturating_sub(self.list_content_start) / self.row_height;
        let index = cursor.scroll_offset + row_in_content as usize;
        if index < shown_len {
            *cursor = ListCursor { selected: Some(index), scroll_offset: cursor.scroll_offset };
        }
    }
}

/// The first index from `k` whose lowercased text contains `needle`.
pub open spec fn first_containing(shown: Seq<Seq<char>>, needle: Seq<char>, k: int) -> Option<int>
    decreases shown.len() - k,
{
    if k < 0 || k >= shown.len() {
        None
    } else if occurs_in(needle, lowercase(shown[k])) {
        Some(k)
    } else {
        first_containing(shown, needle, k + 1)
    }
}

/// The row selected when the menu opens: the first whose text contains
/// `select` ignoring case (when given), else row `select_index` when it
/// exists, else the first row when there is one.
pub open spec fn initial_row(shown: Seq<Seq<char>>, select: Option<Seq<char>>, select_index: Option<usize>) -> Option<int> {
    let chosen = match select {
        Some(s) => first_containing(shown, lowercase(s), 0),
        None => match select_index {
            Some(i) => if i < shown.len() {
                Some(i as int)
            } else {
                None
            },
            None => None,
        },
    };
    match chosen {
        Some(c) => Some(c),
        None => if shown.len() > 0 {
            Some(0)
        } else {
            None
        },
    }
}

/// The row to select when the menu opens (see [`initial_row`]).
pub fn initial_selection(shown: &Vec<String>, select: Option<&str>, select_index: Option<usize>) -> (r: Option<usize>)
    ensures
        match r {
            Some(i) => initial_row(strings_view(shown@), match select {
                Some(s) => Some(s@),
                None => None,
            }, select_index) == Some(i as int),
            None => initial_row(strings_view(shown@), match select {
                Some(s) => Some(s@),
                None => None,
            }, select_index) is None,
        },
{
    let ghost sv = strings_view(shown@);
    let chosen: Option<usize> = match select {
        Some(s) => {
            let needle = chars_of(to_lowercase(s).as_str());
            let mut found: Option<usize> = None;
            let mut k: usize = 0;
            while k < shown.len()
                invariant_except_break
                    found is None,
                invariant
                    k <= shown@.len(),
                    sv == strings_view(shown@),
                    needle@ == lowercase(s@),
                    first_containing(sv, lowercase(s@), 0) == first_containing(sv, lowercase(s@), k as int),
                ensures
                    match found {
                        Some(f) => first_containing(sv, lowercase(s@), 0) == Some(f as int),
                        None => first_containing(sv, lowercase(s@), 0) is None,
                    },
                decreases shown@.len() - k,
            {
                let hay = chars_of(to_lowercase(shown[k].as_str()).as_str());
                assert(sv[k as int] == shown@[k as int]@);
                if contains_chars(&hay, &needle) {
                    found = Some(k);
                    break;
                }
                k += 1;
            }
            found
        },
        None => match select_index {
            Some(i) => if i < shown.len() {
                Some(i)
            } else {
                None
            },
            None => None,
        },
    };
    match chosen {
        Some(c) => Some(c),
        None => if shown.len() > 0 {
            Some(0)
        } else {
            None
        },
    }
}

/// The position of the selected row on screen: its offset from the first
/// shown row, when it is among the `max_visible` rows shown.
pub open spec fn on_screen(selected: Option<usize>, scroll_offset: int, max_visible: int) -> Option<int> {
    match selected {
        Some(s) => if scroll_offset <= s < scroll_offset + max_visible {
            Some(s - scroll_offset)
        } else {
            None
        },
        None => None,
    }
}

/// Where the selected row is drawn (see [`on_screen`]).
pub fn visible_selection(selected: Option<usize>, scroll_offset: usize, max_visible: usize) -> (r: Option<usize>)
    ensures
        match r {
            Some(v) => on_screen(selected, scroll_offset as int, max_visible as int) == Some(v as int),
            None => on_screen(selected, scroll_offset as int, max_visible as int) is None,
        },
{
    match selected {
        Some(s) => {
            if s >= scroll_offset && s - scroll_offset < max_visible {
                Some(s - scroll_offset)
            } else {
                None
            }
        },
        None => None,
    }
}

/// The mark drawn before the selected row: the configured marker and a
/// space, or nothing when markers are off or the marker is empty.
pub fn selection_marker(show: bool, marker: &str) -> (r: String)
    ensures
        r@ == (if show && marker@.len() > 0 {
            marker@ + " "@
        } else {
            seq![]
        }),
{
    if show && marker.unicode_len() > 0 {
        let mut m = marker.to_owned();
        m.append(" ");
        m
    } else {
        String::new()
    }
}

} // verus!
