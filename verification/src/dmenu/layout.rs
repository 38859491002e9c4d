//! Where the custom dmenu panels go: each docks to an edge of what is left
//! of the result area, in order, and takes its share of that area.
use crate::cli::enums::PanelSide;
use crate::dmenu::editor::{rotate_side, rotated_side, Area};
use crate::dmenu::panels::{DmenuPanel, PanelModel};
use vstd::prelude::*;

verus! {

/// `a` lies on the screen: its right and bottom edges are coordinates.
pub open spec fn on_screen(a: Area) -> bool {
    a.x + a.width <= 65535 && a.y + a.height <= 65535
}

/// The cell at column `px`, row `py` belongs to `a`.
pub open spec fn holds(a: Area, px: int, py: int) -> bool {
    a.x <= px < a.x + a.width && a.y <= py < a.y + a.height
}

/// A panel on the left or right edge takes a share of the width.
pub open spec fn side_is_horizontal(side: PanelSide) -> bool {
    side == PanelSide::Left || side == PanelSide::Right
}

/// `cells` columns or rows of `a` taken at `side` (no more than it has),
/// and the rest of `a`.
pub open spec fn docked_area(a: Area, side: PanelSide, cells: int) -> (Area, Area) {
    match side {
        PanelSide::Left => {
            let c = if cells <= a.width { cells } else { a.width as int };
            (
                Area { width: c as u16, ..a },
                Area { x: (a.x + c) as u16, width: (a.width - c) as u16, ..a },
            )
        },
        PanelSide::Right => {
            let c = if cells <= a.width { cells } else { a.width as int };
            (
                Area { x: (a.x + a.width - c) as u16, width: c as u16, ..a },
                Area { width: (a.width - c) as u16, ..a },
            )
        },
        PanelSide::Top => {
            let c = if cells <= a.height { cells } else { a.height as int };
            (
                Area { height: c as u16, ..a },
                Area { y: (a.y + c) as u16, height: (a.height - c) as u16, ..a },
            )
        },
        PanelSide::Bottom => {
            let c = if cells <= a.height { cells } else { a.height as int };
            (
                Area { y: (a.y + a.height - c) as u16, height: c as u16, ..a },
                Area { height: (a.height - c) as u16, ..a },
            )
        },
    }
}

/// Takes `cells` columns or rows of `area` at `side` (see [`docked_area`]).
pub fn dock_area(area: Area, side: PanelSide, cells: u16) -> (r: (Area, Area))
    requires
        on_screen(area),
    ensures
        r == docked_area(area, side, cells as int),
{
    match side {
        PanelSide::Left => {
            let c = if cells <= area.width { cells } else { area.width };
            (Area { width: c, ..area }, Area { x: area.x + c, width: area.width - c, ..area })
        },
        PanelSide::Right => {
            let c = if cells <= area.width { cells } else { area.width };
            (Area { x: area.x + area.width - c, width: c, ..area }, Area { width: area.width - c, ..area })
        },
        PanelSide::Top => {
            let c = if cells <= area.height { cells } else { area.height };
            (Area { height: c, ..area }, Area { y: area.y + c, height: area.height - c, ..area })
        },
        PanelSide::Bottom => {
            let c = if cells <= area.height { cells } else { area.height };
            (Area { y: area.y + area.height - c, height: c, ..area }, Area { height: area.height - c, ..area })
        },
    }
}

/// The cells a panel of `size` percent takes of `total`, rounded down.
pub open spec fn share(total: int, size: int) -> int {
    total * size / 100
}

/// The areas of `panels` docked in order into `area` with the layout
/// turned by `rotation` degrees, and what is left of `area`.
pub open spec fn custom_split(area: Area, panels: Seq<PanelModel>, rotation: int) -> (Seq<Area>, Area)
    decreases panels.len(),
{
    if panels.len() == 0 {
        (seq![], area)
    } else {
        let (before, remaining) = custom_split(area, panels.drop_last(), rotation);
        let p = panels.last();
        let side = rotated_side(p.position, rotation);
        let total = if side_is_horizontal(side) {
            remaining.width as int
        } else {
            remaining.height as int
        };
        let cells = share(total, p.size as int) % 65536;
        let (rect, rest) = docked_area(remaining, side, cells);
        (before.push(rect), rest)
    }
}

/// The panels of `v` as plain values.
pub open spec fn panels_view(v: Seq<DmenuPanel>) -> Seq<PanelModel> {
    v.map_values(|p: DmenuPanel| p@)
}

/// Docking keeps both pieces on the screen and splits the cells of `a`
/// between them: each cell of `a` is in exactly one piece, and no other
/// cell is in either.
pub proof fn lemma_dock_partitions(a: Area, side: PanelSide, cells: int)
    requires
        on_screen(a),
        cells >= 0,
    ensures
        on_screen(docked_area(a, side, cells).0),
        on_screen(docked_area(a, side, cells).1),
        forall|px: int, py: int|
            #![trigger holds(docked_area(a, side, cells).0, px, py)]
            #![trigger holds(docked_area(a, side, cells).1, px, py)]
            #![trigger holds(a, px, py)]
            holds(a, px, py) <==> (holds(docked_area(a, side, cells).0, px, py) || holds(
                docked_area(a, side, cells).1,
                px,
                py,
            )),
        forall|px: int, py: int|
            #![trigger holds(docked_area(a, side, cells).0, px, py)]
            #![trigger holds(docked_area(a, side, cells).1, px, py)]
            !(holds(docked_area(a, side, cells).0, px, py) && holds(
                docked_area(a, side, cells).1,
                px,
                py,
            )),
{
}

/// Places the custom panels (see [`custom_split`]): returns the area of
/// each panel, in order, and what is left for the items.
pub fn split_custom_panels(area: Area, panels: &Vec<DmenuPanel>, rotation: u16) -> (r: (
    Vec<Area>,
    Area,
))
    requires
        on_screen(area),
    ensures
        r.0@ == custom_split(area, panels_view(panels@), rotation as int).0,
        r.1 == custom_split(area, panels_view(panels@), rotation as int).1,
{
    let ghost pv = panels_view(panels@);
    let mut rects: Vec<Area> = Vec::new();
    let mut remaining = area;
    let mut i: usize = 0;
    assert(pv.take(0) =~= Seq::<PanelModel>::empty());
    while i < panels.len()
        invariant
            i <= panels@.len(),
            pv == panels_view(panels@),
            on_screen(area),
            on_screen(remaining),
            rects@ == custom_split(area, pv.take(i as int), rotation as int).0,
            remaining == custom_split(area, pv.take(i as int), rotation as int).1,
        decreases panels@.len() - i,
    {
        let panel = &panels[i];
        assert(pv.take(i + 1).drop_last() =~= pv.take(i as int));
        assert(pv.take(i + 1).last() == panel@);
        let side = rotate_side(panel.position, rotation);
        let horizontal = match side {
            PanelSide::Left | PanelSide::Right => true,
            _ => false,
        };
        let total: u16 = if horizontal {
            remaining.width
        } else {
            remaining.height
        };
        assert((total as u32) * (panel.size as u32) <= 65535 * 65535) by (nonlinear_arith)
            requires
                total <= 65535,
                panel.size <= 65535,
        ;
        let product: u32 = (total as u32) * (panel.size as u32);
        let cells_wide: u32 = product / 100;
        let cells: u16 = (cells_wide % 65536) as u16;
        proof {
            lemma_dock_partitions(remaining, side, cells as int);
        }
        let (rect, rest) = dock_area(remaining, side, cells);
        rects.push(rect);
        remaining = rest;
        i += 1;
    }
    assert(pv.take(panels@.len() as int) =~= pv);
    (rects, remaining)
}

/// The custom panels and the items share the result area without
/// overlap, at every rotation: each cell of the area lies in exactly one
/// of the panels or in what is left for the items, and no cell outside the
/// area lies in any of them.
pub proof fn lemma_custom_panels_partition(area: Area, panels: Seq<PanelModel>, rotation: int)
    requires
        on_screen(area),
    ensures
        ({
            let (rects, rest) = custom_split(area, panels, rotation);
            &&& rects.len() == panels.len()
            &&& on_screen(rest)
            &&& forall|px: int, py: int|
                #![trigger holds(rest, px, py)]
                #![trigger holds(area, px, py)]
                holds(area, px, py) <==> (holds(rest, px, py) || exists|i: int|
                    0 <= i < rects.len() && #[trigger] holds(rects[i], px, py))
            &&& forall|i: int, px: int, py: int|
                0 <= i < rects.len() && #[trigger] holds(rects[i], px, py) ==> !holds(rest, px, py)
            &&& forall|i: int, j: int, px: int, py: int|
                0 <= i < j < rects.len() && #[trigger] holds(rects[i], px, py) ==> !#[trigger] holds(
                    rects[j],
                    px,
                    py,
                )
        }),
    decreases panels.len(),
{
    if panels.len() > 0 {
        lemma_custom_panels_partition(area, panels.drop_last(), rotation);
        let (before, remaining) = custom_split(area, panels.drop_last(), rotation);
        let p = panels.last();
        let side = rotated_side(p.position, rotation);
        let total = if side_is_horizontal(side) {
            remaining.width as int
        } else {
            remaining.height as int
        };
        let cells = share(total, p.size as int) % 65536;
        lemma_dock_partitions(remaining, side, cells);
        let (rect, rest) = docked_area(remaining, side, cells);
        let rects = before.push(rect);
        assert forall|px: int, py: int| holds(area, px, py) <==> (holds(rest, px, py) || exists|i: int|
            0 <= i < rects.len() && #[trigger] holds(rects[i], px, py)) by {
            if holds(area, px, py) {
                if !holds(rest, px, py) {
                    if holds(remaining, px, py) {
                        assert(holds(rects[before.len() as int], px, py));
                    } else {
                        let i = choose|i: int| 0 <= i < before.len() && #[trigger] holds(before[i], px, py);
                        assert(holds(rects[i], px, py));
                    }
                }
            }
            if holds(rest, px, py) {
                assert(holds(remaining, px, py));
            }
            if exists|i: int| 0 <= i < rects.len() && #[trigger] holds(rects[i], px, py) {
                let i = choose|i: int| 0 <= i < rects.len() && #[trigger] holds(rects[i], px, py);
                if i < before.len() {
                    assert(holds(before[i], px, py));
                } else {
                    assert(holds(remaining, px, py));
                }
            }
        }
        assert forall|i: int, px: int, py: int|
            0 <= i < rects.len() && #[trigger] holds(rects[i], px, py) implies !holds(rest, px, py) by {
            if i < before.len() {
                assert(holds(before[i], px, py));
                assert(!holds(remaining, px, py));
            }
        }
        assert forall|i: int, j: int, px: int, py: int|
            0 <= i < j < rects.len() && #[trigger] holds(rects[i], px, py) implies !#[trigger] holds(
                rects[j],
                px,
                py,
            ) by {
            assert(holds(before[i], px, py));
            if j == before.len() {
                assert(!holds(remaining, px, py));
            } else {
                assert(holds(before[j], px, py) == holds(rects[j], px, py));
            }
        }
    }
}


/// The picker's screen: the input line, the title line, the list and the
/// preview beside it.
#[derive(Clone, Copy, Debug, PartialEq, Eq, Structural)]
pub struct ScreenLayout {
    pub input: Area,
    pub title: Area,
    pub list: Area,
    pub preview: Area,
}

/// The screen split: the top row for the input, the next for the title,
/// and below them the list, with the right half (rounded up) for the
/// preview when there is one.
/// The split is fixed: it takes no panel sizes or positions.
pub open spec fn screen_split(screen: Area, preview: bool) -> ScreenLayout {
    let (input, below_input) = docked_area(screen, PanelSide::Top, 1);
    let (title, below_title) = docked_area(below_input, PanelSide::Top, 1);
    let share = if preview {
        below_title.width - below_title.width / 2
    } else {
        0
    };
    let (preview_area, list) = docked_area(below_title, PanelSide::Right, share);
    ScreenLayout { input, title, list, preview: preview_area }
}

/// Splits the screen (see [`screen_split`]).
pub fn split_screen(screen: Area, preview: bool) -> (r: ScreenLayout)
    requires
        on_screen(screen),
    ensures
        r == screen_split(screen, preview),
{
    proof {
        lemma_dock_partitions(screen, PanelSide::Top, 1);
        lemma_dock_partitions(docked_area(screen, PanelSide::Top, 1).1, PanelSide::Top, 1);
    }
    let (input, below_input) = dock_area(screen, PanelSide::Top, 1);
    let (title, below_title) = dock_area(below_input, PanelSide::Top, 1);
    let share = if preview {
        below_title.width - below_title.width / 2
    } else {
        0
    };
    let (preview_area, list) = dock_area(below_title, PanelSide::Right, share);
    ScreenLayout { input, title, list, preview: preview_area }
}

/// The screen split partitions the screen: each cell of it lies in exactly
/// one of the input, the title, the list and the preview, and no cell
/// outside it in any.
pub proof fn lemma_screen_split_partitions(screen: Area, preview: bool, px: int, py: int)
    requires
        on_screen(screen),
    ensures
        ({
            let l = screen_split(screen, preview);
            &&& holds(screen, px, py) <==> (holds(l.input, px, py) || holds(l.title, px, py)
                || holds(l.list, px, py) || holds(l.preview, px, py))
            &&& !(holds(l.input, px, py) && holds(l.title, px, py))
            &&& !(holds(l.input, px, py) && holds(l.list, px, py))
            &&& !(holds(l.input, px, py) && holds(l.preview, px, py))
            &&& !(holds(l.title, px, py) && holds(l.list, px, py))
            &&& !(holds(l.title, px, py) && holds(l.preview, px, py))
            &&& !(holds(l.list, px, py) && holds(l.preview, px, py))
        }),
{
    let (input, below_input) = docked_area(screen, PanelSide::Top, 1);
    lemma_dock_partitions(screen, PanelSide::Top, 1);
    let (title, below_title) = docked_area(below_input, PanelSide::Top, 1);
    lemma_dock_partitions(below_input, PanelSide::Top, 1);
    let share = if preview {
        below_title.width - below_title.width / 2
    } else {
        0
    };
    lemma_dock_partitions(below_title, PanelSide::Right, share);
    assert(holds(input, px, py) ==> holds(screen, px, py));
    assert(holds(below_input, px, py) ==> holds(screen, px, py));
    assert(holds(title, px, py) ==> holds(below_input, px, py));
    assert(holds(below_title, px, py) ==> holds(below_input, px, py));
}
/// The pieces of the picker's screen: the input line, the title line and
/// the preview of the screen split, then the custom panels in order, then
/// what is left of the list for the items.
pub open spec fn screen_pieces(screen: Area, preview: bool, panels: Seq<PanelModel>, rotation: int) -> Seq<Area> {
    let l = screen_split(screen, preview);
    let (rects, rest) = custom_split(l.list, panels, rotation);
    seq![l.input, l.title, l.preview] + rects + seq![rest]
}

/// The whole layout partitions the screen, at every rotation: each cell of
/// the screen lies in exactly one of its pieces (see [`screen_pieces`]),
/// and no cell outside it in any.
pub proof fn lemma_screen_pieces_partition(
    screen: Area,
    preview: bool,
    panels: Seq<PanelModel>,
    rotation: int,
    px: int,
    py: int,
)
    requires
        on_screen(screen),
    ensures
        ({
            let pieces = screen_pieces(screen, preview, panels, rotation);
            &&& pieces.len() == panels.len() + 4
            &&& holds(screen, px, py) <==> exists|i: int|
                0 <= i < pieces.len() && #[trigger] holds(pieces[i], px, py)
            &&& forall|i: int, j: int|
                0 <= i < j < pieces.len() && #[trigger] holds(pieces[i], px, py) ==> !#[trigger] holds(
                    pieces[j],
                    px,
                    py,
                )
        }),
{
    let l = screen_split(screen, preview);
    lemma_screen_split_partitions(screen, preview, px, py);
    let (input, below_input) = docked_area(screen, PanelSide::Top, 1);
    lemma_dock_partitions(screen, PanelSide::Top, 1);
    let (title, below_title) = docked_area(below_input, PanelSide::Top, 1);
    lemma_dock_partitions(below_input, PanelSide::Top, 1);
    let share = if preview {
        below_title.width - below_title.width / 2
    } else {
        0
    };
    lemma_dock_partitions(below_title, PanelSide::Right, share);
    assert(on_screen(l.list));
    lemma_custom_panels_partition(l.list, panels, rotation);
    let (rects, rest) = custom_split(l.list, panels, rotation);
    let pieces = screen_pieces(screen, preview, panels, rotation);
    assert(pieces[0] == l.input);
    assert(pieces[1] == l.title);
    assert(pieces[2] == l.preview);
    assert(pieces[pieces.len() - 1] == rest);
    assert forall|i: int| 3 <= i < pieces.len() - 1 implies pieces[i] == rects[i - 3] by {}
    // What lies in a custom panel or in the rest lies in the list.
    assert forall|i: int| 3 <= i < pieces.len() && #[trigger] holds(pieces[i], px, py) implies holds(
        l.list,
        px,
        py,
    ) by {
        if i < pieces.len() - 1 {
            assert(holds(rects[i - 3], px, py));
        }
    }
    if holds(screen, px, py) {
        if holds(l.input, px, py) {
            assert(holds(pieces[0], px, py));
        } else if holds(l.title, px, py) {
            assert(holds(pieces[1], px, py));
        } else if holds(l.preview, px, py) {
            assert(holds(pieces[2], px, py));
        } else {
            assert(holds(l.list, px, py));
            if holds(rest, px, py) {
                assert(holds(pieces[pieces.len() - 1], px, py));
            } else {
                let k = choose|k: int| 0 <= k < rects.len() && #[trigger] holds(rects[k], px, py);
                assert(holds(pieces[k + 3], px, py));
            }
        }
    }
    assert forall|i: int, j: int|
        0 <= i < j < pieces.len() && #[trigger] holds(pieces[i], px, py) implies !#[trigger] holds(
        pieces[j],
        px,
        py,
    ) by {
        if holds(pieces[j], px, py) {
            if j >= 3 {
                assert(holds(l.list, px, py));
                if i >= 3 {
                    if j == pieces.len() - 1 {
                        assert(holds(rects[i - 3], px, py));
                    } else {
                        assert(holds(rects[i - 3], px, py));
                        assert(holds(rects[j - 3], px, py));
                    }
                }
            }
        }
    }
}

} // verus!
