use fsel::cli::enums::PanelSide;
use fsel::config::schema::PanelsConfig;
use fsel::dmenu::editor::{
    dock, nearest_edge, resize, rotate_side, Area, EditablePanels, EditorEvent, EditorKey,
    PanelEditor,
};
use fsel::dmenu::layout::{split_custom_panels, split_screen};
use fsel::dmenu::panels::DmenuPanel;

fn panels() -> EditablePanels {
    EditablePanels {
        panels: PanelsConfig::default(),
        custom_panels: vec![DmenuPanel {
            name: "details".to_string(),
            command: "printf details".to_string(),
            position: PanelSide::Left,
            size: 30,
        }],
        content_panel_height_percent: 30,
        input_panel_height: 3,
    }
}

#[test]
fn editing_is_opt_in_and_movement_respects_rotation_and_bounds() {
    let mut options = panels();
    let toggle = EditorEvent::Key(EditorKey::Toggle);
    assert!(!PanelEditor::new(false).handle(toggle, &mut options));
    let mut editor = PanelEditor::new(true);
    assert!(editor.handle(toggle, &mut options));
    options.panels.rotation = 90;
    dock(&mut options, editor.focused, PanelSide::Left);
    assert_eq!(
        rotate_side(options.panels.info_position.unwrap(), 90),
        PanelSide::Left
    );
    for _ in 0..30 {
        resize(&mut options, editor.focused, true);
    }
    assert_eq!(options.panels.info_size, Some(90));
    for _ in 0..30 {
        resize(&mut options, editor.focused, false);
    }
    assert_eq!(options.panels.info_size, Some(0));
    assert!(editor.handle(EditorEvent::Key(EditorKey::Esc), &mut options));
    assert!(!editor.active);
}

#[test]
fn focus_cycles_through_preview_input_and_custom_panels() {
    let mut options = panels();
    let mut editor = PanelEditor::new(true);
    assert!(!editor.handle(EditorEvent::Key(EditorKey::Tab), &mut options));
    assert!(editor.handle(EditorEvent::Key(EditorKey::Toggle), &mut options));
    assert!(editor.handle(EditorEvent::Key(EditorKey::Tab), &mut options));
    assert_eq!(editor.focused, 1);
    editor.handle(EditorEvent::Key(EditorKey::Tab), &mut options);
    assert_eq!(editor.focused, 2);
    editor.handle(EditorEvent::Key(EditorKey::Tab), &mut options);
    assert_eq!(editor.focused, 0);
    editor.handle(EditorEvent::Key(EditorKey::BackTab), &mut options);
    assert_eq!(editor.focused, 2);
    editor.handle(EditorEvent::Key(EditorKey::Up), &mut options);
    assert_eq!(options.custom_panels[0].position, PanelSide::Top);
    editor.handle(EditorEvent::ScrollDown, &mut options);
    assert_eq!(options.custom_panels[0].size, 25);
    assert!(!editor.handle(EditorEvent::Idle, &mut options));
}

#[test]
fn dragging_docks_to_the_nearest_edge() {
    let mut options = panels();
    let mut editor = PanelEditor::new(true);
    editor.handle(EditorEvent::Key(EditorKey::Toggle), &mut options);
    editor.handle(EditorEvent::MouseDrag(PanelSide::Bottom), &mut options);
    assert_eq!(options.panels.info_position, None);
    editor.handle(EditorEvent::MouseDown(Some(1)), &mut options);
    assert!(editor.dragging);
    editor.handle(EditorEvent::MouseDrag(PanelSide::Bottom), &mut options);
    assert_eq!(options.panels.input_position, Some(PanelSide::Bottom));
    editor.handle(EditorEvent::MouseUp, &mut options);
    assert!(!editor.dragging);
    editor.handle(EditorEvent::ScrollUp, &mut options);
    assert_eq!(options.panels.input_size, Some(4));

    let area = Area {
        x: 10,
        y: 5,
        width: 20,
        height: 10,
    };
    assert_eq!(nearest_edge(area, 11, 9), PanelSide::Left);
    assert_eq!(nearest_edge(area, 28, 9), PanelSide::Right);
    assert_eq!(nearest_edge(area, 20, 6), PanelSide::Top);
    assert_eq!(nearest_edge(area, 20, 13), PanelSide::Bottom);
    assert_eq!(nearest_edge(area, 10, 5), PanelSide::Left);
}

#[test]
fn sides_turn_clockwise() {
    assert_eq!(rotate_side(PanelSide::Top, 90), PanelSide::Right);
    assert_eq!(rotate_side(PanelSide::Top, 180), PanelSide::Bottom);
    assert_eq!(rotate_side(PanelSide::Left, 270), PanelSide::Bottom);
    assert_eq!(rotate_side(PanelSide::Left, 0), PanelSide::Left);
}

fn overlap(a: &Area, b: &Area) -> bool {
    let x0 = a.x.max(b.x);
    let x1 = (a.x + a.width).min(b.x + b.width);
    let y0 = a.y.max(b.y);
    let y1 = (a.y + a.height).min(b.y + b.height);
    x0 < x1 && y0 < y1
}

#[test]
fn custom_panels_partition_the_result_area_at_every_rotation() {
    let panels = vec![
        DmenuPanel::parse("details:left:30:printf details").expect("valid panel"),
        DmenuPanel::parse("extra:bottom:20:printf extra").expect("valid panel"),
    ];
    for rotation in [0u16, 90, 180, 270] {
        for (width, height) in [(0u16, 0u16), (1, 1), (2, 3), (80, 40)] {
            let area = Area { x: 3, y: 5, width, height };
            let (custom, rest) = split_custom_panels(area, &panels, rotation);
            assert_eq!(custom.len(), 2);
            let pieces: Vec<Area> = custom.into_iter().chain(std::iter::once(rest)).collect();
            let covered: u32 = pieces
                .iter()
                .map(|r| u32::from(r.width) * u32::from(r.height))
                .sum();
            assert_eq!(covered, u32::from(width) * u32::from(height));
            for (index, piece) in pieces.iter().enumerate() {
                for other in &pieces[index + 1..] {
                    assert!(!overlap(piece, other));
                }
            }
        }
    }
}

#[test]
fn a_left_panel_takes_its_share_of_the_width() {
    let panels = vec![DmenuPanel::parse("details:left:30:printf details").expect("valid panel")];
    let area = Area { x: 0, y: 0, width: 80, height: 40 };
    let (custom, rest) = split_custom_panels(area, &panels, 0);
    assert_eq!(custom[0], Area { x: 0, y: 0, width: 24, height: 40 });
    assert_eq!(rest, Area { x: 24, y: 0, width: 56, height: 40 });
    let (turned, _) = split_custom_panels(area, &panels, 90);
    assert_eq!(turned[0], Area { x: 0, y: 0, width: 80, height: 12 });
}

#[test]
fn screen_split_gives_input_title_list_and_right_half_preview() {
    let screen = Area { x: 0, y: 0, width: 81, height: 24 };
    let with_preview = split_screen(screen, true);
    assert_eq!(with_preview.input, Area { x: 0, y: 0, width: 81, height: 1 });
    assert_eq!(with_preview.title, Area { x: 0, y: 1, width: 81, height: 1 });
    assert_eq!(with_preview.list, Area { x: 0, y: 2, width: 40, height: 22 });
    assert_eq!(with_preview.preview, Area { x: 40, y: 2, width: 41, height: 22 });

    let without = split_screen(screen, false);
    assert_eq!(without.list, Area { x: 0, y: 2, width: 81, height: 22 });
    assert_eq!(without.preview.width, 0);

    let tiny = split_screen(Area { x: 0, y: 0, width: 10, height: 1 }, true);
    assert_eq!(tiny.input.height, 1);
    assert_eq!(tiny.title.height, 0);
    assert_eq!(tiny.list.height, 0);
}

#[test]
fn screen_and_custom_panels_partition_the_screen_at_every_rotation() {
    let custom = vec![
        DmenuPanel {
            name: "details".to_string(),
            command: "printf details".to_string(),
            position: PanelSide::Left,
            size: 30,
        },
        DmenuPanel {
            name: "extra".to_string(),
            command: "printf extra".to_string(),
            position: PanelSide::Bottom,
            size: 20,
        },
    ];
    // Two areas overlap when some cell lies in both.
    let overlap = |a: &Area, b: &Area| {
        a.width > 0 && a.height > 0 && b.width > 0 && b.height > 0
            && a.x < b.x + b.width && b.x < a.x + a.width && a.y < b.y + b.height && b.y < a.y + a.height
    };
    for rotation in [0u16, 90, 180, 270] {
        for (w, h) in [(0u16, 0u16), (1, 1), (2, 3), (80, 40)] {
            for preview in [false, true] {
                let screen = Area { x: 3, y: 5, width: w, height: h };
                let layout = split_screen(screen, preview);
                let (rects, items) = split_custom_panels(layout.list, &custom, rotation);
                let mut pieces = vec![layout.input, layout.title, layout.preview];
                pieces.extend(rects);
                pieces.push(items);
                let total: u32 = pieces.iter().map(|a| u32::from(a.width) * u32::from(a.height)).sum();
                assert_eq!(total, u32::from(w) * u32::from(h));
                for i in 0..pieces.len() {
                    for j in i + 1..pieces.len() {
                        assert!(!overlap(&pieces[i], &pieces[j]));
                    }
                }
            }
        }
    }
}
