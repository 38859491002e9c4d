use fsel::dmenu::query::{display_query, input_title};
use fsel::cli::enums::PanelSide;
use fsel::dmenu::panels::{validate, DmenuPanel};

fn copy(panel: &DmenuPanel) -> DmenuPanel {
    DmenuPanel {
        name: panel.name.clone(),
        command: panel.command.clone(),
        position: panel.position,
        size: panel.size,
    }
}

#[test]
fn panel_command_preserves_colons_and_rejects_duplicate_names() {
    let panel = DmenuPanel::parse("details:right:30:printf '%s:%s' {} {n}").unwrap();
    assert_eq!(panel.command, "printf '%s:%s' {} {n}");
    assert!(validate(&vec![copy(&panel), panel]).is_err());
    assert!(DmenuPanel::parse("preview:left:30:cat {}").is_err());
    assert!(DmenuPanel::parse("x:left:91:cat {}").is_err());
}

#[test]
fn panel_specs_report_each_problem() {
    let panel = DmenuPanel::parse("log:Bottom:+0:tail -n 5 {}").unwrap();
    assert_eq!(panel.name, "log");
    assert_eq!(panel.position, PanelSide::Bottom);
    assert_eq!(panel.size, 0);
    assert_eq!(
        DmenuPanel::parse("only-name").err().as_deref(),
        Some("panel needs NAME:SIDE:PERCENT:COMMAND")
    );
    assert_eq!(DmenuPanel::parse("a:left").err().as_deref(), Some("panel needs a size"));
    assert_eq!(
        DmenuPanel::parse("a:left:big:cmd").err().as_deref(),
        Some("panel size must be an integer")
    );
    assert_eq!(DmenuPanel::parse("a:left:10").err().as_deref(), Some("panel needs a command"));
    assert_eq!(
        DmenuPanel::parse("a:left:10:   ").err().as_deref(),
        Some("panel command must not be empty")
    );
    assert_eq!(
        DmenuPanel::parse(":left:10:cmd").err().as_deref(),
        Some("panel name must contain 1-64 bytes without control characters")
    );
    assert!(DmenuPanel::parse("a:sideways:10:cmd").is_err());
}

#[test]
fn at_most_three_panels_are_accepted() {
    let panels: Vec<DmenuPanel> = ["a", "b", "c", "d"]
        .iter()
        .map(|name| DmenuPanel::parse(&format!("{name}:left:10:cat {{}}")).unwrap())
        .collect();
    assert_eq!(
        validate(&panels).err().as_deref(),
        Some("at most three custom dmenu panels are supported")
    );
    let three: Vec<DmenuPanel> = panels.iter().take(3).map(copy).collect();
    assert!(validate(&three).is_ok());
    let duplicate = vec![copy(&panels[0]), copy(&panels[1]), copy(&panels[0])];
    assert_eq!(validate(&duplicate).err().as_deref(), Some("duplicate panel name: a"));
}

#[test]
fn password_mode_masks_each_character() {
    assert_eq!(display_query(true, "*", "héllo"), "*****");
    assert_eq!(display_query(true, "••", "ab"), "••••");
    assert_eq!(display_query(false, "*", "plain"), "plain");
    assert_eq!(display_query(true, "*", ""), "");
    assert_eq!(input_title(true), " Input ");
    assert_eq!(input_title(false), " Filter ");
}
