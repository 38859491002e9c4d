use fsel::cli::enums::{
    DesktopIconMode, HorizontalPosition, InputPanelStyle, MatchMode, PanelPosition,
    PinnedOrderMode, RankingMode,
};
use fsel::config::overrides::{apply_overrides, PANEL_POSITION_EXPECTED};
use fsel::config::mode::{cclip_appearance, cclip_settings, dmenu_appearance, launcher_appearance};
use fsel::config::schema::{FselConfig, GeneralConfig, LayoutConfig, UiConfig};
use fsel::config::{ConfigError, ConfigValidationError};

fn vars(pairs: &[(&str, &str)]) -> Vec<(String, String)> {
    pairs
        .iter()
        .map(|(key, value)| ((*key).to_string(), (*value).to_string()))
        .collect()
}

#[test]
fn config_struct_defaults_match_runtime_defaults() {
    let general = GeneralConfig::default();
    let ui = UiConfig::default();
    let layout = LayoutConfig::default();

    assert_eq!(general.match_mode, MatchMode::Fuzzy);
    assert_eq!(general.ranking_mode, RankingMode::Frecency);
    assert_eq!(general.pinned_order, PinnedOrderMode::Ranking);
    assert_eq!(general.prefix_depth, 3);

    assert_eq!(ui.highlight_color, "LightBlue");
    assert_eq!(ui.cursor, "█");
    assert!(ui.rounded_borders);

    assert_eq!(layout.title_panel_height_percent, 30);
    assert_eq!(layout.input_panel_height, 3);
    assert_eq!(layout.title_panel_position, PanelPosition::Top);
}

#[test]
fn validate_rejects_conflicting_launch_methods() {
    let mut config = FselConfig::default();
    config.general.systemd_run = true;
    config.general.uwsm = true;

    let error = config.validate().unwrap_err();
    assert_eq!(error, ConfigValidationError::MultipleLaunchMethods);
}

#[test]
fn applies_typed_env_overrides_over_loaded_config_values() {
    let mut config = FselConfig::default();
    config.general.match_mode = MatchMode::Fuzzy;
    config.dmenu.title_panel_position = Some(PanelPosition::Top);
    config.app_launcher.prefix_depth = Some(2);

    let source = vars(&[
        ("FSEL_MATCH_MODE", "exact"),
        ("FSEL_DMENU_TITLE_PANEL_POSITION", "bottom"),
        ("FSEL_APP_LAUNCHER_PREFIX_DEPTH", "8"),
        ("FSEL_APP_LAUNCHER_ICON_MODE", "preview"),
        ("FSEL_APP_LAUNCHER_ICON_POSITION", "left"),
        ("FSEL_APP_LAUNCHER_ICON_ARROW_BEFORE", "true"),
        ("FSEL_APP_LAUNCHER_ICON_HORIZONTAL_ALIGN_PERCENT", "25"),
        ("FSEL_APP_LAUNCHER_ICON_VERTICAL_ALIGN_PERCENT", "75"),
        ("FSEL_APP_LAUNCHER_ICON_LIST_GAP", "2"),
        ("FSEL_APP_LAUNCHER_ICON_LIST_VERTICAL_ALIGN_PERCENT", "-35"),
        ("FSEL_ITEMS_BACKGROUND_COLOR", "#101010"),
        ("FSEL_ITEMS_SELECTION_BACKGROUND_COLOR", "Blue"),
        ("FSEL_MAIN_BACKGROUND_COLOR", "#111111"),
        ("FSEL_INPUT_BACKGROUND_COLOR", "#121212"),
        ("FSEL_SHOW_ITEMS_BORDER", "false"),
        ("FSEL_SHOW_INPUT_PROMPT", "false"),
        ("FSEL_SELECTION_MARKER", "█"),
        ("FSEL_INPUT_PANEL_STYLE", "command"),
        ("FSEL_SHOW_SELECTION_MARKER", "false"),
        ("FSEL_ITEMS_SELECTION_ROUNDED", "true"),
    ]);

    assert!(apply_overrides(&mut config, &source).is_ok());

    assert_eq!(config.general.match_mode, MatchMode::Exact);
    assert_eq!(config.dmenu.title_panel_position, Some(PanelPosition::Bottom));
    assert_eq!(config.app_launcher.prefix_depth, Some(8));
    assert_eq!(config.app_launcher.icon_mode, Some(DesktopIconMode::Preview));
    assert_eq!(config.app_launcher.icon_position, Some(HorizontalPosition::Left));
    assert_eq!(config.app_launcher.icon_arrow_before, Some(true));
    assert_eq!(config.app_launcher.icon_horizontal_align_percent, Some(25));
    assert_eq!(config.app_launcher.icon_vertical_align_percent, Some(75));
    assert_eq!(config.app_launcher.icon_list_gap, Some(2));
    assert_eq!(config.app_launcher.icon_list_vertical_align_percent, Some(-35));
    assert_eq!(config.ui.items_background_color, "#101010");
    assert_eq!(config.ui.items_selection_background_color, "Blue");
    assert_eq!(config.ui.main_background_color, "#111111");
    assert_eq!(config.ui.input_background_color, "#121212");
    assert!(!config.ui.show_items_border);
    assert!(!config.ui.show_input_prompt);
    assert_eq!(config.ui.selection_marker, "█");
    assert_eq!(config.ui.input_panel_style, InputPanelStyle::Command);
    assert!(!config.ui.show_selection_marker);
    assert!(config.ui.items_selection_rounded);
}

#[test]
fn neutral_item_environment_names_override_legacy_aliases() {
    let mut config = FselConfig::default();
    let source = vars(&[
        ("FSEL_APPS_BACKGROUND_COLOR", "Red"),
        ("FSEL_ITEMS_BACKGROUND_COLOR", "Blue"),
        ("FSEL_SHOW_APPS_BORDER", "true"),
        ("FSEL_SHOW_ITEMS_BORDER", "false"),
    ]);

    assert!(apply_overrides(&mut config, &source).is_ok());

    assert_eq!(config.ui.items_background_color, "Blue");
    assert!(!config.ui.show_items_border);
}

#[test]
fn parses_app_launcher_launch_prefix_from_shell_words() {
    let mut config = FselConfig::default();
    let source = vars(&[("FSEL_APP_LAUNCHER_LAUNCH_PREFIX", "env TERM=xterm kitty -e")]);

    assert!(apply_overrides(&mut config, &source).is_ok());

    assert_eq!(
        config.app_launcher.launch_prefix,
        Some(vec![
            "env".to_string(),
            "TERM=xterm".to_string(),
            "kitty".to_string(),
            "-e".to_string(),
        ])
    );
}

#[test]
fn reports_invalid_environment_override_with_expected_value() {
    let mut config = FselConfig::default();
    let source = vars(&[("FSEL_DMENU_TITLE_PANEL_POSITION", "left")]);

    let error = apply_overrides(&mut config, &source).unwrap_err();
    assert!(matches!(
        error,
        ConfigError::InvalidEnvironmentOverride { key, value, expected }
            if key == "FSEL_DMENU_TITLE_PANEL_POSITION"
                && value == "left"
                && expected == PANEL_POSITION_EXPECTED
    ));
}

#[test]
fn preserves_empty_string_env_values_for_string_overrides() {
    let mut config = FselConfig::default();
    let source = vars(&[("FSEL_CURSOR", "")]);

    assert!(apply_overrides(&mut config, &source).is_ok());

    assert_eq!(config.ui.cursor, "");
}

#[test]
fn applies_filter_actions_env_overrides() {
    let mut config = FselConfig::default();
    let source = vars(&[("FSEL_APP_LAUNCHER_FILTER_ACTIONS", "true")]);

    assert!(apply_overrides(&mut config, &source).is_ok());

    assert_eq!(config.app_launcher.filter_actions, Some(true));
}

#[test]
fn applies_auto_hide_duplicates_env_override() {
    let mut config = FselConfig::default();
    let source = vars(&[("FSEL_APP_LAUNCHER_AUTO_HIDE_DUPLICATES", "true")]);

    assert!(apply_overrides(&mut config, &source).is_ok());

    assert_eq!(config.app_launcher.auto_hide_duplicates, Some(true));
}

#[test]
fn invalid_override_keeps_the_variables_read_before_it() {
    let mut config = FselConfig::default();
    let source = vars(&[
        ("FSEL_APP_LAUNCHER_FILTER_ACTIONS", "true"),
        ("FSEL_CURSOR", ">"),
        ("FSEL_HARD_STOP", "yes"),
    ]);

    let error = apply_overrides(&mut config, &source).unwrap_err();
    assert!(matches!(
        error,
        ConfigError::InvalidEnvironmentOverride { key, expected, .. }
            if key == "FSEL_HARD_STOP" && expected == "true or false"
    ));
    // The cursor is read before the hard stop, the launcher's settings
    // after it.
    assert_eq!(config.ui.cursor, ">");
    assert!(!config.ui.hard_stop);
    assert_eq!(config.app_launcher.filter_actions, None);
}

#[test]
fn new_applies_overrides_and_validates() {
    let config = FselConfig::new(
        FselConfig::default(),
        &vars(&[("FSEL_SYSTEMD_RUN", "true"), ("FSEL_PREFIX_DEPTH", "+4")]),
    )
    .ok()
    .expect("one launch method is fine");
    assert!(config.general.systemd_run);
    assert_eq!(config.general.prefix_depth, 4);

    let error = FselConfig::new(
        FselConfig::default(),
        &vars(&[("FSEL_SYSTEMD_RUN", "true"), ("FSEL_UWSM", "true")]),
    );
    assert!(matches!(
        error,
        Err(ConfigError::Validation(ConfigValidationError::MultipleLaunchMethods))
    ));
    let error = FselConfig::new(FselConfig::default(), &vars(&[("FSEL_PREFIX_DEPTH", "-1")]));
    assert!(matches!(
        error,
        Err(ConfigError::InvalidEnvironmentOverride { ref key, .. }) if key == "FSEL_PREFIX_DEPTH"
    ));
}

#[test]
fn dmenu_settings_fall_back_to_shared_ones() {
    let mut config = FselConfig::default();
    config.ui.hard_stop = true;
    config.ui.cursor = "|".to_string();
    config.dmenu.cursor = Some("_".to_string());
    config.dmenu.title_panel_position = Some(PanelPosition::Bottom);

    let dmenu = dmenu_appearance(&config);
    assert!(dmenu.hard_stop);
    assert_eq!(dmenu.cursor, "_");
    assert_eq!(dmenu.content_panel_position, PanelPosition::Bottom);
    assert_eq!(dmenu.input_panel_height, config.layout.input_panel_height);

    let launcher = launcher_appearance(&config);
    assert_eq!(launcher.cursor, "|");
    assert_eq!(launcher.content_panel_position, config.layout.title_panel_position);
}

#[test]
fn cclip_settings_fall_back_to_dmenu_then_shared() {
    let mut config = FselConfig::default();
    config.ui.disable_mouse = false;
    config.ui.highlight_color = "blue".to_string();
    config.dmenu.disable_mouse = Some(true);
    config.dmenu.hard_stop = Some(true);
    config.cclip.hard_stop = Some(false);

    let cclip = cclip_appearance(&config);
    assert!(cclip.disable_mouse);
    assert!(!cclip.hard_stop);
    assert_eq!(cclip.highlight_color, "blue");
}

#[test]
fn cclip_settings_fall_back_to_their_defaults() {
    let mut config = FselConfig::default();
    let defaults = cclip_settings(&config, None);
    assert!(defaults.wrap_long_lines);
    assert!(!defaults.show_line_numbers);
    assert!(!defaults.show_tag_color_names);
    assert!(!defaults.hide_image_message);
    assert_eq!(defaults.image_preview, None);
    config.dmenu.show_line_numbers = Some(true);
    config.cclip.wrap_long_lines = Some(false);
    config.cclip.show_tag_color_names = Some(true);
    let set = cclip_settings(&config, Some(false));
    assert!(set.show_line_numbers);
    assert!(!set.wrap_long_lines);
    assert!(!set.show_tag_color_names);
}
