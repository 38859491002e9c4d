//! The configuration as the launcher uses it, and its defaults.
use crate::cli::enums::{
    DesktopIconMode, HorizontalPosition, InputPanelStyle, MatchMode, PanelPosition, PanelSide,
    PinnedOrderMode, RankingMode,
};
use vstd::prelude::*;

verus! {

/// Launcher-wide settings at the top level of the configuration file.
pub struct GeneralConfig {
    pub terminal_launcher: String,
    pub filter_desktop: bool,
    pub list_executables_in_path: bool,
    pub hide_before_typing: bool,
    pub match_mode: MatchMode,
    pub ranking_mode: RankingMode,
    pub pinned_order: PinnedOrderMode,
    pub systemd_run: bool,
    pub uwsm: bool,
    pub detach: bool,
    pub no_exec: bool,
    pub confirm_first_launch: bool,
    pub prefix_depth: usize,
}

/// Colors, borders and markers shared by every mode.
pub struct UiConfig {
    pub pinned_text_color: Option<String>,
    pub pinned_background_color: Option<String>,
    pub pinned_highlight_color: Option<String>,
    pub pinned_selection_background_color: Option<String>,
    pub highlight_color: String,
    pub cursor: String,
    pub hard_stop: bool,
    pub rounded_borders: bool,
    pub show_main_border: bool,
    pub show_items_border: bool,
    pub show_input_border: bool,
    pub show_panel_titles: bool,
    pub show_input_count: bool,
    pub show_input_prompt: bool,
    pub show_selection_marker: bool,
    pub selection_marker: String,
    pub show_pin_icons: bool,
    pub input_panel_style: InputPanelStyle,
    pub disable_mouse: bool,
    pub main_border_color: String,
    pub main_background_color: String,
    pub items_border_color: String,
    pub items_background_color: String,
    pub items_selection_background_color: String,
    pub items_selection_rounded: bool,
    pub input_border_color: String,
    pub input_background_color: String,
    pub main_text_color: String,
    pub items_text_color: String,
    pub input_text_color: String,
    pub fancy_mode: bool,
    pub header_title_color: String,
    pub pin_color: String,
    pub pin_icon: String,
}

/// Docking and sizes of the preview and input panels.
pub struct PanelsConfig {
    pub info_position: Option<PanelSide>,
    pub input_position: Option<PanelSide>,
    pub info_size: Option<u16>,
    pub input_size: Option<u16>,
    pub rotation: u16,
    pub item_width: u16,
}

/// Size and place of the title and input panels.
pub struct LayoutConfig {
    pub title_panel_height_percent: u16,
    pub input_panel_height: u16,
    pub title_panel_position: PanelPosition,
}

/// The `[dmenu]` section: overrides for the dmenu mode.
pub struct DmenuConfig {
    pub delimiter: Option<String>,
    pub preview: Option<String>,
    pub password_character: Option<String>,
    pub show_line_numbers: Option<bool>,
    pub wrap_long_lines: Option<bool>,
    pub exit_if_empty: Option<bool>,
    pub disable_mouse: Option<bool>,
    pub hard_stop: Option<bool>,
    pub rounded_borders: Option<bool>,
    pub cursor: Option<String>,
    pub highlight_color: Option<String>,
    pub main_border_color: Option<String>,
    pub items_border_color: Option<String>,
    pub input_border_color: Option<String>,
    pub main_text_color: Option<String>,
    pub items_text_color: Option<String>,
    pub input_text_color: Option<String>,
    pub header_title_color: Option<String>,
    pub title_panel_height_percent: Option<u16>,
    pub input_panel_height: Option<u16>,
    pub title_panel_position: Option<PanelPosition>,
}

/// The `[cclip]` section: overrides for the clipboard mode.
pub struct CclipConfig {
    pub image_preview: Option<bool>,
    pub hide_inline_image_message: Option<bool>,
    pub show_tag_color_names: Option<bool>,
    pub show_line_numbers: Option<bool>,
    pub wrap_long_lines: Option<bool>,
    pub disable_mouse: Option<bool>,
    pub hard_stop: Option<bool>,
    pub rounded_borders: Option<bool>,
    pub cursor: Option<String>,
    pub highlight_color: Option<String>,
    pub main_border_color: Option<String>,
    pub items_border_color: Option<String>,
    pub input_border_color: Option<String>,
    pub main_text_color: Option<String>,
    pub items_text_color: Option<String>,
    pub input_text_color: Option<String>,
    pub header_title_color: Option<String>,
    pub title_panel_height_percent: Option<u16>,
    pub input_panel_height: Option<u16>,
    pub title_panel_position: Option<PanelPosition>,
}

/// The `[app_launcher]` section: overrides for the launcher.
pub struct AppLauncherConfig {
    pub filter_desktop: Option<bool>,
    pub filter_actions: Option<bool>,
    pub auto_hide_duplicates: Option<bool>,
    pub list_executables_in_path: Option<bool>,
    pub hide_before_typing: Option<bool>,
    pub launch_prefix: Option<Vec<String>>,
    pub match_mode: Option<MatchMode>,
    pub ranking_mode: Option<RankingMode>,
    pub pinned_order: Option<PinnedOrderMode>,
    pub confirm_first_launch: Option<bool>,
    pub prefix_depth: Option<usize>,
    pub icon_mode: Option<DesktopIconMode>,
    pub icon_position: Option<HorizontalPosition>,
    pub icon_preview_width_percent: Option<u16>,
    pub icon_list_width: Option<u16>,
    pub icon_list_height: Option<u16>,
    pub icon_list_gap: Option<u16>,
    pub icon_list_vertical_align_percent: Option<i16>,
    pub icon_arrow_before: Option<bool>,
    pub icon_size: Option<u16>,
    pub icon_horizontal_align_percent: Option<u16>,
    pub icon_vertical_align_percent: Option<u16>,
    pub icon_theme: Option<String>,
}

/// The whole configuration.
pub struct FselConfig {
    pub general: GeneralConfig,
    pub ui: UiConfig,
    pub layout: LayoutConfig,
    pub panels: PanelsConfig,
    pub dmenu: DmenuConfig,
    pub cclip: CclipConfig,
    pub app_launcher: AppLauncherConfig,
}

/// `c` holds the defaults of [`GeneralConfig`].
pub open spec fn general_defaults(c: GeneralConfig) -> bool {
    &&& c.terminal_launcher@ == "alacritty -e"@
    &&& c.filter_desktop == true
    &&& c.list_executables_in_path == false
    &&& c.hide_before_typing == false
    &&& c.match_mode == MatchMode::Fuzzy
    &&& c.ranking_mode == RankingMode::Frecency
    &&& c.pinned_order == PinnedOrderMode::Ranking
    &&& c.systemd_run == false
    &&& c.uwsm == false
    &&& c.detach == false
    &&& c.no_exec == false
    &&& c.confirm_first_launch == false
    &&& c.prefix_depth == 3
}

impl Default for GeneralConfig {
    fn default() -> (c: GeneralConfig)
        ensures
            general_defaults(c),
    {
        GeneralConfig {
            terminal_launcher: String::from_str("alacritty -e"),
            filter_desktop: true,
            list_executables_in_path: false,
            hide_before_typing: false,
            match_mode: MatchMode::Fuzzy,
            ranking_mode: RankingMode::Frecency,
            pinned_order: PinnedOrderMode::Ranking,
            systemd_run: false,
            uwsm: false,
            detach: false,
            no_exec: false,
            confirm_first_launch: false,
            prefix_depth: 3,
        }
    }
}

/// `c` holds the defaults of [`UiConfig`].
pub open spec fn ui_defaults(c: UiConfig) -> bool {
    &&& c.pinned_text_color is None
    &&& c.pinned_background_color is None
    &&& c.pinned_highlight_color is None
    &&& c.pinned_selection_background_color is None
    &&& c.highlight_color@ == "LightBlue"@
    &&& c.cursor@ == "█"@
    &&& c.hard_stop == false
    &&& c.rounded_borders == true
    &&& c.show_main_border == true
    &&& c.show_items_border == true
    &&& c.show_input_border == true
    &&& c.show_panel_titles == true
    &&& c.show_input_count == true
    &&& c.show_input_prompt == true
    &&& c.show_selection_marker == true
    &&& c.selection_marker@ == ">"@
    &&& c.show_pin_icons == true
    &&& c.input_panel_style == InputPanelStyle::Classic
    &&& c.disable_mouse == false
    &&& c.main_border_color@ == "White"@
    &&& c.main_background_color@ == "Reset"@
    &&& c.items_border_color@ == "White"@
    &&& c.items_background_color@ == "Reset"@
    &&& c.items_selection_background_color@ == "Reset"@
    &&& c.items_selection_rounded == false
    &&& c.input_border_color@ == "White"@
    &&& c.input_background_color@ == "Reset"@
    &&& c.main_text_color@ == "White"@
    &&& c.items_text_color@ == "White"@
    &&& c.input_text_color@ == "White"@
    &&& c.fancy_mode == false
    &&& c.header_title_color@ == "White"@
    &&& c.pin_color@ == "rgb(255, 165, 0)"@
    &&& c.pin_icon@ == "📌"@
}

impl Default for UiConfig {
    fn default() -> (c: UiConfig)
        ensures
            ui_defaults(c),
    {
        UiConfig {
            pinned_text_color: None,
            pinned_background_color: None,
            pinned_highlight_color: None,
            pinned_selection_background_color: None,
            highlight_color: String::from_str("LightBlue"),
            cursor: String::from_str("█"),
            hard_stop: false,
            rounded_borders: true,
            show_main_border: true,
            show_items_border: true,
            show_input_border: true,
            show_panel_titles: true,
            show_input_count: true,
            show_input_prompt: true,
            show_selection_marker: true,
            selection_marker: String::from_str(">"),
            show_pin_icons: true,
            input_panel_style: InputPanelStyle::Classic,
            disable_mouse: false,
            main_border_color: String::from_str("White"),
            main_background_color: String::from_str("Reset"),
            items_border_color: String::from_str("White"),
            items_background_color: String::from_str("Reset"),
            items_selection_background_color: String::from_str("Reset"),
            items_selection_rounded: false,
            input_border_color: String::from_str("White"),
            input_background_color: String::from_str("Reset"),
            main_text_color: String::from_str("White"),
            items_text_color: String::from_str("White"),
            input_text_color: String::from_str("White"),
            fancy_mode: false,
            header_title_color: String::from_str("White"),
            pin_color: String::from_str("rgb(255, 165, 0)"),
            pin_icon: String::from_str("📌"),
        }
    }
}

/// `c` holds the defaults of [`PanelsConfig`].
pub open spec fn panels_defaults(c: PanelsConfig) -> bool {
    &&& c.info_position is None
    &&& c.input_position is None
    &&& c.info_size is None
    &&& c.input_size is None
    &&& c.rotation == 0
    &&& c.item_width == 0
}

impl Default for PanelsConfig {
    fn default() -> (c: PanelsConfig)
        ensures
            panels_defaults(c),
    {
        PanelsConfig {
            info_position: None,
            input_position: None,
            info_size: None,
            input_size: None,
            rotation: 0,
            item_width: 0,
        }
    }
}

/// `c` holds the defaults of [`LayoutConfig`].
pub open spec fn layout_defaults(c: LayoutConfig) -> bool {
    &&& c.title_panel_height_percent == 30
    &&& c.input_panel_height == 3
    &&& c.title_panel_position == PanelPosition::Top
}

impl Default for LayoutConfig {
    fn default() -> (c: LayoutConfig)
        ensures
            layout_defaults(c),
    {
        LayoutConfig {
            title_panel_height_percent: 30,
            input_panel_height: 3,
            title_panel_position: PanelPosition::Top,
        }
    }
}

/// `c` holds the defaults of [`DmenuConfig`].
pub open spec fn dmenu_defaults(c: DmenuConfig) -> bool {
    &&& c.delimiter is None
    &&& c.preview is None
    &&& c.password_character is None
    &&& c.show_line_numbers is None
    &&& c.wrap_long_lines is None
    &&& c.exit_if_empty is None
    &&& c.disable_mouse is None
    &&& c.hard_stop is None
    &&& c.rounded_borders is None
    &&& c.cursor is None
    &&& c.highlight_color is None
    &&& c.main_border_color is None
    &&& c.items_border_color is None
    &&& c.input_border_color is None
    &&& c.main_text_color is None
    &&& c.items_text_color is None
    &&& c.input_text_color is None
    &&& c.header_title_color is None
    &&& c.title_panel_height_percent is None
    &&& c.input_panel_height is None
    &&& c.title_panel_position is None
}

impl Default for DmenuConfig {
    fn default() -> (c: DmenuConfig)
        ensures
            dmenu_defaults(c),
    {
        DmenuConfig {
            delimiter: None,
            preview: None,
            password_character: None,
            show_line_numbers: None,
            wrap_long_lines: None,
            exit_if_empty: None,
            disable_mouse: None,
            hard_stop: None,
            rounded_borders: None,
            cursor: None,
            highlight_color: None,
            main_border_color: None,
            items_border_color: None,
            input_border_color: None,
            main_text_color: None,
            items_text_color: None,
            input_text_color: None,
            header_title_color: None,
            title_panel_height_percent: None,
            input_panel_height: None,
            title_panel_position: None,
        }
    }
}

/// `c` holds the defaults of [`CclipConfig`].
pub open spec fn cclip_defaults(c: CclipConfig) -> bool {
    &&& c.image_preview is None
    &&& c.hide_inline_image_message is None
    &&& c.show_tag_color_names is None
    &&& c.show_line_numbers is None
    &&& c.wrap_long_lines is None
    &&& c.disable_mouse is None
    &&& c.hard_stop is None
    &&& c.rounded_borders is None
    &&& c.cursor is None
    &&& c.highlight_color is None
    &&& c.main_border_color is None
    &&& c.items_border_color is None
    &&& c.input_border_color is None
    &&& c.main_text_color is None
    &&& c.items_text_color is None
    &&& c.input_text_color is None
    &&& c.header_title_color is None
    &&& c.title_panel_height_percent is None
    &&& c.input_panel_height is None
    &&& c.title_panel_position is None
}

impl Default for CclipConfig {
    fn default() -> (c: CclipConfig)
        ensures
            cclip_defaults(c),
    {
        CclipConfig {
            image_preview: None,
            hide_inline_image_message: None,
            show_tag_color_names: None,
            show_line_numbers: None,
            wrap_long_lines: None,
            disable_mouse: None,
            hard_stop: None,
            rounded_borders: None,
            cursor: None,
            highlight_color: None,
            main_border_color: None,
            items_border_color: None,
            input_border_color: None,
            main_text_color: None,
            items_text_color: None,
            input_text_color: None,
            header_title_color: None,
            title_panel_height_percent: None,
            input_panel_height: None,
            title_panel_position: None,
        }
    }
}

/// `c` holds the defaults of [`AppLauncherConfig`].
pub open spec fn app_launcher_defaults(c: AppLauncherConfig) -> bool {
    &&& c.filter_desktop is None
    &&& c.filter_actions is None
    &&& c.auto_hide_duplicates is None
    &&& c.list_executables_in_path is None
    &&& c.hide_before_typing is None
    &&& c.launch_prefix is None
    &&& c.match_mode is None
    &&& c.ranking_mode is None
    &&& c.pinned_order is None
    &&& c.confirm_first_launch is None
    &&& c.prefix_depth is None
    &&& c.icon_mode is None
    &&& c.icon_position is None
    &&& c.icon_preview_width_percent is None
    &&& c.icon_list_width is None
    &&& c.icon_list_height is None
    &&& c.icon_list_gap is None
    &&& c.icon_list_vertical_align_percent is None
    &&& c.icon_arrow_before is None
    &&& c.icon_size is None
    &&& c.icon_horizontal_align_percent is None
    &&& c.icon_vertical_align_percent is None
    &&& c.icon_theme is None
}

impl Default for AppLauncherConfig {
    fn default() -> (c: AppLauncherConfig)
        ensures
            app_launcher_defaults(c),
    {
        AppLauncherConfig {
            filter_desktop: None,
            filter_actions: None,
            auto_hide_duplicates: None,
            list_executables_in_path: None,
            hide_before_typing: None,
            launch_prefix: None,
            match_mode: None,
            ranking_mode: None,
            pinned_order: None,
            confirm_first_launch: None,
            prefix_depth: None,
            icon_mode: None,
            icon_position: None,
            icon_preview_width_percent: None,
            icon_list_width: None,
            icon_list_height: None,
            icon_list_gap: None,
            icon_list_vertical_align_percent: None,
            icon_arrow_before: None,
            icon_size: None,
            icon_horizontal_align_percent: None,
            icon_vertical_align_percent: None,
            icon_theme: None,
        }
    }
}

/// `c` holds the defaults in every section.
pub open spec fn config_defaults(c: FselConfig) -> bool {
    &&& general_defaults(c.general)
    &&& ui_defaults(c.ui)
    &&& layout_defaults(c.layout)
    &&& panels_defaults(c.panels)
    &&& dmenu_defaults(c.dmenu)
    &&& cclip_defaults(c.cclip)
    &&& app_launcher_defaults(c.app_launcher)
}

impl Default for FselConfig {
    fn default() -> (c: FselConfig)
        ensures
            config_defaults(c),
    {
        FselConfig {
            general: GeneralConfig::default(),
            ui: UiConfig::default(),
            layout: LayoutConfig::default(),
            panels: PanelsConfig::default(),
            dmenu: DmenuConfig::default(),
            cclip: CclipConfig::default(),
            app_launcher: AppLauncherConfig::default(),
        }
    }
}

} // verus!
