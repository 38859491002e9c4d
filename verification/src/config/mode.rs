//! The look and behaviour of each picker: the shared settings, with the
//! settings of its own section laid over them. The clipboard picker also
//! takes what the `[dmenu]` section sets and its own section does not.
use crate::cli::enums::PanelPosition;
use crate::config::schema::{CclipConfig, DmenuConfig, FselConfig};
use vstd::prelude::*;

verus! {

/// The settings that a mode's section may set in place of the shared ones.
pub struct ModeOverrides {
    pub disable_mouse: Option<bool>,
    pub hard_stop: Option<bool>,
    pub rounded_borders: Option<bool>,
    pub cursor: Option<String>,
    pub highlight_color: Option<String>,
    pub main_border_color: Option<String>,
    pub items_border_color: Option<String>,
    pub input_border_color: Option<String>,
    pub main_text_color: Option<String>,
    pub items_text_color: Option<String>,
    pub input_text_color: Option<String>,
    pub header_title_color: Option<String>,
    pub title_panel_height_percent: Option<u16>,
    pub input_panel_height: Option<u16>,
    pub title_panel_position: Option<PanelPosition>,
}

/// The settings that a picker runs with.
pub struct ModeAppearance {
    pub disable_mouse: bool,
    pub hard_stop: bool,
    pub rounded_borders: bool,
    pub cursor: String,
    pub highlight_color: String,
    pub main_border_color: String,
    pub items_border_color: String,
    pub input_border_color: String,
    pub main_text_color: String,
    pub items_text_color: String,
    pub input_text_color: String,
    pub header_title_color: String,
    pub content_panel_height_percent: u16,
    pub input_panel_height: u16,
    pub content_panel_position: PanelPosition,
}

/// The value set, else `shared`.
pub open spec fn or_shared<T>(set: Option<T>, shared: T) -> T {
    match set {
        Some(v) => v,
        None => shared,
    }
}

/// The first of two settings that is set.
pub open spec fn first_set<T>(a: Option<T>, b: Option<T>) -> Option<T> {
    match a {
        Some(v) => Some(v),
        None => b,
    }
}

/// The settings that the `[dmenu]` section sets.
pub open spec fn dmenu_overrides_of(d: DmenuConfig) -> ModeOverrides {
    ModeOverrides {
        disable_mouse: d.disable_mouse,
        hard_stop: d.hard_stop,
        rounded_borders: d.rounded_borders,
        cursor: d.cursor,
        highlight_color: d.highlight_color,
        main_border_color: d.main_border_color,
        items_border_color: d.items_border_color,
        input_border_color: d.input_border_color,
        main_text_color: d.main_text_color,
        items_text_color: d.items_text_color,
        input_text_color: d.input_text_color,
        header_title_color: d.header_title_color,
        title_panel_height_percent: d.title_panel_height_percent,
        input_panel_height: d.input_panel_height,
        title_panel_position: d.title_panel_position,
    }
}

/// The settings of the clipboard picker's sections: each as the `[cclip]`
/// section sets it, else as the `[dmenu]` section does.
pub open spec fn cclip_overrides_of(c: CclipConfig, d: DmenuConfig) -> ModeOverrides {
    ModeOverrides {
        disable_mouse: first_set(c.disable_mouse, d.disable_mouse),
        hard_stop: first_set(c.hard_stop, d.hard_stop),
        rounded_borders: first_set(c.rounded_borders, d.rounded_borders),
        cursor: first_set(c.cursor, d.cursor),
        highlight_color: first_set(c.highlight_color, d.highlight_color),
        main_border_color: first_set(c.main_border_color, d.main_border_color),
        items_border_color: first_set(c.items_border_color, d.items_border_color),
        input_border_color: first_set(c.input_border_color, d.input_border_color),
        main_text_color: first_set(c.main_text_color, d.main_text_color),
        items_text_color: first_set(c.items_text_color, d.items_text_color),
        input_text_color: first_set(c.input_text_color, d.input_text_color),
        header_title_color: first_set(c.header_title_color, d.header_title_color),
        title_panel_height_percent: first_set(
            c.title_panel_height_percent,
            d.title_panel_height_percent,
        ),
        input_panel_height: first_set(c.input_panel_height, d.input_panel_height),
        title_panel_position: first_set(c.title_panel_position, d.title_panel_position),
    }
}

/// No setting of a mode's own.
pub open spec fn no_overrides() -> ModeOverrides {
    ModeOverrides {
        disable_mouse: None,
        hard_stop: None,
        rounded_borders: None,
        cursor: None,
        highlight_color: None,
        main_border_color: None,
        items_border_color: None,
        input_border_color: None,
        main_text_color: None,
        items_text_color: None,
        input_text_color: None,
        header_title_color: None,
        title_panel_height_percent: None,
        input_panel_height: None,
        title_panel_position: None,
    }
}

/// The settings that result from laying `o` over the shared settings of
/// `c`.
pub open spec fn appearance_of(o: ModeOverrides, c: FselConfig) -> ModeAppearance {
    ModeAppearance {
        disable_mouse: or_shared(o.disable_mouse, c.ui.disable_mouse),
        hard_stop: or_shared(o.hard_stop, c.ui.hard_stop),
        rounded_borders: or_shared(o.rounded_borders, c.ui.rounded_borders),
        cursor: or_shared(o.cursor, c.ui.cursor),
        highlight_color: or_shared(o.highlight_color, c.ui.highlight_color),
        main_border_color: or_shared(o.main_border_color, c.ui.main_border_color),
        items_border_color: or_shared(o.items_border_color, c.ui.items_border_color),
        input_border_color: or_shared(o.input_border_color, c.ui.input_border_color),
        main_text_color: or_shared(o.main_text_color, c.ui.main_text_color),
        items_text_color: or_shared(o.items_text_color, c.ui.items_text_color),
        input_text_color: or_shared(o.input_text_color, c.ui.input_text_color),
        header_title_color: or_shared(o.header_title_color, c.ui.header_title_color),
        content_panel_height_percent: or_shared(
            o.title_panel_height_percent,
            c.layout.title_panel_height_percent,
        ),
        input_panel_height: or_shared(o.input_panel_height, c.layout.input_panel_height),
        content_panel_position: or_shared(o.title_panel_position, c.layout.title_panel_position),
    }
}

fn pick_flag(set: Option<bool>, shared: bool) -> (r: bool)
    ensures
        r == or_shared(set, shared),
{
    match set {
        Some(v) => v,
        None => shared,
    }
}

fn pick_number(set: Option<u16>, shared: u16) -> (r: u16)
    ensures
        r == or_shared(set, shared),
{
    match set {
        Some(v) => v,
        None => shared,
    }
}

fn pick_text(set: &Option<String>, shared: &String) -> (r: String)
    ensures
        r == or_shared(*set, *shared),
{
    match set {
        Some(v) => v.clone(),
        None => shared.clone(),
    }
}

fn first_text(a: &Option<String>, b: &Option<String>) -> (r: Option<String>)
    ensures
        r == first_set(*a, *b),
{
    match a {
        Some(v) => Some(v.clone()),
        None => match b {
            Some(v) => Some(v.clone()),
            None => None,
        },
    }
}

fn first_flag(a: Option<bool>, b: Option<bool>) -> (r: Option<bool>)
    ensures
        r == first_set(a, b),
{
    match a {
        Some(v) => Some(v),
        None => b,
    }
}

fn first_number(a: Option<u16>, b: Option<u16>) -> (r: Option<u16>)
    ensures
        r == first_set(a, b),
{
    match a {
        Some(v) => Some(v),
        None => b,
    }
}

fn first_position(a: Option<PanelPosition>, b: Option<PanelPosition>) -> (r: Option<PanelPosition>)
    ensures
        r == first_set(a, b),
{
    match a {
        Some(v) => Some(v),
        None => b,
    }
}

fn text_copy(a: &Option<String>) -> (r: Option<String>)
    ensures
        r == *a,
{
    match a {
        Some(v) => Some(v.clone()),
        None => None,
    }
}

/// The settings of the clipboard picker's sections (see
/// [`cclip_overrides_of`]).
pub fn cclip_overrides(c: &CclipConfig, d: &DmenuConfig) -> (o: ModeOverrides)
    ensures
        o == cclip_overrides_of(*c, *d),
{
    ModeOverrides {
        disable_mouse: first_flag(c.disable_mouse, d.disable_mouse),
        hard_stop: first_flag(c.hard_stop, d.hard_stop),
        rounded_borders: first_flag(c.rounded_borders, d.rounded_borders),
        cursor: first_text(&c.cursor, &d.cursor),
        highlight_color: first_text(&c.highlight_color, &d.highlight_color),
        main_border_color: first_text(&c.main_border_color, &d.main_border_color),
        items_border_color: first_text(&c.items_border_color, &d.items_border_color),
        input_border_color: first_text(&c.input_border_color, &d.input_border_color),
        main_text_color: first_text(&c.main_text_color, &d.main_text_color),
        items_text_color: first_text(&c.items_text_color, &d.items_text_color),
        input_text_color: first_text(&c.input_text_color, &d.input_text_color),
        header_title_color: first_text(&c.header_title_color, &d.header_title_color),
        title_panel_height_percent: first_number(
            c.title_panel_height_percent,
            d.title_panel_height_percent,
        ),
        input_panel_height: first_number(c.input_panel_height, d.input_panel_height),
        title_panel_position: first_position(c.title_panel_position, d.title_panel_position),
    }
}

/// The settings that the `[dmenu]` section sets.
pub fn dmenu_overrides(d: &DmenuConfig) -> (o: ModeOverrides)
    ensures
        o == dmenu_overrides_of(*d),
{
    ModeOverrides {
        disable_mouse: d.disable_mouse,
        hard_stop: d.hard_stop,
        rounded_borders: d.rounded_borders,
        cursor: text_copy(&d.cursor),
        highlight_color: text_copy(&d.highlight_color),
        main_border_color: text_copy(&d.main_border_color),
        items_border_color: text_copy(&d.items_border_color),
        input_border_color: text_copy(&d.input_border_color),
        main_text_color: text_copy(&d.main_text_color),
        items_text_color: text_copy(&d.items_text_color),
        input_text_color: text_copy(&d.input_text_color),
        header_title_color: text_copy(&d.header_title_color),
        title_panel_height_percent: d.title_panel_height_percent,
        input_panel_height: d.input_panel_height,
        title_panel_position: d.title_panel_position,
    }
}

/// No setting of a mode's own: the launcher uses the shared settings.
pub fn no_mode_overrides() -> (o: ModeOverrides)
    ensures
        o == no_overrides(),
{
    ModeOverrides {
        disable_mouse: None,
        hard_stop: None,
        rounded_borders: None,
        cursor: None,
        highlight_color: None,
        main_border_color: None,
        items_border_color: None,
        input_border_color: None,
        main_text_color: None,
        items_text_color: None,
        input_text_color: None,
        header_title_color: None,
        title_panel_height_percent: None,
        input_panel_height: None,
        title_panel_position: None,
    }
}

/// The settings that result from laying `o` over the shared settings of
/// `config` (see [`appearance_of`]).
pub fn appearance(o: &ModeOverrides, config: &FselConfig) -> (a: ModeAppearance)
    ensures
        a == appearance_of(*o, *config),
{
    ModeAppearance {
        disable_mouse: pick_flag(o.disable_mouse, config.ui.disable_mouse),
        hard_stop: pick_flag(o.hard_stop, config.ui.hard_stop),
        rounded_borders: pick_flag(o.rounded_borders, config.ui.rounded_borders),
        cursor: pick_text(&o.cursor, &config.ui.cursor),
        highlight_color: pick_text(&o.highlight_color, &config.ui.highlight_color),
        main_border_color: pick_text(&o.main_border_color, &config.ui.main_border_color),
        items_border_color: pick_text(&o.items_border_color, &config.ui.items_border_color),
        input_border_color: pick_text(&o.input_border_color, &config.ui.input_border_color),
        main_text_color: pick_text(&o.main_text_color, &config.ui.main_text_color),
        items_text_color: pick_text(&o.items_text_color, &config.ui.items_text_color),
        input_text_color: pick_text(&o.input_text_color, &config.ui.input_text_color),
        header_title_color: pick_text(&o.header_title_color, &config.ui.header_title_color),
        content_panel_height_percent: pick_number(
            o.title_panel_height_percent,
            config.layout.title_panel_height_percent,
        ),
        input_panel_height: pick_number(o.input_panel_height, config.layout.input_panel_height),
        content_panel_position: match o.title_panel_position {
            Some(p) => p,
            None => config.layout.title_panel_position,
        },
    }
}

/// The settings of the dmenu picker.
pub fn dmenu_appearance(config: &FselConfig) -> (a: ModeAppearance)
    ensures
        a == appearance_of(dmenu_overrides_of(config.dmenu), *config),
{
    appearance(&dmenu_overrides(&config.dmenu), config)
}

/// The settings of the clipboard picker.
pub fn cclip_appearance(config: &FselConfig) -> (a: ModeAppearance)
    ensures
        a == appearance_of(cclip_overrides_of(config.cclip, config.dmenu), *config),
{
    appearance(&cclip_overrides(&config.cclip, &config.dmenu), config)
}

/// The settings of the launcher: the shared ones.
pub fn launcher_appearance(config: &FselConfig) -> (a: ModeAppearance)
    ensures
        a == appearance_of(no_overrides(), *config),
{
    appearance(&no_mode_overrides(), config)
}

/// The settings of the clipboard picker that the other pickers do not
/// have.
pub struct CclipSettings {
    /// Wrap long entries (on unless set off).
    pub wrap_long_lines: bool,
    /// Number the entries: as the `[cclip]` section says, else as the
    /// `[dmenu]` section says, else off.
    pub show_line_numbers: bool,
    /// Show the names of tag colours: as the command line says, else as the
    /// `[cclip]` section says, else off.
    pub show_tag_color_names: bool,
    /// Hide the message shown in place of an inline image (off unless set).
    pub hide_image_message: bool,
    /// Image previews as explicitly set on or off, if they were.
    pub image_preview: Option<bool>,
}

/// The clipboard picker's own settings from `config` and the command
/// line's `--cclip-show-tag-color-names` value.
pub open spec fn cclip_settings_of(config: FselConfig, cli_show_tag_color_names: Option<bool>) -> CclipSettings {
    CclipSettings {
        wrap_long_lines: or_shared(config.cclip.wrap_long_lines, true),
        show_line_numbers: or_shared(
            first_set(config.cclip.show_line_numbers, config.dmenu.show_line_numbers),
            false,
        ),
        show_tag_color_names: or_shared(
            first_set(cli_show_tag_color_names, config.cclip.show_tag_color_names),
            false,
        ),
        hide_image_message: or_shared(config.cclip.hide_inline_image_message, false),
        image_preview: config.cclip.image_preview,
    }
}

/// The clipboard picker's own settings (see [`cclip_settings_of`]).
pub fn cclip_settings(config: &FselConfig, cli_show_tag_color_names: Option<bool>) -> (s: CclipSettings)
    ensures
        s == cclip_settings_of(*config, cli_show_tag_color_names),
{
    CclipSettings {
        wrap_long_lines: pick_flag(config.cclip.wrap_long_lines, true),
        show_line_numbers: pick_flag(
            first_flag(config.cclip.show_line_numbers, config.dmenu.show_line_numbers),
            false,
        ),
        show_tag_color_names: pick_flag(
            first_flag(cli_show_tag_color_names, config.cclip.show_tag_color_names),
            false,
        ),
        hide_image_message: pick_flag(config.cclip.hide_inline_image_message, false),
        image_preview: config.cclip.image_preview,
    }
}

/// The `[cclip]` section sets none of the settings it shares with the
/// other pickers.
pub open spec fn cclip_silent(c: CclipConfig) -> bool {
    &&& c.disable_mouse is None
    &&& c.hard_stop is None
    &&& c.rounded_borders is None
    &&& c.cursor is None
    &&& c.highlight_color is None
    &&& c.main_border_color is None
    &&& c.items_border_color is None
    &&& c.input_border_color is None
    &&& c.main_text_color is None
    &&& c.items_text_color is None
    &&& c.input_text_color is None
    &&& c.header_title_color is None
    &&& c.title_panel_height_percent is None
    &&& c.input_panel_height is None
    &&& c.title_panel_position is None
}

/// Each picker inherits what its sections leave unset: the clipboard
/// picker looks like the dmenu picker when the `[cclip]` section is
/// silent, and the dmenu picker like the launcher when the `[dmenu]`
/// section is; a setting that a section does set wins.
pub proof fn lemma_modes_inherit_shared_settings(config: FselConfig)
    ensures
        cclip_silent(config.cclip) ==> appearance_of(
            cclip_overrides_of(config.cclip, config.dmenu),
            config,
        ) == appearance_of(dmenu_overrides_of(config.dmenu), config),
        dmenu_overrides_of(config.dmenu) == no_overrides() ==> appearance_of(
            dmenu_overrides_of(config.dmenu),
            config,
        ) == appearance_of(no_overrides(), config),
        config.cclip.hard_stop matches Some(h) ==> appearance_of(
            cclip_overrides_of(config.cclip, config.dmenu),
            config,
        ).hard_stop == h,
        config.dmenu.hard_stop matches Some(h) ==> appearance_of(
            dmenu_overrides_of(config.dmenu),
            config,
        ).hard_stop == h,
{
    if cclip_silent(config.cclip) {
        assert(cclip_overrides_of(config.cclip, config.dmenu) == dmenu_overrides_of(config.dmenu));
    }
}

} // verus!
