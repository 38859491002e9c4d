//! The options of one run, with their defaults and the launch-method
//! switches.
use crate::cli::enums::{DesktopIconMode, HorizontalPosition, MatchMode, PinnedOrderMode, RankingMode};
use crate::config::schema::PanelsConfig;
use crate::dmenu::panels::DmenuPanel;
use vstd::prelude::*;

verus! {

/// Everything a run is told by its configuration and command line.
pub struct Opts {
    /// Launch this application at once, without the interface.
    pub program: Option<String>,
    /// Text to start the search with (`-ss`).
    pub search_string: Option<String>,
    pub terminal_launcher: String,
    pub tty: bool,
    pub replace: bool,
    pub clear_history: bool,
    pub clear_cache: bool,
    pub refresh_cache: bool,
    pub list_hidden: bool,
    pub unhide: Option<u64>,
    pub unhide_all: bool,
    pub no_exec: bool,
    pub stdout: bool,
    pub launch_prefix: Option<Vec<String>>,
    pub systemd_run: bool,
    pub uwsm: bool,
    pub detach: bool,
    pub verbose: Option<u64>,
    pub test_mode: bool,
    pub match_mode: MatchMode,
    pub ranking_mode: RankingMode,
    pub pinned_order: PinnedOrderMode,
    pub prefix_depth: usize,
    pub filter_desktop: bool,
    pub filter_actions: bool,
    pub auto_hide_duplicates: bool,
    pub list_executables_in_path: bool,
    pub hide_before_typing: bool,
    pub confirm_first_launch: bool,
    pub desktop_icon_mode: DesktopIconMode,
    pub desktop_icon_position: HorizontalPosition,
    pub desktop_icon_preview_width_percent: u16,
    pub desktop_icon_list_width: u16,
    pub desktop_icon_list_height: u16,
    pub desktop_icon_list_gap: u16,
    pub desktop_icon_list_vertical_align_percent: i16,
    pub desktop_icon_arrow_before: bool,
    pub desktop_icon_size: u16,
    pub desktop_icon_horizontal_align_percent: u16,
    pub desktop_icon_vertical_align_percent: u16,
    pub desktop_icon_theme: Option<String>,
    pub dmenu_mode: bool,
    pub dmenu_null_separated: bool,
    pub dmenu_preview: Option<String>,
    pub dmenu_password_mode: bool,
    pub dmenu_password_character: String,
    pub dmenu_index_mode: bool,
    pub dmenu_index_original_mode: bool,
    pub dmenu_accept_nth: Option<Vec<usize>>,
    pub dmenu_match_nth: Option<Vec<usize>>,
    pub dmenu_with_nth: Option<Vec<usize>>,
    pub dmenu_only_match: bool,
    pub dmenu_exit_if_empty: bool,
    pub dmenu_select: Option<String>,
    pub dmenu_select_index: Option<usize>,
    pub dmenu_auto_select: bool,
    pub dmenu_prompt_only: bool,
    pub dmenu_delimiter: String,
    pub dmenu_show_line_numbers: bool,
    pub dmenu_panel_edit: bool,
    pub dmenu_panels: Vec<DmenuPanel>,
    pub panels: PanelsConfig,
    pub cclip_mode: bool,
    pub cclip_tag: Option<String>,
    pub cclip_tag_list: bool,
    pub cclip_clear_tags: bool,
    pub cclip_wipe_tags: bool,
    pub cclip_show_tag_color_names: Option<bool>,
}

/// `o` holds the defaults of a run without configuration or arguments.
pub open spec fn opts_defaults(o: Opts) -> bool {
    &&& o.program is None
    &&& o.search_string is None
    &&& o.terminal_launcher@ == "alacritty -e"@
    &&& !o.tty && !o.replace && !o.clear_history && !o.clear_cache && !o.refresh_cache
    &&& !o.list_hidden && o.unhide is None && !o.unhide_all
    &&& !o.no_exec && !o.stdout
    &&& o.launch_prefix is None && !o.systemd_run && !o.uwsm
    &&& !o.detach && o.verbose is None && !o.test_mode
    &&& o.match_mode == MatchMode::Fuzzy
    &&& o.ranking_mode == RankingMode::Frecency
    &&& o.pinned_order == PinnedOrderMode::Ranking
    &&& o.prefix_depth == 3
    &&& o.filter_desktop && !o.filter_actions && !o.auto_hide_duplicates
    &&& !o.list_executables_in_path && !o.hide_before_typing && !o.confirm_first_launch
    &&& o.desktop_icon_mode == DesktopIconMode::Preview
    &&& o.desktop_icon_position == HorizontalPosition::Left
    &&& o.desktop_icon_preview_width_percent == 40
    &&& o.desktop_icon_list_width == 2
    &&& o.desktop_icon_list_height == 1
    &&& o.desktop_icon_list_gap == 1
    &&& o.desktop_icon_list_vertical_align_percent == 0
    &&& !o.desktop_icon_arrow_before
    &&& o.desktop_icon_size == 256
    &&& o.desktop_icon_horizontal_align_percent == 50
    &&& o.desktop_icon_vertical_align_percent == 50
    &&& o.desktop_icon_theme is None
    &&& !o.dmenu_mode && !o.dmenu_null_separated && o.dmenu_preview is None
    &&& !o.dmenu_password_mode && o.dmenu_password_character@ == "*"@
    &&& !o.dmenu_index_mode && !o.dmenu_index_original_mode
    &&& o.dmenu_accept_nth is None && o.dmenu_match_nth is None && o.dmenu_with_nth is None
    &&& !o.dmenu_only_match && !o.dmenu_exit_if_empty
    &&& o.dmenu_select is None && o.dmenu_select_index is None
    &&& !o.dmenu_auto_select && !o.dmenu_prompt_only
    &&& o.dmenu_delimiter@ == " "@
    &&& !o.dmenu_show_line_numbers && !o.dmenu_panel_edit
    &&& o.dmenu_panels@.len() == 0
    &&& crate::config::schema::panels_defaults(o.panels)
    &&& !o.cclip_mode && o.cclip_tag is None && !o.cclip_tag_list
    &&& !o.cclip_clear_tags && !o.cclip_wipe_tags && o.cclip_show_tag_color_names is None
}

impl Default for Opts {
    fn default() -> (o: Opts)
        ensures
            opts_defaults(o),
    {
        Opts {
            program: None,
            search_string: None,
            terminal_launcher: String::from_str("alacritty -e"),
            tty: false,
            replace: false,
            clear_history: false,
            clear_cache: false,
            refresh_cache: false,
            list_hidden: false,
            unhide: None,
            unhide_all: false,
            no_exec: false,
            stdout: false,
            launch_prefix: None,
            systemd_run: false,
            uwsm: false,
            detach: false,
            verbose: None,
            test_mode: false,
            match_mode: MatchMode::Fuzzy,
            ranking_mode: RankingMode::Frecency,
            pinned_order: PinnedOrderMode::Ranking,
            prefix_depth: 3,
            filter_desktop: true,
            filter_actions: false,
            auto_hide_duplicates: false,
            list_executables_in_path: false,
            hide_before_typing: false,
            confirm_first_launch: false,
            desktop_icon_mode: DesktopIconMode::Preview,
            desktop_icon_position: HorizontalPosition::Left,
            desktop_icon_preview_width_percent: 40,
            desktop_icon_list_width: 2,
            desktop_icon_list_height: 1,
            desktop_icon_list_gap: 1,
            desktop_icon_list_vertical_align_percent: 0,
            desktop_icon_arrow_before: false,
            desktop_icon_size: 256,
            desktop_icon_horizontal_align_percent: 50,
            desktop_icon_vertical_align_percent: 50,
            desktop_icon_theme: None,
            dmenu_mode: false,
            dmenu_null_separated: false,
            dmenu_preview: None,
            dmenu_password_mode: false,
            dmenu_password_character: String::from_str("*"),
            dmenu_index_mode: false,
            dmenu_index_original_mode: false,
            dmenu_accept_nth: None,
            dmenu_match_nth: None,
            dmenu_with_nth: None,
            dmenu_only_match: false,
            dmenu_exit_if_empty: false,
            dmenu_select: None,
            dmenu_select_index: None,
            dmenu_auto_select: false,
            dmenu_prompt_only: false,
            dmenu_delimiter: String::from_str(" "),
            dmenu_show_line_numbers: false,
            dmenu_panel_edit: false,
            dmenu_panels: Vec::new(),
            panels: PanelsConfig::default(),
            cclip_mode: false,
            cclip_tag: None,
            cclip_tag_list: false,
            cclip_clear_tags: false,
            cclip_wipe_tags: false,
            cclip_show_tag_color_names: None,
        }
    }
}

/// How many launch methods are enabled.
pub open spec fn launch_method_count(o: Opts) -> int {
    (if o.launch_prefix is Some {
        1int
    } else {
        0
    }) + (if o.systemd_run {
        1int
    } else {
        0
    }) + (if o.uwsm {
        1int
    } else {
        0
    })
}

/// How many launch methods are enabled.
pub fn active_launch_method_count(o: &Opts) -> (n: usize)
    ensures
        n == launch_method_count(*o),
{
    let mut n: usize = 0;
    if o.launch_prefix.is_some() {
        n += 1;
    }
    if o.systemd_run {
        n += 1;
    }
    if o.uwsm {
        n += 1;
    }
    n
}

/// Launches through the command `prefix`; this replaces any other method.
pub fn set_launch_prefix(o: &mut Opts, prefix: Vec<String>)
    ensures
        *final(o) == (Opts { launch_prefix: Some(prefix), systemd_run: false, uwsm: false, ..*old(o) }),
{
    o.launch_prefix = Some(prefix);
    o.systemd_run = false;
    o.uwsm = false;
}

/// Launches through `systemd-run`; this replaces any other method.
pub fn set_systemd_run(o: &mut Opts)
    ensures
        *final(o) == (Opts { launch_prefix: None, systemd_run: true, uwsm: false, ..*old(o) }),
{
    o.launch_prefix = None;
    o.systemd_run = true;
    o.uwsm = false;
}

/// Launches through `uwsm`; this replaces any other method.
pub fn set_uwsm(o: &mut Opts)
    ensures
        *final(o) == (Opts { launch_prefix: None, systemd_run: false, uwsm: true, ..*old(o) }),
{
    o.launch_prefix = None;
    o.systemd_run = false;
    o.uwsm = true;
}

} // verus!
