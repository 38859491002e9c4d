//! Environment variables that override the loaded configuration.
use crate::cli::enums::{
    desktop_icon_named, horizontal_position_named, input_panel_style_named, match_mode_named,
    panel_position_named, panel_side_named, pinned_order_named, ranking_mode_named,
    DesktopIconMode, HorizontalPosition, InputPanelStyle, MatchMode, PanelPosition, PanelSide,
    PinnedOrderMode, RankingMode
};
use crate::config::schema::{
    AppLauncherConfig, CclipConfig, DmenuConfig, FselConfig, GeneralConfig, LayoutConfig,
    PanelsConfig, UiConfig
};
use crate::config::ConfigError;
use crate::desktop::entry::opt_string_view;
use crate::text::{
    lowercase, parse_bool, parse_bool_spec, parse_signed, parse_signed_spec, parse_unsigned,
    parse_unsigned_spec, strings_view, trim
};
use vstd::prelude::*;

verus! {

pub const BOOLEAN_EXPECTED: &'static str = "true or false";

pub const INTEGER_EXPECTED: &'static str = "an unsigned integer";

pub const MATCH_MODE_EXPECTED: &'static str = "'fuzzy' or 'exact'";

pub const RANKING_MODE_EXPECTED: &'static str = "'frecency', 'recency', or 'frequency'";

pub const PINNED_ORDER_EXPECTED: &'static str =
    "'ranking', 'alphabetical', 'oldest', 'oldest_pinned', 'newest', or 'newest_pinned'";

pub const PANEL_POSITION_EXPECTED: &'static str = "'top', 'middle', or 'bottom'";

pub const HORIZONTAL_POSITION_EXPECTED: &'static str = "'left' or 'right'";

pub const DESKTOP_ICON_MODE_EXPECTED: &'static str = "'none', 'preview', 'list', or 'both'";

pub const PANEL_SIDE_EXPECTED: &'static str = "top, right, bottom, or left";

pub const INPUT_PANEL_STYLE_EXPECTED: &'static str = "classic or command";

pub const LAUNCH_PREFIX_EXPECTED: &'static str = "a shell-words command prefix";

/// Environment variables as `(name, value)` pairs of characters.
pub open spec fn env_view(vars: Seq<(String, String)>) -> Seq<(Seq<char>, Seq<char>)> {
    vars.map_values(|p: (String, String)| (p.0@, p.1@))
}

/// The value of the first variable named `key`.
pub open spec fn env_value(vars: Seq<(Seq<char>, Seq<char>)>, key: Seq<char>) -> Option<Seq<char>>
    decreases vars.len(),
{
    if vars.len() == 0 {
        None
    } else if vars[0].0 == key {
        Some(vars[0].1)
    } else {
        env_value(vars.drop_first(), key)
    }
}

/// The value of the variable `key`.
fn lookup(vars: &Vec<(String, String)>, key: &str) -> (r: Option<String>)
    ensures
        opt_string_view(r) == env_value(env_view(vars@), key@),
{
    let ghost vv = env_view(vars@);
    let k = crate::text::chars_of(key);
    let mut i: usize = 0;
    assert(vv.skip(0) =~= vv);
    while i < vars.len()
        invariant
            i <= vars@.len(),
            vv == env_view(vars@),
            k@ == key@,
            env_value(vv, key@) == env_value(vv.skip(i as int), key@),
        decreases vars@.len() - i,
    {
        assert(vv.skip(i as int)[0] == (vars@[i as int].0@, vars@[i as int].1@));
        assert(vv.skip(i as int).drop_first() =~= vv.skip(i + 1));
        let name = crate::text::chars_of(vars[i].0.as_str());
        if crate::text::chars_eq(&name, &k) {
            return Some(vars[i].1.clone());
        }
        i += 1;
    }
    assert(vv.skip(i as int) =~= Seq::<(Seq<char>, Seq<char>)>::empty());
    None
}

/// The words that `shell_words::split` makes of `s`, `None` when a quote
/// is left open.
pub uninterp spec fn shell_split(s: Seq<char>) -> Option<Seq<Seq<char>>>;

pub open spec fn opt_strings_view(o: Option<Vec<String>>) -> Option<Seq<Seq<char>>> {
    match o {
        Some(v) => Some(strings_view(v@)),
        None => None,
    }
}

/// `shell_words::split`: splits a command line into words as a POSIX shell
/// would, failing on an unterminated quote; the result is only named.
#[verifier::external_body]
pub(crate) fn split_shell_words(s: &str) -> (r: Option<Vec<String>>)
    ensures
        opt_strings_view(r) == shell_split(s@),
{
    shell_words::split(s).ok()
}

/// What a variable may hold.
#[derive(Clone, Copy, Debug, PartialEq, Eq, Structural)]
pub enum ValueKind {
    Boolean,
    /// A decimal integer no larger than the bound.
    Unsigned(u64),
    /// A decimal integer that fits in `i16`.
    Signed16,
    MatchModeName,
    RankingModeName,
    PinnedOrderName,
    DesktopIconName,
    HorizontalPositionName,
    PanelPositionName,
    PanelSideName,
    InputPanelStyleName,
    /// A command prefix in shell syntax.
    LaunchPrefix,
}

/// `v` is a value of kind `k`.
pub open spec fn kind_ok(k: ValueKind, v: Seq<char>) -> bool {
    match k {
        ValueKind::Boolean => parse_bool_spec(v) is Some,
        ValueKind::Unsigned(max) => parse_unsigned_spec(v, max as int) is Some,
        ValueKind::Signed16 => parse_signed_spec(v, -32768, 32767) is Some,
        ValueKind::MatchModeName => match_mode_named(lowercase(trim(v))) is Some,
        ValueKind::RankingModeName => ranking_mode_named(lowercase(trim(v))) is Some,
        ValueKind::PinnedOrderName => pinned_order_named(lowercase(trim(v))) is Some,
        ValueKind::DesktopIconName => desktop_icon_named(lowercase(trim(v))) is Some,
        ValueKind::HorizontalPositionName => horizontal_position_named(lowercase(trim(v))) is Some,
        ValueKind::PanelPositionName => panel_position_named(lowercase(trim(v))) is Some,
        ValueKind::PanelSideName => panel_side_named(lowercase(trim(v))) is Some,
        ValueKind::InputPanelStyleName => input_panel_style_named(lowercase(trim(v))) is Some,
        ValueKind::LaunchPrefix => shell_split(v) is Some,
    }
}

/// The description of the values of kind `k` given in error reports.
pub open spec fn expected_of(k: ValueKind) -> Seq<char> {
    match k {
        ValueKind::Boolean => BOOLEAN_EXPECTED@,
        ValueKind::Unsigned(_) => INTEGER_EXPECTED@,
        ValueKind::Signed16 => INTEGER_EXPECTED@,
        ValueKind::MatchModeName => MATCH_MODE_EXPECTED@,
        ValueKind::RankingModeName => RANKING_MODE_EXPECTED@,
        ValueKind::PinnedOrderName => PINNED_ORDER_EXPECTED@,
        ValueKind::DesktopIconName => DESKTOP_ICON_MODE_EXPECTED@,
        ValueKind::HorizontalPositionName => HORIZONTAL_POSITION_EXPECTED@,
        ValueKind::PanelPositionName => PANEL_POSITION_EXPECTED@,
        ValueKind::PanelSideName => PANEL_SIDE_EXPECTED@,
        ValueKind::InputPanelStyleName => INPUT_PANEL_STYLE_EXPECTED@,
        ValueKind::LaunchPrefix => LAUNCH_PREFIX_EXPECTED@,
    }
}

fn kind_accepts(k: ValueKind, v: &str) -> (b: bool)
    ensures
        b == kind_ok(k, v@),
{
    match k {
        ValueKind::Boolean => parse_bool(v).is_some(),
        ValueKind::Unsigned(max) => parse_unsigned(v, max).is_some(),
        ValueKind::Signed16 => parse_signed(v, 32768, 32767).is_some(),
        ValueKind::MatchModeName => MatchMode::parse(v).is_ok(),
        ValueKind::RankingModeName => RankingMode::parse(v).is_ok(),
        ValueKind::PinnedOrderName => PinnedOrderMode::parse(v).is_ok(),
        ValueKind::DesktopIconName => DesktopIconMode::parse(v).is_ok(),
        ValueKind::HorizontalPositionName => HorizontalPosition::parse(v).is_ok(),
        ValueKind::PanelPositionName => PanelPosition::parse(v).is_ok(),
        ValueKind::PanelSideName => PanelSide::parse(v).is_ok(),
        ValueKind::InputPanelStyleName => InputPanelStyle::parse(v).is_ok(),
        ValueKind::LaunchPrefix => split_shell_words(v).is_some(),
    }
}

fn expected_text(k: ValueKind) -> (s: String)
    ensures
        s@ == expected_of(k),
{
    let t = match k {
        ValueKind::Boolean => BOOLEAN_EXPECTED,
        ValueKind::Unsigned(_) => INTEGER_EXPECTED,
        ValueKind::Signed16 => INTEGER_EXPECTED,
        ValueKind::MatchModeName => MATCH_MODE_EXPECTED,
        ValueKind::RankingModeName => RANKING_MODE_EXPECTED,
        ValueKind::PinnedOrderName => PINNED_ORDER_EXPECTED,
        ValueKind::DesktopIconName => DESKTOP_ICON_MODE_EXPECTED,
        ValueKind::HorizontalPositionName => HORIZONTAL_POSITION_EXPECTED,
        ValueKind::PanelPositionName => PANEL_POSITION_EXPECTED,
        ValueKind::PanelSideName => PANEL_SIDE_EXPECTED,
        ValueKind::InputPanelStyleName => INPUT_PANEL_STYLE_EXPECTED,
        ValueKind::LaunchPrefix => LAUNCH_PREFIX_EXPECTED,
    };
    t.to_owned()
}

/// The variables whose values must parse, in the order they are checked.
pub open spec fn typed_keys() -> Seq<(Seq<char>, ValueKind)> {
    seq![
        ("FSEL_FILTER_DESKTOP"@, ValueKind::Boolean),
        ("FSEL_LIST_EXECUTABLES_IN_PATH"@, ValueKind::Boolean),
        ("FSEL_HIDE_BEFORE_TYPING"@, ValueKind::Boolean),
        ("FSEL_MATCH_MODE"@, ValueKind::MatchModeName),
        ("FSEL_RANKING_MODE"@, ValueKind::RankingModeName),
        ("FSEL_PINNED_ORDER"@, ValueKind::PinnedOrderName),
        ("FSEL_SYSTEMD_RUN"@, ValueKind::Boolean),
        ("FSEL_UWSM"@, ValueKind::Boolean),
        ("FSEL_DETACH"@, ValueKind::Boolean),
        ("FSEL_NO_EXEC"@, ValueKind::Boolean),
        ("FSEL_CONFIRM_FIRST_LAUNCH"@, ValueKind::Boolean),
        ("FSEL_PREFIX_DEPTH"@, ValueKind::Unsigned(usize::MAX as u64)),
        ("FSEL_HARD_STOP"@, ValueKind::Boolean),
        ("FSEL_ROUNDED_BORDERS"@, ValueKind::Boolean),
        ("FSEL_SHOW_MAIN_BORDER"@, ValueKind::Boolean),
        ("FSEL_SHOW_APPS_BORDER"@, ValueKind::Boolean),
        ("FSEL_SHOW_ITEMS_BORDER"@, ValueKind::Boolean),
        ("FSEL_SHOW_INPUT_BORDER"@, ValueKind::Boolean),
        ("FSEL_SHOW_PANEL_TITLES"@, ValueKind::Boolean),
        ("FSEL_SHOW_INPUT_COUNT"@, ValueKind::Boolean),
        ("FSEL_SHOW_INPUT_PROMPT"@, ValueKind::Boolean),
        ("FSEL_SHOW_SELECTION_MARKER"@, ValueKind::Boolean),
        ("FSEL_SHOW_PIN_ICONS"@, ValueKind::Boolean),
        ("FSEL_INPUT_PANEL_STYLE"@, ValueKind::InputPanelStyleName),
        ("FSEL_APPS_SELECTION_ROUNDED"@, ValueKind::Boolean),
        ("FSEL_ITEMS_SELECTION_ROUNDED"@, ValueKind::Boolean),
        ("FSEL_DISABLE_MOUSE"@, ValueKind::Boolean),
        ("FSEL_PANELS_INFO_POSITION"@, ValueKind::PanelSideName),
        ("FSEL_PANELS_INPUT_POSITION"@, ValueKind::PanelSideName),
        ("FSEL_PANELS_INFO_SIZE"@, ValueKind::Unsigned(0xffff)),
        ("FSEL_PANELS_INPUT_SIZE"@, ValueKind::Unsigned(0xffff)),
        ("FSEL_PANELS_ROTATION"@, ValueKind::Unsigned(0xffff)),
        ("FSEL_PANELS_ITEM_WIDTH"@, ValueKind::Unsigned(0xffff)),
        ("FSEL_TITLE_PANEL_HEIGHT_PERCENT"@, ValueKind::Unsigned(0xffff)),
        ("FSEL_INPUT_PANEL_HEIGHT"@, ValueKind::Unsigned(0xffff)),
        ("FSEL_TITLE_PANEL_POSITION"@, ValueKind::PanelPositionName),
        ("FSEL_DMENU_SHOW_LINE_NUMBERS"@, ValueKind::Boolean),
        ("FSEL_DMENU_WRAP_LONG_LINES"@, ValueKind::Boolean),
        ("FSEL_DMENU_EXIT_IF_EMPTY"@, ValueKind::Boolean),
        ("FSEL_DMENU_DISABLE_MOUSE"@, ValueKind::Boolean),
        ("FSEL_DMENU_HARD_STOP"@, ValueKind::Boolean),
        ("FSEL_DMENU_ROUNDED_BORDERS"@, ValueKind::Boolean),
        ("FSEL_DMENU_TITLE_PANEL_HEIGHT_PERCENT"@, ValueKind::Unsigned(0xffff)),
        ("FSEL_DMENU_INPUT_PANEL_HEIGHT"@, ValueKind::Unsigned(0xffff)),
        ("FSEL_DMENU_TITLE_PANEL_POSITION"@, ValueKind::PanelPositionName),
        ("FSEL_CCLIP_IMAGE_PREVIEW"@, ValueKind::Boolean),
        ("FSEL_CCLIP_HIDE_INLINE_IMAGE_MESSAGE"@, ValueKind::Boolean),
        ("FSEL_CCLIP_SHOW_TAG_COLOR_NAMES"@, ValueKind::Boolean),
        ("FSEL_CCLIP_SHOW_LINE_NUMBERS"@, ValueKind::Boolean),
        ("FSEL_CCLIP_WRAP_LONG_LINES"@, ValueKind::Boolean),
        ("FSEL_CCLIP_DISABLE_MOUSE"@, ValueKind::Boolean),
        ("FSEL_CCLIP_HARD_STOP"@, ValueKind::Boolean),
        ("FSEL_CCLIP_ROUNDED_BORDERS"@, ValueKind::Boolean),
        ("FSEL_CCLIP_TITLE_PANEL_HEIGHT_PERCENT"@, ValueKind::Unsigned(0xffff)),
        ("FSEL_CCLIP_INPUT_PANEL_HEIGHT"@, ValueKind::Unsigned(0xffff)),
        ("FSEL_CCLIP_TITLE_PANEL_POSITION"@, ValueKind::PanelPositionName),
        ("FSEL_APP_LAUNCHER_FILTER_DESKTOP"@, ValueKind::Boolean),
        ("FSEL_APP_LAUNCHER_FILTER_ACTIONS"@, ValueKind::Boolean),
        ("FSEL_APP_LAUNCHER_AUTO_HIDE_DUPLICATES"@, ValueKind::Boolean),
        ("FSEL_APP_LAUNCHER_LIST_EXECUTABLES_IN_PATH"@, ValueKind::Boolean),
        ("FSEL_APP_LAUNCHER_HIDE_BEFORE_TYPING"@, ValueKind::Boolean),
        ("FSEL_APP_LAUNCHER_LAUNCH_PREFIX"@, ValueKind::LaunchPrefix),
        ("FSEL_APP_LAUNCHER_MATCH_MODE"@, ValueKind::MatchModeName),
        ("FSEL_APP_LAUNCHER_RANKING_MODE"@, ValueKind::RankingModeName),
        ("FSEL_APP_LAUNCHER_PINNED_ORDER"@, ValueKind::PinnedOrderName),
        ("FSEL_APP_LAUNCHER_CONFIRM_FIRST_LAUNCH"@, ValueKind::Boolean),
        ("FSEL_APP_LAUNCHER_PREFIX_DEPTH"@, ValueKind::Unsigned(usize::MAX as u64)),
        ("FSEL_APP_LAUNCHER_ICON_MODE"@, ValueKind::DesktopIconName),
        ("FSEL_APP_LAUNCHER_ICON_POSITION"@, ValueKind::HorizontalPositionName),
        ("FSEL_APP_LAUNCHER_ICON_PREVIEW_WIDTH_PERCENT"@, ValueKind::Unsigned(0xffff)),
        ("FSEL_APP_LAUNCHER_ICON_LIST_WIDTH"@, ValueKind::Unsigned(0xffff)),
        ("FSEL_APP_LAUNCHER_ICON_LIST_HEIGHT"@, ValueKind::Unsigned(0xffff)),
        ("FSEL_APP_LAUNCHER_ICON_LIST_GAP"@, ValueKind::Unsigned(0xffff)),
        ("FSEL_APP_LAUNCHER_ICON_LIST_VERTICAL_ALIGN_PERCENT"@, ValueKind::Signed16),
        ("FSEL_APP_LAUNCHER_ICON_ARROW_BEFORE"@, ValueKind::Boolean),
        ("FSEL_APP_LAUNCHER_ICON_SIZE"@, ValueKind::Unsigned(0xffff)),
        ("FSEL_APP_LAUNCHER_ICON_HORIZONTAL_ALIGN_PERCENT"@, ValueKind::Unsigned(0xffff)),
        ("FSEL_APP_LAUNCHER_ICON_VERTICAL_ALIGN_PERCENT"@, ValueKind::Unsigned(0xffff)),
    ]
}

fn typed_key_table() -> (t: Vec<(&'static str, ValueKind)>)
    ensures
        t@.map_values(|p: (&'static str, ValueKind)| (p.0@, p.1)) == typed_keys(),
{
    let t = vec![
        ("FSEL_FILTER_DESKTOP", ValueKind::Boolean),
        ("FSEL_LIST_EXECUTABLES_IN_PATH", ValueKind::Boolean),
        ("FSEL_HIDE_BEFORE_TYPING", ValueKind::Boolean),
        ("FSEL_MATCH_MODE", ValueKind::MatchModeName),
        ("FSEL_RANKING_MODE", ValueKind::RankingModeName),
        ("FSEL_PINNED_ORDER", ValueKind::PinnedOrderName),
        ("FSEL_SYSTEMD_RUN", ValueKind::Boolean),
        ("FSEL_UWSM", ValueKind::Boolean),
        ("FSEL_DETACH", ValueKind::Boolean),
        ("FSEL_NO_EXEC", ValueKind::Boolean),
        ("FSEL_CONFIRM_FIRST_LAUNCH", ValueKind::Boolean),
        ("FSEL_PREFIX_DEPTH", ValueKind::Unsigned(usize::MAX as u64)),
        ("FSEL_HARD_STOP", ValueKind::Boolean),
        ("FSEL_ROUNDED_BORDERS", ValueKind::Boolean),
        ("FSEL_SHOW_MAIN_BORDER", ValueKind::Boolean),
        ("FSEL_SHOW_APPS_BORDER", ValueKind::Boolean),
        ("FSEL_SHOW_ITEMS_BORDER", ValueKind::Boolean),
        ("FSEL_SHOW_INPUT_BORDER", ValueKind::Boolean),
        ("FSEL_SHOW_PANEL_TITLES", ValueKind::Boolean),
        ("FSEL_SHOW_INPUT_COUNT", ValueKind::Boolean),
        ("FSEL_SHOW_INPUT_PROMPT", ValueKind::Boolean),
        ("FSEL_SHOW_SELECTION_MARKER", ValueKind::Boolean),
        ("FSEL_SHOW_PIN_ICONS", ValueKind::Boolean),
        ("FSEL_INPUT_PANEL_STYLE", ValueKind::InputPanelStyleName),
        ("FSEL_APPS_SELECTION_ROUNDED", ValueKind::Boolean),
        ("FSEL_ITEMS_SELECTION_ROUNDED", ValueKind::Boolean),
        ("FSEL_DISABLE_MOUSE", ValueKind::Boolean),
        ("FSEL_PANELS_INFO_POSITION", ValueKind::PanelSideName),
        ("FSEL_PANELS_INPUT_POSITION", ValueKind::PanelSideName),
        ("FSEL_PANELS_INFO_SIZE", ValueKind::Unsigned(0xffff)),
        ("FSEL_PANELS_INPUT_SIZE", ValueKind::Unsigned(0xffff)),
        ("FSEL_PANELS_ROTATION", ValueKind::Unsigned(0xffff)),
        ("FSEL_PANELS_ITEM_WIDTH", ValueKind::Unsigned(0xffff)),
        ("FSEL_TITLE_PANEL_HEIGHT_PERCENT", ValueKind::Unsigned(0xffff)),
        ("FSEL_INPUT_PANEL_HEIGHT", ValueKind::Unsigned(0xffff)),
        ("FSEL_TITLE_PANEL_POSITION", ValueKind::PanelPositionName),
        ("FSEL_DMENU_SHOW_LINE_NUMBERS", ValueKind::Boolean),
        ("FSEL_DMENU_WRAP_LONG_LINES", ValueKind::Boolean),
        ("FSEL_DMENU_EXIT_IF_EMPTY", ValueKind::Boolean),
        ("FSEL_DMENU_DISABLE_MOUSE", ValueKind::Boolean),
        ("FSEL_DMENU_HARD_STOP", ValueKind::Boolean),
        ("FSEL_DMENU_ROUNDED_BORDERS", ValueKind::Boolean),
        ("FSEL_DMENU_TITLE_PANEL_HEIGHT_PERCENT", ValueKind::Unsigned(0xffff)),
        ("FSEL_DMENU_INPUT_PANEL_HEIGHT", ValueKind::Unsigned(0xffff)),
        ("FSEL_DMENU_TITLE_PANEL_POSITION", ValueKind::PanelPositionName),
        ("FSEL_CCLIP_IMAGE_PREVIEW", ValueKind::Boolean),
        ("FSEL_CCLIP_HIDE_INLINE_IMAGE_MESSAGE", ValueKind::Boolean),
        ("FSEL_CCLIP_SHOW_TAG_COLOR_NAMES", ValueKind::Boolean),
        ("FSEL_CCLIP_SHOW_LINE_NUMBERS", ValueKind::Boolean),
        ("FSEL_CCLIP_WRAP_LONG_LINES", ValueKind::Boolean),
        ("FSEL_CCLIP_DISABLE_MOUSE", ValueKind::Boolean),
        ("FSEL_CCLIP_HARD_STOP", ValueKind::Boolean),
        ("FSEL_CCLIP_ROUNDED_BORDERS", ValueKind::Boolean),
        ("FSEL_CCLIP_TITLE_PANEL_HEIGHT_PERCENT", ValueKind::Unsigned(0xffff)),
        ("FSEL_CCLIP_INPUT_PANEL_HEIGHT", ValueKind::Unsigned(0xffff)),
        ("FSEL_CCLIP_TITLE_PANEL_POSITION", ValueKind::PanelPositionName),
        ("FSEL_APP_LAUNCHER_FILTER_DESKTOP", ValueKind::Boolean),
        ("FSEL_APP_LAUNCHER_FILTER_ACTIONS", ValueKind::Boolean),
        ("FSEL_APP_LAUNCHER_AUTO_HIDE_DUPLICATES", ValueKind::Boolean),
        ("FSEL_APP_LAUNCHER_LIST_EXECUTABLES_IN_PATH", ValueKind::Boolean),
        ("FSEL_APP_LAUNCHER_HIDE_BEFORE_TYPING", ValueKind::Boolean),
        ("FSEL_APP_LAUNCHER_LAUNCH_PREFIX", ValueKind::LaunchPrefix),
        ("FSEL_APP_LAUNCHER_MATCH_MODE", ValueKind::MatchModeName),
        ("FSEL_APP_LAUNCHER_RANKING_MODE", ValueKind::RankingModeName),
        ("FSEL_APP_LAUNCHER_PINNED_ORDER", ValueKind::PinnedOrderName),
        ("FSEL_APP_LAUNCHER_CONFIRM_FIRST_LAUNCH", ValueKind::Boolean),
        ("FSEL_APP_LAUNCHER_PREFIX_DEPTH", ValueKind::Unsigned(usize::MAX as u64)),
        ("FSEL_APP_LAUNCHER_ICON_MODE", ValueKind::DesktopIconName),
        ("FSEL_APP_LAUNCHER_ICON_POSITION", ValueKind::HorizontalPositionName),
        ("FSEL_APP_LAUNCHER_ICON_PREVIEW_WIDTH_PERCENT", ValueKind::Unsigned(0xffff)),
        ("FSEL_APP_LAUNCHER_ICON_LIST_WIDTH", ValueKind::Unsigned(0xffff)),
        ("FSEL_APP_LAUNCHER_ICON_LIST_HEIGHT", ValueKind::Unsigned(0xffff)),
        ("FSEL_APP_LAUNCHER_ICON_LIST_GAP", ValueKind::Unsigned(0xffff)),
        ("FSEL_APP_LAUNCHER_ICON_LIST_VERTICAL_ALIGN_PERCENT", ValueKind::Signed16),
        ("FSEL_APP_LAUNCHER_ICON_ARROW_BEFORE", ValueKind::Boolean),
        ("FSEL_APP_LAUNCHER_ICON_SIZE", ValueKind::Unsigned(0xffff)),
        ("FSEL_APP_LAUNCHER_ICON_HORIZONTAL_ALIGN_PERCENT", ValueKind::Unsigned(0xffff)),
        ("FSEL_APP_LAUNCHER_ICON_VERTICAL_ALIGN_PERCENT", ValueKind::Unsigned(0xffff)),
    ];
    assert(t@.map_values(|p: (&'static str, ValueKind)| (p.0@, p.1)) =~= typed_keys());
    t
}

/// The first of `keys[i..]` set to a value it cannot take: its name, the
/// value and what was expected.
pub open spec fn first_bad(
    vars: Seq<(Seq<char>, Seq<char>)>,
    keys: Seq<(Seq<char>, ValueKind)>,
    i: int,
) -> Option<(Seq<char>, Seq<char>, Seq<char>)>
    decreases keys.len() - i,
{
    if i < 0 || i >= keys.len() {
        None
    } else {
        match env_value(vars, keys[i].0) {
            Some(v) => if !kind_ok(keys[i].1, v) {
                Some((keys[i].0, v, expected_of(keys[i].1)))
            } else {
                first_bad(vars, keys, i + 1)
            },
            None => first_bad(vars, keys, i + 1),
        }
    }
}

/// The first variable with a value that does not parse, if any.
pub open spec fn override_error(vars: Seq<(Seq<char>, Seq<char>)>) -> Option<
    (Seq<char>, Seq<char>, Seq<char>),
> {
    first_bad(vars, typed_keys(), 0)
}

fn first_invalid(vars: &Vec<(String, String)>) -> (r: Option<ConfigError>)
    ensures
        match override_error(env_view(vars@)) {
            Some((k, v, e)) => r matches Some(
                ConfigError::InvalidEnvironmentOverride { key, value, expected },
            ) && key@ == k && value@ == v && expected@ == e,
            None => r is None,
        },
{
    let ghost vv = env_view(vars@);
    let table = typed_key_table();
    let ghost keys = table@.map_values(|p: (&'static str, ValueKind)| (p.0@, p.1));
    let mut i: usize = 0;
    while i < table.len()
        invariant
            i <= table@.len(),
            vv == env_view(vars@),
            keys == table@.map_values(|p: (&'static str, ValueKind)| (p.0@, p.1)),
            keys == typed_keys(),
            first_bad(vv, keys, 0) == first_bad(vv, keys, i as int),
        decreases table@.len() - i,
    {
        let (k, kind) = table[i];
        assert(keys[i as int] == (k@, kind));
        match lookup(vars, k) {
            Some(v) => {
                if !kind_accepts(kind, v.as_str()) {
                    return Some(
                        ConfigError::InvalidEnvironmentOverride {
                            key: k.to_owned(),
                            value: v,
                            expected: expected_text(kind),
                        },
                    );
                }
            },
            None => {},
        }
        i += 1;
    }
    None
}

/// The variable's value, or `old` when it is not set.
pub open spec fn str_or(vars: Seq<(Seq<char>, Seq<char>)>, key: Seq<char>, old: Seq<char>) -> Seq<
    char,
> {
    match env_value(vars, key) {
        Some(v) => v,
        None => old,
    }
}

/// The variable's value, or `old` when it is not set.
pub open spec fn opt_str_or(
    vars: Seq<(Seq<char>, Seq<char>)>,
    key: Seq<char>,
    old: Option<Seq<char>>,
) -> Option<Seq<char>> {
    match env_value(vars, key) {
        Some(v) => Some(v),
        None => old,
    }
}

pub open spec fn parsed_or<T>(p: Option<T>, old: T) -> T {
    match p {
        Some(v) => v,
        None => old,
    }
}

pub open spec fn opt_parsed_or<T>(p: Option<T>, old: Option<T>) -> Option<T> {
    match p {
        Some(v) => Some(v),
        None => old,
    }
}

/// The parsed value of a set variable.
pub open spec fn parsed_var<T>(
    vars: Seq<(Seq<char>, Seq<char>)>,
    key: Seq<char>,
    parse: spec_fn(Seq<char>) -> Option<T>,
) -> Option<T> {
    match env_value(vars, key) {
        Some(v) => parse(v),
        None => None,
    }
}

pub open spec fn bool_value(vars: Seq<(Seq<char>, Seq<char>)>, key: Seq<char>) -> Option<bool> {
    parsed_var(vars, key, |v: Seq<char>| parse_bool_spec(v))
}

pub open spec fn u16_value(vars: Seq<(Seq<char>, Seq<char>)>, key: Seq<char>) -> Option<u16> {
    parsed_var(
        vars,
        key,
        |v: Seq<char>|
            match parse_unsigned_spec(v, 0xffff) {
                Some(n) => Some(n as u16),
                None => None,
            },
    )
}

pub open spec fn usize_value(vars: Seq<(Seq<char>, Seq<char>)>, key: Seq<char>) -> Option<usize> {
    parsed_var(
        vars,
        key,
        |v: Seq<char>|
            match parse_unsigned_spec(v, (usize::MAX as u64) as int) {
                Some(n) => Some(n as usize),
                None => None,
            },
    )
}

pub open spec fn i16_value(vars: Seq<(Seq<char>, Seq<char>)>, key: Seq<char>) -> Option<i16> {
    parsed_var(
        vars,
        key,
        |v: Seq<char>|
            match parse_signed_spec(v, -32768, 32767) {
                Some(n) => Some(n as i16),
                None => None,
            },
    )
}

pub open spec fn match_mode_value(vars: Seq<(Seq<char>, Seq<char>)>, key: Seq<char>) -> Option<
    MatchMode,
> {
    parsed_var(vars, key, |v: Seq<char>| match_mode_named(lowercase(trim(v))))
}

pub open spec fn ranking_mode_value(vars: Seq<(Seq<char>, Seq<char>)>, key: Seq<char>) -> Option<
    RankingMode,
> {
    parsed_var(vars, key, |v: Seq<char>| ranking_mode_named(lowercase(trim(v))))
}

pub open spec fn pinned_order_value(vars: Seq<(Seq<char>, Seq<char>)>, key: Seq<char>) -> Option<
    PinnedOrderMode,
> {
    parsed_var(vars, key, |v: Seq<char>| pinned_order_named(lowercase(trim(v))))
}

pub open spec fn desktop_icon_value(vars: Seq<(Seq<char>, Seq<char>)>, key: Seq<char>) -> Option<
    DesktopIconMode,
> {
    parsed_var(vars, key, |v: Seq<char>| desktop_icon_named(lowercase(trim(v))))
}

pub open spec fn horizontal_position_value(
    vars: Seq<(Seq<char>, Seq<char>)>,
    key: Seq<char>,
) -> Option<HorizontalPosition> {
    parsed_var(vars, key, |v: Seq<char>| horizontal_position_named(lowercase(trim(v))))
}

pub open spec fn panel_position_value(vars: Seq<(Seq<char>, Seq<char>)>, key: Seq<char>) -> Option<
    PanelPosition,
> {
    parsed_var(vars, key, |v: Seq<char>| panel_position_named(lowercase(trim(v))))
}

pub open spec fn panel_side_value(vars: Seq<(Seq<char>, Seq<char>)>, key: Seq<char>) -> Option<
    PanelSide,
> {
    parsed_var(vars, key, |v: Seq<char>| panel_side_named(lowercase(trim(v))))
}

pub open spec fn input_panel_style_value(
    vars: Seq<(Seq<char>, Seq<char>)>,
    key: Seq<char>,
) -> Option<InputPanelStyle> {
    parsed_var(vars, key, |v: Seq<char>| input_panel_style_named(lowercase(trim(v))))
}

pub open spec fn launch_prefix_value(vars: Seq<(Seq<char>, Seq<char>)>, key: Seq<char>) -> Option<
    Seq<Seq<char>>,
> {
    parsed_var(vars, key, |v: Seq<char>| shell_split(v))
}

fn string_or(vars: &Vec<(String, String)>, key: &str, old: String) -> (r: String)
    ensures
        r@ == str_or(env_view(vars@), key@, old@),
{
    match lookup(vars, key) {
        Some(v) => v,
        None => old,
    }
}

fn optional_string_or(vars: &Vec<(String, String)>, key: &str, old: Option<String>) -> (r: Option<
    String,
>)
    ensures
        opt_string_view(r) == opt_str_or(env_view(vars@), key@, opt_string_view(old)),
{
    match lookup(vars, key) {
        Some(v) => Some(v),
        None => old,
    }
}

fn read_bool(vars: &Vec<(String, String)>, key: &str) -> (r: Option<bool>)
    ensures
        r == bool_value(env_view(vars@), key@),
{
    match lookup(vars, key) {
        Some(v) => parse_bool(v.as_str()),
        None => None,
    }
}

fn read_u16(vars: &Vec<(String, String)>, key: &str) -> (r: Option<u16>)
    ensures
        r == u16_value(env_view(vars@), key@),
{
    match lookup(vars, key) {
        Some(v) => match parse_unsigned(v.as_str(), 0xffff) {
            Some(n) => Some(n as u16),
            None => None,
        },
        None => None,
    }
}

fn read_usize(vars: &Vec<(String, String)>, key: &str) -> (r: Option<usize>)
    ensures
        r == usize_value(env_view(vars@), key@),
{
    match lookup(vars, key) {
        Some(v) => match parse_unsigned(v.as_str(), usize::MAX as u64) {
            Some(n) => Some(n as usize),
            None => None,
        },
        None => None,
    }
}

fn read_i16(vars: &Vec<(String, String)>, key: &str) -> (r: Option<i16>)
    ensures
        r == i16_value(env_view(vars@), key@),
{
    match lookup(vars, key) {
        Some(v) => match parse_signed(v.as_str(), 32768, 32767) {
            Some(n) => Some(n as i16),
            None => None,
        },
        None => None,
    }
}

fn read_match_mode(vars: &Vec<(String, String)>, key: &str) -> (r: Option<MatchMode>)
    ensures
        r == match_mode_value(env_view(vars@), key@),
{
    match lookup(vars, key) {
        Some(v) => match MatchMode::parse(v.as_str()) {
            Ok(m) => Some(m),
            Err(_) => None,
        },
        None => None,
    }
}

fn read_ranking_mode(vars: &Vec<(String, String)>, key: &str) -> (r: Option<RankingMode>)
    ensures
        r == ranking_mode_value(env_view(vars@), key@),
{
    match lookup(vars, key) {
        Some(v) => match RankingMode::parse(v.as_str()) {
            Ok(m) => Some(m),
            Err(_) => None,
        },
        None => None,
    }
}

fn read_pinned_order(vars: &Vec<(String, String)>, key: &str) -> (r: Option<PinnedOrderMode>)
    ensures
        r == pinned_order_value(env_view(vars@), key@),
{
    match lookup(vars, key) {
        Some(v) => match PinnedOrderMode::parse(v.as_str()) {
            Ok(m) => Some(m),
            Err(_) => None,
        },
        None => None,
    }
}

fn read_desktop_icon_mode(vars: &Vec<(String, String)>, key: &str) -> (r: Option<DesktopIconMode>)
    ensures
        r == desktop_icon_value(env_view(vars@), key@),
{
    match lookup(vars, key) {
        Some(v) => match DesktopIconMode::parse(v.as_str()) {
            Ok(m) => Some(m),
            Err(_) => None,
        },
        None => None,
    }
}

fn read_horizontal_position(vars: &Vec<(String, String)>, key: &str) -> (r: Option<
    HorizontalPosition,
>)
    ensures
        r == horizontal_position_value(env_view(vars@), key@),
{
    match lookup(vars, key) {
        Some(v) => match HorizontalPosition::parse(v.as_str()) {
            Ok(m) => Some(m),
            Err(_) => None,
        },
        None => None,
    }
}

fn read_panel_position(vars: &Vec<(String, String)>, key: &str) -> (r: Option<PanelPosition>)
    ensures
        r == panel_position_value(env_view(vars@), key@),
{
    match lookup(vars, key) {
        Some(v) => match PanelPosition::parse(v.as_str()) {
            Ok(m) => Some(m),
            Err(_) => None,
        },
        None => None,
    }
}

fn read_panel_side(vars: &Vec<(String, String)>, key: &str) -> (r: Option<PanelSide>)
    ensures
        r == panel_side_value(env_view(vars@), key@),
{
    match lookup(vars, key) {
        Some(v) => match PanelSide::parse(v.as_str()) {
            Ok(m) => Some(m),
            Err(_) => None,
        },
        None => None,
    }
}

fn read_input_panel_style(vars: &Vec<(String, String)>, key: &str) -> (r: Option<InputPanelStyle>)
    ensures
        r == input_panel_style_value(env_view(vars@), key@),
{
    match lookup(vars, key) {
        Some(v) => match InputPanelStyle::parse(v.as_str()) {
            Ok(m) => Some(m),
            Err(_) => None,
        },
        None => None,
    }
}

fn read_launch_prefix(vars: &Vec<(String, String)>, key: &str) -> (r: Option<Vec<String>>)
    ensures
        opt_strings_view(r) == launch_prefix_value(env_view(vars@), key@),
{
    match lookup(vars, key) {
        Some(v) => split_shell_words(v.as_str()),
        None => None,
    }
}

/// `p`'s value, or `old` when there is none.
fn or_keep<T>(p: Option<T>, old: T) -> (r: T)
    ensures
        r == parsed_or(p, old),
{
    match p {
        Some(v) => v,
        None => old,
    }
}

/// `p` when it holds a value, or `old`.
fn or_keep_optional<T>(p: Option<T>, old: Option<T>) -> (r: Option<T>)
    ensures
        r == opt_parsed_or(p, old),
{
    match p {
        Some(v) => Some(v),
        None => old,
    }
}

fn launch_prefix_or(vars: &Vec<(String, String)>, key: &str, old: Option<Vec<String>>) -> (r:
    Option<Vec<String>>)
    ensures
        opt_strings_view(r) == opt_parsed_or(
            launch_prefix_value(env_view(vars@), key@),
            opt_strings_view(old),
        ),
{
    match read_launch_prefix(vars, key) {
        Some(v) => Some(v),
        None => old,
    }
}

/// `new` is `old` with the variables of its section applied.
pub open spec fn general_overridden(
    old: GeneralConfig,
    new: GeneralConfig,
    vars: Seq<(Seq<char>, Seq<char>)>,
) -> bool {
    &&& new.terminal_launcher@ == str_or(vars, "FSEL_TERMINAL_LAUNCHER"@, old.terminal_launcher@)
    &&& new.filter_desktop == parsed_or(
        bool_value(vars, "FSEL_FILTER_DESKTOP"@),
        old.filter_desktop,
    )
    &&& new.list_executables_in_path == parsed_or(
        bool_value(vars, "FSEL_LIST_EXECUTABLES_IN_PATH"@),
        old.list_executables_in_path,
    )
    &&& new.hide_before_typing == parsed_or(
        bool_value(vars, "FSEL_HIDE_BEFORE_TYPING"@),
        old.hide_before_typing,
    )
    &&& new.match_mode == parsed_or(match_mode_value(vars, "FSEL_MATCH_MODE"@), old.match_mode)
    &&& new.ranking_mode == parsed_or(
        ranking_mode_value(vars, "FSEL_RANKING_MODE"@),
        old.ranking_mode,
    )
    &&& new.pinned_order == parsed_or(
        pinned_order_value(vars, "FSEL_PINNED_ORDER"@),
        old.pinned_order,
    )
    &&& new.systemd_run == parsed_or(bool_value(vars, "FSEL_SYSTEMD_RUN"@), old.systemd_run)
    &&& new.uwsm == parsed_or(bool_value(vars, "FSEL_UWSM"@), old.uwsm)
    &&& new.detach == parsed_or(bool_value(vars, "FSEL_DETACH"@), old.detach)
    &&& new.no_exec == parsed_or(bool_value(vars, "FSEL_NO_EXEC"@), old.no_exec)
    &&& new.confirm_first_launch == parsed_or(
        bool_value(vars, "FSEL_CONFIRM_FIRST_LAUNCH"@),
        old.confirm_first_launch,
    )
    &&& new.prefix_depth == parsed_or(usize_value(vars, "FSEL_PREFIX_DEPTH"@), old.prefix_depth)
}

fn apply_general(c: GeneralConfig, vars: &Vec<(String, String)>) -> (r: GeneralConfig)
    ensures
        general_overridden(c, r, env_view(vars@)),
{
    let GeneralConfig {
        terminal_launcher,
        filter_desktop,
        list_executables_in_path,
        hide_before_typing,
        match_mode,
        ranking_mode,
        pinned_order,
        systemd_run,
        uwsm,
        detach,
        no_exec,
        confirm_first_launch,
        prefix_depth,
    } = c;
    let terminal_launcher = string_or(vars, "FSEL_TERMINAL_LAUNCHER", terminal_launcher);
    let filter_desktop = or_keep(read_bool(vars, "FSEL_FILTER_DESKTOP"), filter_desktop);
    let list_executables_in_path = or_keep(
        read_bool(vars, "FSEL_LIST_EXECUTABLES_IN_PATH"),
        list_executables_in_path,
    );
    let hide_before_typing = or_keep(
        read_bool(vars, "FSEL_HIDE_BEFORE_TYPING"),
        hide_before_typing,
    );
    let match_mode = or_keep(read_match_mode(vars, "FSEL_MATCH_MODE"), match_mode);
    let ranking_mode = or_keep(read_ranking_mode(vars, "FSEL_RANKING_MODE"), ranking_mode);
    let pinned_order = or_keep(read_pinned_order(vars, "FSEL_PINNED_ORDER"), pinned_order);
    let systemd_run = or_keep(read_bool(vars, "FSEL_SYSTEMD_RUN"), systemd_run);
    let uwsm = or_keep(read_bool(vars, "FSEL_UWSM"), uwsm);
    let detach = or_keep(read_bool(vars, "FSEL_DETACH"), detach);
    let no_exec = or_keep(read_bool(vars, "FSEL_NO_EXEC"), no_exec);
    let confirm_first_launch = or_keep(
        read_bool(vars, "FSEL_CONFIRM_FIRST_LAUNCH"),
        confirm_first_launch,
    );
    let prefix_depth = or_keep(read_usize(vars, "FSEL_PREFIX_DEPTH"), prefix_depth);
    GeneralConfig {
        terminal_launcher,
        filter_desktop,
        list_executables_in_path,
        hide_before_typing,
        match_mode,
        ranking_mode,
        pinned_order,
        systemd_run,
        uwsm,
        detach,
        no_exec,
        confirm_first_launch,
        prefix_depth,
    }
}

/// `new` is `old` with the variables of its section applied.
pub open spec fn ui_overridden(
    old: UiConfig,
    new: UiConfig,
    vars: Seq<(Seq<char>, Seq<char>)>,
) -> bool {
    &&& new.pinned_text_color == old.pinned_text_color
    &&& new.pinned_background_color == old.pinned_background_color
    &&& new.pinned_highlight_color == old.pinned_highlight_color
    &&& new.pinned_selection_background_color == old.pinned_selection_background_color
    &&& new.highlight_color@ == str_or(vars, "FSEL_HIGHLIGHT_COLOR"@, old.highlight_color@)
    &&& new.cursor@ == str_or(vars, "FSEL_CURSOR"@, old.cursor@)
    &&& new.hard_stop == parsed_or(bool_value(vars, "FSEL_HARD_STOP"@), old.hard_stop)
    &&& new.rounded_borders == parsed_or(
        bool_value(vars, "FSEL_ROUNDED_BORDERS"@),
        old.rounded_borders,
    )
    &&& new.show_main_border == parsed_or(
        bool_value(vars, "FSEL_SHOW_MAIN_BORDER"@),
        old.show_main_border,
    )
    &&& new.show_items_border == parsed_or(
        bool_value(vars, "FSEL_SHOW_ITEMS_BORDER"@),
        parsed_or(bool_value(vars, "FSEL_SHOW_APPS_BORDER"@), old.show_items_border),
    )
    &&& new.show_input_border == parsed_or(
        bool_value(vars, "FSEL_SHOW_INPUT_BORDER"@),
        old.show_input_border,
    )
    &&& new.show_panel_titles == parsed_or(
        bool_value(vars, "FSEL_SHOW_PANEL_TITLES"@),
        old.show_panel_titles,
    )
    &&& new.show_input_count == parsed_or(
        bool_value(vars, "FSEL_SHOW_INPUT_COUNT"@),
        old.show_input_count,
    )
    &&& new.show_input_prompt == parsed_or(
        bool_value(vars, "FSEL_SHOW_INPUT_PROMPT"@),
        old.show_input_prompt,
    )
    &&& new.show_selection_marker == parsed_or(
        bool_value(vars, "FSEL_SHOW_SELECTION_MARKER"@),
        old.show_selection_marker,
    )
    &&& new.selection_marker@ == str_or(vars, "FSEL_SELECTION_MARKER"@, old.selection_marker@)
    &&& new.show_pin_icons == parsed_or(
        bool_value(vars, "FSEL_SHOW_PIN_ICONS"@),
        old.show_pin_icons,
    )
    &&& new.input_panel_style == parsed_or(
        input_panel_style_value(vars, "FSEL_INPUT_PANEL_STYLE"@),
        old.input_panel_style,
    )
    &&& new.disable_mouse == parsed_or(bool_value(vars, "FSEL_DISABLE_MOUSE"@), old.disable_mouse)
    &&& new.main_border_color@ == str_or(vars, "FSEL_MAIN_BORDER_COLOR"@, old.main_border_color@)
    &&& new.main_background_color@ == str_or(
        vars,
        "FSEL_MAIN_BACKGROUND_COLOR"@,
        old.main_background_color@,
    )
    &&& new.items_border_color@ == str_or(
        vars,
        "FSEL_ITEMS_BORDER_COLOR"@,
        str_or(vars, "FSEL_APPS_BORDER_COLOR"@, old.items_border_color@),
    )
    &&& new.items_background_color@ == str_or(
        vars,
        "FSEL_ITEMS_BACKGROUND_COLOR"@,
        str_or(vars, "FSEL_APPS_BACKGROUND_COLOR"@, old.items_background_color@),
    )
    &&& new.items_selection_background_color@ == str_or(
        vars,
        "FSEL_ITEMS_SELECTION_BACKGROUND_COLOR"@,
        str_or(
            vars,
            "FSEL_APPS_SELECTION_BACKGROUND_COLOR"@,
            old.items_selection_background_color@,
        ),
    )
    &&& new.items_selection_rounded == parsed_or(
        bool_value(vars, "FSEL_ITEMS_SELECTION_ROUNDED"@),
        parsed_or(bool_value(vars, "FSEL_APPS_SELECTION_ROUNDED"@), old.items_selection_rounded),
    )
    &&& new.input_border_color@ == str_or(vars, "FSEL_INPUT_BORDER_COLOR"@, old.input_border_color@)
    &&& new.input_background_color@ == str_or(
        vars,
        "FSEL_INPUT_BACKGROUND_COLOR"@,
        old.input_background_color@,
    )
    &&& new.main_text_color@ == str_or(vars, "FSEL_MAIN_TEXT_COLOR"@, old.main_text_color@)
    &&& new.items_text_color@ == str_or(
        vars,
        "FSEL_ITEMS_TEXT_COLOR"@,
        str_or(vars, "FSEL_APPS_TEXT_COLOR"@, old.items_text_color@),
    )
    &&& new.input_text_color@ == str_or(vars, "FSEL_INPUT_TEXT_COLOR"@, old.input_text_color@)
    &&& new.fancy_mode == old.fancy_mode
    &&& new.header_title_color@ == str_or(vars, "FSEL_HEADER_TITLE_COLOR"@, old.header_title_color@)
    &&& new.pin_color == old.pin_color
    &&& new.pin_icon == old.pin_icon
}

fn apply_ui(c: UiConfig, vars: &Vec<(String, String)>) -> (r: UiConfig)
    ensures
        ui_overridden(c, r, env_view(vars@)),
{
    let UiConfig {
        pinned_text_color,
        pinned_background_color,
        pinned_highlight_color,
        pinned_selection_background_color,
        highlight_color,
        cursor,
        hard_stop,
        rounded_borders,
        show_main_border,
        show_items_border,
        show_input_border,
        show_panel_titles,
        show_input_count,
        show_input_prompt,
        show_selection_marker,
        selection_marker,
        show_pin_icons,
        input_panel_style,
        disable_mouse,
        main_border_color,
        main_background_color,
        items_border_color,
        items_background_color,
        items_selection_background_color,
        items_selection_rounded,
        input_border_color,
        input_background_color,
        main_text_color,
        items_text_color,
        input_text_color,
        fancy_mode,
        header_title_color,
        pin_color,
        pin_icon,
    } = c;
    let highlight_color = string_or(vars, "FSEL_HIGHLIGHT_COLOR", highlight_color);
    let main_border_color = string_or(vars, "FSEL_MAIN_BORDER_COLOR", main_border_color);
    let main_background_color = string_or(
        vars,
        "FSEL_MAIN_BACKGROUND_COLOR",
        main_background_color,
    );
    let items_background_color = string_or(
        vars,
        "FSEL_APPS_BACKGROUND_COLOR",
        items_background_color,
    );
    let items_background_color = string_or(
        vars,
        "FSEL_ITEMS_BACKGROUND_COLOR",
        items_background_color,
    );
    let items_border_color = string_or(vars, "FSEL_APPS_BORDER_COLOR", items_border_color);
    let items_border_color = string_or(vars, "FSEL_ITEMS_BORDER_COLOR", items_border_color);
    let items_selection_background_color = string_or(
        vars,
        "FSEL_APPS_SELECTION_BACKGROUND_COLOR",
        items_selection_background_color,
    );
    let items_selection_background_color = string_or(
        vars,
        "FSEL_ITEMS_SELECTION_BACKGROUND_COLOR",
        items_selection_background_color,
    );
    let input_background_color = string_or(
        vars,
        "FSEL_INPUT_BACKGROUND_COLOR",
        input_background_color,
    );
    let input_border_color = string_or(vars, "FSEL_INPUT_BORDER_COLOR", input_border_color);
    let main_text_color = string_or(vars, "FSEL_MAIN_TEXT_COLOR", main_text_color);
    let items_text_color = string_or(vars, "FSEL_APPS_TEXT_COLOR", items_text_color);
    let items_text_color = string_or(vars, "FSEL_ITEMS_TEXT_COLOR", items_text_color);
    let input_text_color = string_or(vars, "FSEL_INPUT_TEXT_COLOR", input_text_color);
    let header_title_color = string_or(vars, "FSEL_HEADER_TITLE_COLOR", header_title_color);
    let cursor = string_or(vars, "FSEL_CURSOR", cursor);
    let hard_stop = or_keep(read_bool(vars, "FSEL_HARD_STOP"), hard_stop);
    let rounded_borders = or_keep(read_bool(vars, "FSEL_ROUNDED_BORDERS"), rounded_borders);
    let show_main_border = or_keep(read_bool(vars, "FSEL_SHOW_MAIN_BORDER"), show_main_border);
    let show_items_border = or_keep(read_bool(vars, "FSEL_SHOW_APPS_BORDER"), show_items_border);
    let show_items_border = or_keep(read_bool(vars, "FSEL_SHOW_ITEMS_BORDER"), show_items_border);
    let show_input_border = or_keep(read_bool(vars, "FSEL_SHOW_INPUT_BORDER"), show_input_border);
    let show_panel_titles = or_keep(read_bool(vars, "FSEL_SHOW_PANEL_TITLES"), show_panel_titles);
    let show_input_count = or_keep(read_bool(vars, "FSEL_SHOW_INPUT_COUNT"), show_input_count);
    let show_input_prompt = or_keep(read_bool(vars, "FSEL_SHOW_INPUT_PROMPT"), show_input_prompt);
    let show_selection_marker = or_keep(
        read_bool(vars, "FSEL_SHOW_SELECTION_MARKER"),
        show_selection_marker,
    );
    let selection_marker = string_or(vars, "FSEL_SELECTION_MARKER", selection_marker);
    let show_pin_icons = or_keep(read_bool(vars, "FSEL_SHOW_PIN_ICONS"), show_pin_icons);
    let input_panel_style = or_keep(
        read_input_panel_style(vars, "FSEL_INPUT_PANEL_STYLE"),
        input_panel_style,
    );
    let items_selection_rounded = or_keep(
        read_bool(vars, "FSEL_APPS_SELECTION_ROUNDED"),
        items_selection_rounded,
    );
    let items_selection_rounded = or_keep(
        read_bool(vars, "FSEL_ITEMS_SELECTION_ROUNDED"),
        items_selection_rounded,
    );
    let disable_mouse = or_keep(read_bool(vars, "FSEL_DISABLE_MOUSE"), disable_mouse);
    UiConfig {
        pinned_text_color,
        pinned_background_color,
        pinned_highlight_color,
        pinned_selection_background_color,
        highlight_color,
        cursor,
        hard_stop,
        rounded_borders,
        show_main_border,
        show_items_border,
        show_input_border,
        show_panel_titles,
        show_input_count,
        show_input_prompt,
        show_selection_marker,
        selection_marker,
        show_pin_icons,
        input_panel_style,
        disable_mouse,
        main_border_color,
        main_background_color,
        items_border_color,
        items_background_color,
        items_selection_background_color,
        items_selection_rounded,
        input_border_color,
        input_background_color,
        main_text_color,
        items_text_color,
        input_text_color,
        fancy_mode,
        header_title_color,
        pin_color,
        pin_icon,
    }
}

/// `new` is `old` with the variables of its section applied.
pub open spec fn panels_overridden(
    old: PanelsConfig,
    new: PanelsConfig,
    vars: Seq<(Seq<char>, Seq<char>)>,
) -> bool {
    &&& new.info_position == opt_parsed_or(
        panel_side_value(vars, "FSEL_PANELS_INFO_POSITION"@),
        old.info_position,
    )
    &&& new.input_position == opt_parsed_or(
        panel_side_value(vars, "FSEL_PANELS_INPUT_POSITION"@),
        old.input_position,
    )
    &&& new.info_size == opt_parsed_or(u16_value(vars, "FSEL_PANELS_INFO_SIZE"@), old.info_size)
    &&& new.input_size == opt_parsed_or(u16_value(vars, "FSEL_PANELS_INPUT_SIZE"@), old.input_size)
    &&& new.rotation == parsed_or(u16_value(vars, "FSEL_PANELS_ROTATION"@), old.rotation)
    &&& new.item_width == parsed_or(u16_value(vars, "FSEL_PANELS_ITEM_WIDTH"@), old.item_width)
}

fn apply_panels(c: PanelsConfig, vars: &Vec<(String, String)>) -> (r: PanelsConfig)
    ensures
        panels_overridden(c, r, env_view(vars@)),
{
    let PanelsConfig { info_position, input_position, info_size, input_size, rotation, item_width } = c;
    let info_position = or_keep_optional(
        read_panel_side(vars, "FSEL_PANELS_INFO_POSITION"),
        info_position,
    );
    let input_position = or_keep_optional(
        read_panel_side(vars, "FSEL_PANELS_INPUT_POSITION"),
        input_position,
    );
    let info_size = or_keep_optional(read_u16(vars, "FSEL_PANELS_INFO_SIZE"), info_size);
    let input_size = or_keep_optional(read_u16(vars, "FSEL_PANELS_INPUT_SIZE"), input_size);
    let rotation = or_keep(read_u16(vars, "FSEL_PANELS_ROTATION"), rotation);
    let item_width = or_keep(read_u16(vars, "FSEL_PANELS_ITEM_WIDTH"), item_width);
    PanelsConfig { info_position, input_position, info_size, input_size, rotation, item_width }
}

/// `new` is `old` with the variables of its section applied.
pub open spec fn layout_overridden(
    old: LayoutConfig,
    new: LayoutConfig,
    vars: Seq<(Seq<char>, Seq<char>)>,
) -> bool {
    &&& new.title_panel_height_percent == parsed_or(
        u16_value(vars, "FSEL_TITLE_PANEL_HEIGHT_PERCENT"@),
        old.title_panel_height_percent,
    )
    &&& new.input_panel_height == parsed_or(
        u16_value(vars, "FSEL_INPUT_PANEL_HEIGHT"@),
        old.input_panel_height,
    )
    &&& new.title_panel_position == parsed_or(
        panel_position_value(vars, "FSEL_TITLE_PANEL_POSITION"@),
        old.title_panel_position,
    )
}

fn apply_layout(c: LayoutConfig, vars: &Vec<(String, String)>) -> (r: LayoutConfig)
    ensures
        layout_overridden(c, r, env_view(vars@)),
{
    let LayoutConfig { title_panel_height_percent, input_panel_height, title_panel_position } = c;
    let title_panel_height_percent = or_keep(
        read_u16(vars, "FSEL_TITLE_PANEL_HEIGHT_PERCENT"),
        title_panel_height_percent,
    );
    let input_panel_height = or_keep(read_u16(vars, "FSEL_INPUT_PANEL_HEIGHT"), input_panel_height);
    let title_panel_position = or_keep(
        read_panel_position(vars, "FSEL_TITLE_PANEL_POSITION"),
        title_panel_position,
    );
    LayoutConfig { title_panel_height_percent, input_panel_height, title_panel_position }
}

/// `new` is `old` with the variables of its section applied.
pub open spec fn dmenu_overridden(
    old: DmenuConfig,
    new: DmenuConfig,
    vars: Seq<(Seq<char>, Seq<char>)>,
) -> bool {
    &&& opt_string_view(new.delimiter) == opt_str_or(
        vars,
        "FSEL_DMENU_DELIMITER"@,
        opt_string_view(old.delimiter),
    )
    &&& opt_string_view(new.preview) == opt_str_or(
        vars,
        "FSEL_DMENU_PREVIEW"@,
        opt_string_view(old.preview),
    )
    &&& opt_string_view(new.password_character) == opt_str_or(
        vars,
        "FSEL_DMENU_PASSWORD_CHARACTER"@,
        opt_string_view(old.password_character),
    )
    &&& new.show_line_numbers == opt_parsed_or(
        bool_value(vars, "FSEL_DMENU_SHOW_LINE_NUMBERS"@),
        old.show_line_numbers,
    )
    &&& new.wrap_long_lines == opt_parsed_or(
        bool_value(vars, "FSEL_DMENU_WRAP_LONG_LINES"@),
        old.wrap_long_lines,
    )
    &&& new.exit_if_empty == opt_parsed_or(
        bool_value(vars, "FSEL_DMENU_EXIT_IF_EMPTY"@),
        old.exit_if_empty,
    )
    &&& new.disable_mouse == opt_parsed_or(
        bool_value(vars, "FSEL_DMENU_DISABLE_MOUSE"@),
        old.disable_mouse,
    )
    &&& new.hard_stop == opt_parsed_or(bool_value(vars, "FSEL_DMENU_HARD_STOP"@), old.hard_stop)
    &&& new.rounded_borders == opt_parsed_or(
        bool_value(vars, "FSEL_DMENU_ROUNDED_BORDERS"@),
        old.rounded_borders,
    )
    &&& opt_string_view(new.cursor) == opt_str_or(
        vars,
        "FSEL_DMENU_CURSOR"@,
        opt_string_view(old.cursor),
    )
    &&& opt_string_view(new.highlight_color) == opt_str_or(
        vars,
        "FSEL_DMENU_HIGHLIGHT_COLOR"@,
        opt_string_view(old.highlight_color),
    )
    &&& opt_string_view(new.main_border_color) == opt_str_or(
        vars,
        "FSEL_DMENU_MAIN_BORDER_COLOR"@,
        opt_string_view(old.main_border_color),
    )
    &&& opt_string_view(new.items_border_color) == opt_str_or(
        vars,
        "FSEL_DMENU_ITEMS_BORDER_COLOR"@,
        opt_string_view(old.items_border_color),
    )
    &&& opt_string_view(new.input_border_color) == opt_str_or(
        vars,
        "FSEL_DMENU_INPUT_BORDER_COLOR"@,
        opt_string_view(old.input_border_color),
    )
    &&& opt_string_view(new.main_text_color) == opt_str_or(
        vars,
        "FSEL_DMENU_MAIN_TEXT_COLOR"@,
        opt_string_view(old.main_text_color),
    )
    &&& opt_string_view(new.items_text_color) == opt_str_or(
        vars,
        "FSEL_DMENU_ITEMS_TEXT_COLOR"@,
        opt_string_view(old.items_text_color),
    )
    &&& opt_string_view(new.input_text_color) == opt_str_or(
        vars,
        "FSEL_DMENU_INPUT_TEXT_COLOR"@,
        opt_string_view(old.input_text_color),
    )
    &&& opt_string_view(new.header_title_color) == opt_str_or(
        vars,
        "FSEL_DMENU_HEADER_TITLE_COLOR"@,
        opt_string_view(old.header_title_color),
    )
    &&& new.title_panel_height_percent == opt_parsed_or(
        u16_value(vars, "FSEL_DMENU_TITLE_PANEL_HEIGHT_PERCENT"@),
        old.title_panel_height_percent,
    )
    &&& new.input_panel_height == opt_parsed_or(
        u16_value(vars, "FSEL_DMENU_INPUT_PANEL_HEIGHT"@),
        old.input_panel_height,
    )
    &&& new.title_panel_position == opt_parsed_or(
        panel_position_value(vars, "FSEL_DMENU_TITLE_PANEL_POSITION"@),
        old.title_panel_position,
    )
}

fn apply_dmenu(c: DmenuConfig, vars: &Vec<(String, String)>) -> (r: DmenuConfig)
    ensures
        dmenu_overridden(c, r, env_view(vars@)),
{
    let DmenuConfig {
        delimiter,
        preview,
        password_character,
        show_line_numbers,
        wrap_long_lines,
        exit_if_empty,
        disable_mouse,
        hard_stop,
        rounded_borders,
        cursor,
        highlight_color,
        main_border_color,
        items_border_color,
        input_border_color,
        main_text_color,
        items_text_color,
        input_text_color,
        header_title_color,
        title_panel_height_percent,
        input_panel_height,
        title_panel_position,
    } = c;
    let delimiter = optional_string_or(vars, "FSEL_DMENU_DELIMITER", delimiter);
    let preview = optional_string_or(vars, "FSEL_DMENU_PREVIEW", preview);
    let password_character = optional_string_or(
        vars,
        "FSEL_DMENU_PASSWORD_CHARACTER",
        password_character,
    );
    let show_line_numbers = or_keep_optional(
        read_bool(vars, "FSEL_DMENU_SHOW_LINE_NUMBERS"),
        show_line_numbers,
    );
    let wrap_long_lines = or_keep_optional(
        read_bool(vars, "FSEL_DMENU_WRAP_LONG_LINES"),
        wrap_long_lines,
    );
    let exit_if_empty = or_keep_optional(
        read_bool(vars, "FSEL_DMENU_EXIT_IF_EMPTY"),
        exit_if_empty,
    );
    let disable_mouse = or_keep_optional(
        read_bool(vars, "FSEL_DMENU_DISABLE_MOUSE"),
        disable_mouse,
    );
    let hard_stop = or_keep_optional(read_bool(vars, "FSEL_DMENU_HARD_STOP"), hard_stop);
    let rounded_borders = or_keep_optional(
        read_bool(vars, "FSEL_DMENU_ROUNDED_BORDERS"),
        rounded_borders,
    );
    let cursor = optional_string_or(vars, "FSEL_DMENU_CURSOR", cursor);
    let highlight_color = optional_string_or(vars, "FSEL_DMENU_HIGHLIGHT_COLOR", highlight_color);
    let main_border_color = optional_string_or(
        vars,
        "FSEL_DMENU_MAIN_BORDER_COLOR",
        main_border_color,
    );
    let items_border_color = optional_string_or(
        vars,
        "FSEL_DMENU_ITEMS_BORDER_COLOR",
        items_border_color,
    );
    let input_border_color = optional_string_or(
        vars,
        "FSEL_DMENU_INPUT_BORDER_COLOR",
        input_border_color,
    );
    let main_text_color = optional_string_or(vars, "FSEL_DMENU_MAIN_TEXT_COLOR", main_text_color);
    let items_text_color = optional_string_or(
        vars,
        "FSEL_DMENU_ITEMS_TEXT_COLOR",
        items_text_color,
    );
    let input_text_color = optional_string_or(
        vars,
        "FSEL_DMENU_INPUT_TEXT_COLOR",
        input_text_color,
    );
    let header_title_color = optional_string_or(
        vars,
        "FSEL_DMENU_HEADER_TITLE_COLOR",
        header_title_color,
    );
    let title_panel_height_percent = or_keep_optional(
        read_u16(vars, "FSEL_DMENU_TITLE_PANEL_HEIGHT_PERCENT"),
        title_panel_height_percent,
    );
    let input_panel_height = or_keep_optional(
        read_u16(vars, "FSEL_DMENU_INPUT_PANEL_HEIGHT"),
        input_panel_height,
    );
    let title_panel_position = or_keep_optional(
        read_panel_position(vars, "FSEL_DMENU_TITLE_PANEL_POSITION"),
        title_panel_position,
    );
    DmenuConfig {
        delimiter,
        preview,
        password_character,
        show_line_numbers,
        wrap_long_lines,
        exit_if_empty,
        disable_mouse,
        hard_stop,
        rounded_borders,
        cursor,
        highlight_color,
        main_border_color,
        items_border_color,
        input_border_color,
        main_text_color,
        items_text_color,
        input_text_color,
        header_title_color,
        title_panel_height_percent,
        input_panel_height,
        title_panel_position,
    }
}

/// `new` is `old` with the variables of its section applied.
pub open spec fn cclip_overridden(
    old: CclipConfig,
    new: CclipConfig,
    vars: Seq<(Seq<char>, Seq<char>)>,
) -> bool {
    &&& new.image_preview == opt_parsed_or(
        bool_value(vars, "FSEL_CCLIP_IMAGE_PREVIEW"@),
        old.image_preview,
    )
    &&& new.hide_inline_image_message == opt_parsed_or(
        bool_value(vars, "FSEL_CCLIP_HIDE_INLINE_IMAGE_MESSAGE"@),
        old.hide_inline_image_message,
    )
    &&& new.show_tag_color_names == opt_parsed_or(
        bool_value(vars, "FSEL_CCLIP_SHOW_TAG_COLOR_NAMES"@),
        old.show_tag_color_names,
    )
    &&& new.show_line_numbers == opt_parsed_or(
        bool_value(vars, "FSEL_CCLIP_SHOW_LINE_NUMBERS"@),
        old.show_line_numbers,
    )
    &&& new.wrap_long_lines == opt_parsed_or(
        bool_value(vars, "FSEL_CCLIP_WRAP_LONG_LINES"@),
        old.wrap_long_lines,
    )
    &&& new.disable_mouse == opt_parsed_or(
        bool_value(vars, "FSEL_CCLIP_DISABLE_MOUSE"@),
        old.disable_mouse,
    )
    &&& new.hard_stop == opt_parsed_or(bool_value(vars, "FSEL_CCLIP_HARD_STOP"@), old.hard_stop)
    &&& new.rounded_borders == opt_parsed_or(
        bool_value(vars, "FSEL_CCLIP_ROUNDED_BORDERS"@),
        old.rounded_borders,
    )
    &&& opt_string_view(new.cursor) == opt_str_or(
        vars,
        "FSEL_CCLIP_CURSOR"@,
        opt_string_view(old.cursor),
    )
    &&& opt_string_view(new.highlight_color) == opt_str_or(
        vars,
        "FSEL_CCLIP_HIGHLIGHT_COLOR"@,
        opt_string_view(old.highlight_color),
    )
    &&& opt_string_view(new.main_border_color) == opt_str_or(
        vars,
        "FSEL_CCLIP_MAIN_BORDER_COLOR"@,
        opt_string_view(old.main_border_color),
    )
    &&& opt_string_view(new.items_border_color) == opt_str_or(
        vars,
        "FSEL_CCLIP_ITEMS_BORDER_COLOR"@,
        opt_string_view(old.items_border_color),
    )
    &&& opt_string_view(new.input_border_color) == opt_str_or(
        vars,
        "FSEL_CCLIP_INPUT_BORDER_COLOR"@,
        opt_string_view(old.input_border_color),
    )
    &&& opt_string_view(new.main_text_color) == opt_str_or(
        vars,
        "FSEL_CCLIP_MAIN_TEXT_COLOR"@,
        opt_string_view(old.main_text_color),
    )
    &&& opt_string_view(new.items_text_color) == opt_str_or(
        vars,
        "FSEL_CCLIP_ITEMS_TEXT_COLOR"@,
        opt_string_view(old.items_text_color),
    )
    &&& opt_string_view(new.input_text_color) == opt_str_or(
        vars,
        "FSEL_CCLIP_INPUT_TEXT_COLOR"@,
        opt_string_view(old.input_text_color),
    )
    &&& opt_string_view(new.header_title_color) == opt_str_or(
        vars,
        "FSEL_CCLIP_HEADER_TITLE_COLOR"@,
        opt_string_view(old.header_title_color),
    )
    &&& new.title_panel_height_percent == opt_parsed_or(
        u16_value(vars, "FSEL_CCLIP_TITLE_PANEL_HEIGHT_PERCENT"@),
        old.title_panel_height_percent,
    )
    &&& new.input_panel_height == opt_parsed_or(
        u16_value(vars, "FSEL_CCLIP_INPUT_PANEL_HEIGHT"@),
        old.input_panel_height,
    )
    &&& new.title_panel_position == opt_parsed_or(
        panel_position_value(vars, "FSEL_CCLIP_TITLE_PANEL_POSITION"@),
        old.title_panel_position,
    )
}

fn apply_cclip(c: CclipConfig, vars: &Vec<(String, String)>) -> (r: CclipConfig)
    ensures
        cclip_overridden(c, r, env_view(vars@)),
{
    let CclipConfig {
        image_preview,
        hide_inline_image_message,
        show_tag_color_names,
        show_line_numbers,
        wrap_long_lines,
        disable_mouse,
        hard_stop,
        rounded_borders,
        cursor,
        highlight_color,
        main_border_color,
        items_border_color,
        input_border_color,
        main_text_color,
        items_text_color,
        input_text_color,
        header_title_color,
        title_panel_height_percent,
        input_panel_height,
        title_panel_position,
    } = c;
    let image_preview = or_keep_optional(
        read_bool(vars, "FSEL_CCLIP_IMAGE_PREVIEW"),
        image_preview,
    );
    let hide_inline_image_message = or_keep_optional(
        read_bool(vars, "FSEL_CCLIP_HIDE_INLINE_IMAGE_MESSAGE"),
        hide_inline_image_message,
    );
    let show_tag_color_names = or_keep_optional(
        read_bool(vars, "FSEL_CCLIP_SHOW_TAG_COLOR_NAMES"),
        show_tag_color_names,
    );
    let show_line_numbers = or_keep_optional(
        read_bool(vars, "FSEL_CCLIP_SHOW_LINE_NUMBERS"),
        show_line_numbers,
    );
    let wrap_long_lines = or_keep_optional(
        read_bool(vars, "FSEL_CCLIP_WRAP_LONG_LINES"),
        wrap_long_lines,
    );
    let disable_mouse = or_keep_optional(
        read_bool(vars, "FSEL_CCLIP_DISABLE_MOUSE"),
        disable_mouse,
    );
    let hard_stop = or_keep_optional(read_bool(vars, "FSEL_CCLIP_HARD_STOP"), hard_stop);
    let rounded_borders = or_keep_optional(
        read_bool(vars, "FSEL_CCLIP_ROUNDED_BORDERS"),
        rounded_borders,
    );
    let cursor = optional_string_or(vars, "FSEL_CCLIP_CURSOR", cursor);
    let highlight_color = optional_string_or(vars, "FSEL_CCLIP_HIGHLIGHT_COLOR", highlight_color);
    let main_border_color = optional_string_or(
        vars,
        "FSEL_CCLIP_MAIN_BORDER_COLOR",
        main_border_color,
    );
    let items_border_color = optional_string_or(
        vars,
        "FSEL_CCLIP_ITEMS_BORDER_COLOR",
        items_border_color,
    );
    let input_border_color = optional_string_or(
        vars,
        "FSEL_CCLIP_INPUT_BORDER_COLOR",
        input_border_color,
    );
    let main_text_color = optional_string_or(vars, "FSEL_CCLIP_MAIN_TEXT_COLOR", main_text_color);
    let items_text_color = optional_string_or(
        vars,
        "FSEL_CCLIP_ITEMS_TEXT_COLOR",
        items_text_color,
    );
    let input_text_color = optional_string_or(
        vars,
        "FSEL_CCLIP_INPUT_TEXT_COLOR",
        input_text_color,
    );
    let header_title_color = optional_string_or(
        vars,
        "FSEL_CCLIP_HEADER_TITLE_COLOR",
        header_title_color,
    );
    let title_panel_height_percent = or_keep_optional(
        read_u16(vars, "FSEL_CCLIP_TITLE_PANEL_HEIGHT_PERCENT"),
        title_panel_height_percent,
    );
    let input_panel_height = or_keep_optional(
        read_u16(vars, "FSEL_CCLIP_INPUT_PANEL_HEIGHT"),
        input_panel_height,
    );
    let title_panel_position = or_keep_optional(
        read_panel_position(vars, "FSEL_CCLIP_TITLE_PANEL_POSITION"),
        title_panel_position,
    );
    CclipConfig {
        image_preview,
        hide_inline_image_message,
        show_tag_color_names,
        show_line_numbers,
        wrap_long_lines,
        disable_mouse,
        hard_stop,
        rounded_borders,
        cursor,
        highlight_color,
        main_border_color,
        items_border_color,
        input_border_color,
        main_text_color,
        items_text_color,
        input_text_color,
        header_title_color,
        title_panel_height_percent,
        input_panel_height,
        title_panel_position,
    }
}

/// `new` is `old` with the variables of its section applied.
pub open spec fn app_launcher_overridden(
    old: AppLauncherConfig,
    new: AppLauncherConfig,
    vars: Seq<(Seq<char>, Seq<char>)>,
) -> bool {
    &&& new.filter_desktop == opt_parsed_or(
        bool_value(vars, "FSEL_APP_LAUNCHER_FILTER_DESKTOP"@),
        old.filter_desktop,
    )
    &&& new.filter_actions == opt_parsed_or(
        bool_value(vars, "FSEL_APP_LAUNCHER_FILTER_ACTIONS"@),
        old.filter_actions,
    )
    &&& new.auto_hide_duplicates == opt_parsed_or(
        bool_value(vars, "FSEL_APP_LAUNCHER_AUTO_HIDE_DUPLICATES"@),
        old.auto_hide_duplicates,
    )
    &&& new.list_executables_in_path == opt_parsed_or(
        bool_value(vars, "FSEL_APP_LAUNCHER_LIST_EXECUTABLES_IN_PATH"@),
        old.list_executables_in_path,
    )
    &&& new.hide_before_typing == opt_parsed_or(
        bool_value(vars, "FSEL_APP_LAUNCHER_HIDE_BEFORE_TYPING"@),
        old.hide_before_typing,
    )
    &&& opt_strings_view(new.launch_prefix) == opt_parsed_or(
        launch_prefix_value(vars, "FSEL_APP_LAUNCHER_LAUNCH_PREFIX"@),
        opt_strings_view(old.launch_prefix),
    )
    &&& new.match_mode == opt_parsed_or(
        match_mode_value(vars, "FSEL_APP_LAUNCHER_MATCH_MODE"@),
        old.match_mode,
    )
    &&& new.ranking_mode == opt_parsed_or(
        ranking_mode_value(vars, "FSEL_APP_LAUNCHER_RANKING_MODE"@),
        old.ranking_mode,
    )
    &&& new.pinned_order == opt_parsed_or(
        pinned_order_value(vars, "FSEL_APP_LAUNCHER_PINNED_ORDER"@),
        old.pinned_order,
    )
    &&& new.confirm_first_launch == opt_parsed_or(
        bool_value(vars, "FSEL_APP_LAUNCHER_CONFIRM_FIRST_LAUNCH"@),
        old.confirm_first_launch,
    )
    &&& new.prefix_depth == opt_parsed_or(
        usize_value(vars, "FSEL_APP_LAUNCHER_PREFIX_DEPTH"@),
        old.prefix_depth,
    )
    &&& new.icon_mode == opt_parsed_or(
        desktop_icon_value(vars, "FSEL_APP_LAUNCHER_ICON_MODE"@),
        old.icon_mode,
    )
    &&& new.icon_position == opt_parsed_or(
        horizontal_position_value(vars, "FSEL_APP_LAUNCHER_ICON_POSITION"@),
        old.icon_position,
    )
    &&& new.icon_preview_width_percent == opt_parsed_or(
        u16_value(vars, "FSEL_APP_LAUNCHER_ICON_PREVIEW_WIDTH_PERCENT"@),
        old.icon_preview_width_percent,
    )
    &&& new.icon_list_width == opt_parsed_or(
        u16_value(vars, "FSEL_APP_LAUNCHER_ICON_LIST_WIDTH"@),
        old.icon_list_width,
    )
    &&& new.icon_list_height == opt_parsed_or(
        u16_value(vars, "FSEL_APP_LAUNCHER_ICON_LIST_HEIGHT"@),
        old.icon_list_height,
    )
    &&& new.icon_list_gap == opt_parsed_or(
        u16_value(vars, "FSEL_APP_LAUNCHER_ICON_LIST_GAP"@),
        old.icon_list_gap,
    )
    &&& new.icon_list_vertical_align_percent == opt_parsed_or(
        i16_value(vars, "FSEL_APP_LAUNCHER_ICON_LIST_VERTICAL_ALIGN_PERCENT"@),
        old.icon_list_vertical_align_percent,
    )
    &&& new.icon_arrow_before == opt_parsed_or(
        bool_value(vars, "FSEL_APP_LAUNCHER_ICON_ARROW_BEFORE"@),
        old.icon_arrow_before,
    )
    &&& new.icon_size == opt_parsed_or(
        u16_value(vars, "FSEL_APP_LAUNCHER_ICON_SIZE"@),
        old.icon_size,
    )
    &&& new.icon_horizontal_align_percent == opt_parsed_or(
        u16_value(vars, "FSEL_APP_LAUNCHER_ICON_HORIZONTAL_ALIGN_PERCENT"@),
        old.icon_horizontal_align_percent,
    )
    &&& new.icon_vertical_align_percent == opt_parsed_or(
        u16_value(vars, "FSEL_APP_LAUNCHER_ICON_VERTICAL_ALIGN_PERCENT"@),
        old.icon_vertical_align_percent,
    )
    &&& opt_string_view(new.icon_theme) == opt_str_or(
        vars,
        "FSEL_APP_LAUNCHER_ICON_THEME"@,
        opt_string_view(old.icon_theme),
    )
}

fn apply_app_launcher(c: AppLauncherConfig, vars: &Vec<(String, String)>) -> (r: AppLauncherConfig)
    ensures
        app_launcher_overridden(c, r, env_view(vars@)),
{
    let AppLauncherConfig {
        filter_desktop,
        filter_actions,
        auto_hide_duplicates,
        list_executables_in_path,
        hide_before_typing,
        launch_prefix,
        match_mode,
        ranking_mode,
        pinned_order,
        confirm_first_launch,
        prefix_depth,
        icon_mode,
        icon_position,
        icon_preview_width_percent,
        icon_list_width,
        icon_list_height,
        icon_list_gap,
        icon_list_vertical_align_percent,
        icon_arrow_before,
        icon_size,
        icon_horizontal_align_percent,
        icon_vertical_align_percent,
        icon_theme,
    } = c;
    let filter_desktop = or_keep_optional(
        read_bool(vars, "FSEL_APP_LAUNCHER_FILTER_DESKTOP"),
        filter_desktop,
    );
    let filter_actions = or_keep_optional(
        read_bool(vars, "FSEL_APP_LAUNCHER_FILTER_ACTIONS"),
        filter_actions,
    );
    let auto_hide_duplicates = or_keep_optional(
        read_bool(vars, "FSEL_APP_LAUNCHER_AUTO_HIDE_DUPLICATES"),
        auto_hide_duplicates,
    );
    let list_executables_in_path = or_keep_optional(
        read_bool(vars, "FSEL_APP_LAUNCHER_LIST_EXECUTABLES_IN_PATH"),
        list_executables_in_path,
    );
    let hide_before_typing = or_keep_optional(
        read_bool(vars, "FSEL_APP_LAUNCHER_HIDE_BEFORE_TYPING"),
        hide_before_typing,
    );
    let launch_prefix = launch_prefix_or(vars, "FSEL_APP_LAUNCHER_LAUNCH_PREFIX", launch_prefix);
    let match_mode = or_keep_optional(
        read_match_mode(vars, "FSEL_APP_LAUNCHER_MATCH_MODE"),
        match_mode,
    );
    let ranking_mode = or_keep_optional(
        read_ranking_mode(vars, "FSEL_APP_LAUNCHER_RANKING_MODE"),
        ranking_mode,
    );
    let pinned_order = or_keep_optional(
        read_pinned_order(vars, "FSEL_APP_LAUNCHER_PINNED_ORDER"),
        pinned_order,
    );
    let confirm_first_launch = or_keep_optional(
        read_bool(vars, "FSEL_APP_LAUNCHER_CONFIRM_FIRST_LAUNCH"),
        confirm_first_launch,
    );
    let prefix_depth = or_keep_optional(
        read_usize(vars, "FSEL_APP_LAUNCHER_PREFIX_DEPTH"),
        prefix_depth,
    );
    let icon_mode = or_keep_optional(
        read_desktop_icon_mode(vars, "FSEL_APP_LAUNCHER_ICON_MODE"),
        icon_mode,
    );
    let icon_position = or_keep_optional(
        read_horizontal_position(vars, "FSEL_APP_LAUNCHER_ICON_POSITION"),
        icon_position,
    );
    let icon_preview_width_percent = or_keep_optional(
        read_u16(vars, "FSEL_APP_LAUNCHER_ICON_PREVIEW_WIDTH_PERCENT"),
        icon_preview_width_percent,
    );
    let icon_list_width = or_keep_optional(
        read_u16(vars, "FSEL_APP_LAUNCHER_ICON_LIST_WIDTH"),
        icon_list_width,
    );
    let icon_list_height = or_keep_optional(
        read_u16(vars, "FSEL_APP_LAUNCHER_ICON_LIST_HEIGHT"),
        icon_list_height,
    );
    let icon_list_gap = or_keep_optional(
        read_u16(vars, "FSEL_APP_LAUNCHER_ICON_LIST_GAP"),
        icon_list_gap,
    );
    let icon_list_vertical_align_percent = or_keep_optional(
        read_i16(vars, "FSEL_APP_LAUNCHER_ICON_LIST_VERTICAL_ALIGN_PERCENT"),
        icon_list_vertical_align_percent,
    );
    let icon_arrow_before = or_keep_optional(
        read_bool(vars, "FSEL_APP_LAUNCHER_ICON_ARROW_BEFORE"),
        icon_arrow_before,
    );
    let icon_size = or_keep_optional(read_u16(vars, "FSEL_APP_LAUNCHER_ICON_SIZE"), icon_size);
    let icon_horizontal_align_percent = or_keep_optional(
        read_u16(vars, "FSEL_APP_LAUNCHER_ICON_HORIZONTAL_ALIGN_PERCENT"),
        icon_horizontal_align_percent,
    );
    let icon_vertical_align_percent = or_keep_optional(
        read_u16(vars, "FSEL_APP_LAUNCHER_ICON_VERTICAL_ALIGN_PERCENT"),
        icon_vertical_align_percent,
    );
    let icon_theme = optional_string_or(vars, "FSEL_APP_LAUNCHER_ICON_THEME", icon_theme);
    AppLauncherConfig {
        filter_desktop,
        filter_actions,
        auto_hide_duplicates,
        list_executables_in_path,
        hide_before_typing,
        launch_prefix,
        match_mode,
        ranking_mode,
        pinned_order,
        confirm_first_launch,
        prefix_depth,
        icon_mode,
        icon_position,
        icon_preview_width_percent,
        icon_list_width,
        icon_list_height,
        icon_list_gap,
        icon_list_vertical_align_percent,
        icon_arrow_before,
        icon_size,
        icon_horizontal_align_percent,
        icon_vertical_align_percent,
        icon_theme,
    }
}

/// `new` is `old` with every set variable applied, in order, so that of
/// two names for one setting the later one wins.
pub open spec fn overridden(
    old: FselConfig,
    new: FselConfig,
    vars: Seq<(Seq<char>, Seq<char>)>,
) -> bool {
    &&& general_overridden(old.general, new.general, vars)
    &&& ui_overridden(old.ui, new.ui, vars)
    &&& panels_overridden(old.panels, new.panels, vars)
    &&& layout_overridden(old.layout, new.layout, vars)
    &&& dmenu_overridden(old.dmenu, new.dmenu, vars)
    &&& cclip_overridden(old.cclip, new.cclip, vars)
    &&& app_launcher_overridden(old.app_launcher, new.app_launcher, vars)
}

/// Every variable name the overrides read, in the order they are read:
/// the general settings, the interface, the layout, dmenu, the clipboard
/// browser and the launcher.
pub open spec fn override_keys() -> Seq<Seq<char>> {
    seq![
        "FSEL_TERMINAL_LAUNCHER"@,
        "FSEL_FILTER_DESKTOP"@,
        "FSEL_LIST_EXECUTABLES_IN_PATH"@,
        "FSEL_HIDE_BEFORE_TYPING"@,
        "FSEL_MATCH_MODE"@,
        "FSEL_RANKING_MODE"@,
        "FSEL_PINNED_ORDER"@,
        "FSEL_SYSTEMD_RUN"@,
        "FSEL_UWSM"@,
        "FSEL_DETACH"@,
        "FSEL_NO_EXEC"@,
        "FSEL_CONFIRM_FIRST_LAUNCH"@,
        "FSEL_PREFIX_DEPTH"@,
        "FSEL_HIGHLIGHT_COLOR"@,
        "FSEL_MAIN_BORDER_COLOR"@,
        "FSEL_MAIN_BACKGROUND_COLOR"@,
        "FSEL_APPS_BACKGROUND_COLOR"@,
        "FSEL_ITEMS_BACKGROUND_COLOR"@,
        "FSEL_APPS_BORDER_COLOR"@,
        "FSEL_ITEMS_BORDER_COLOR"@,
        "FSEL_APPS_SELECTION_BACKGROUND_COLOR"@,
        "FSEL_ITEMS_SELECTION_BACKGROUND_COLOR"@,
        "FSEL_INPUT_BACKGROUND_COLOR"@,
        "FSEL_INPUT_BORDER_COLOR"@,
        "FSEL_MAIN_TEXT_COLOR"@,
        "FSEL_APPS_TEXT_COLOR"@,
        "FSEL_ITEMS_TEXT_COLOR"@,
        "FSEL_INPUT_TEXT_COLOR"@,
        "FSEL_HEADER_TITLE_COLOR"@,
        "FSEL_CURSOR"@,
        "FSEL_HARD_STOP"@,
        "FSEL_ROUNDED_BORDERS"@,
        "FSEL_SHOW_MAIN_BORDER"@,
        "FSEL_SHOW_APPS_BORDER"@,
        "FSEL_SHOW_ITEMS_BORDER"@,
        "FSEL_SHOW_INPUT_BORDER"@,
        "FSEL_SHOW_PANEL_TITLES"@,
        "FSEL_SHOW_INPUT_COUNT"@,
        "FSEL_SHOW_INPUT_PROMPT"@,
        "FSEL_SHOW_SELECTION_MARKER"@,
        "FSEL_SELECTION_MARKER"@,
        "FSEL_SHOW_PIN_ICONS"@,
        "FSEL_INPUT_PANEL_STYLE"@,
        "FSEL_APPS_SELECTION_ROUNDED"@,
        "FSEL_ITEMS_SELECTION_ROUNDED"@,
        "FSEL_DISABLE_MOUSE"@,
        "FSEL_PANELS_INFO_POSITION"@,
        "FSEL_PANELS_INPUT_POSITION"@,
        "FSEL_PANELS_INFO_SIZE"@,
        "FSEL_PANELS_INPUT_SIZE"@,
        "FSEL_PANELS_ROTATION"@,
        "FSEL_PANELS_ITEM_WIDTH"@,
        "FSEL_TITLE_PANEL_HEIGHT_PERCENT"@,
        "FSEL_INPUT_PANEL_HEIGHT"@,
        "FSEL_TITLE_PANEL_POSITION"@,
        "FSEL_DMENU_DELIMITER"@,
        "FSEL_DMENU_PREVIEW"@,
        "FSEL_DMENU_PASSWORD_CHARACTER"@,
        "FSEL_DMENU_SHOW_LINE_NUMBERS"@,
        "FSEL_DMENU_WRAP_LONG_LINES"@,
        "FSEL_DMENU_EXIT_IF_EMPTY"@,
        "FSEL_DMENU_DISABLE_MOUSE"@,
        "FSEL_DMENU_HARD_STOP"@,
        "FSEL_DMENU_ROUNDED_BORDERS"@,
        "FSEL_DMENU_CURSOR"@,
        "FSEL_DMENU_HIGHLIGHT_COLOR"@,
        "FSEL_DMENU_MAIN_BORDER_COLOR"@,
        "FSEL_DMENU_ITEMS_BORDER_COLOR"@,
        "FSEL_DMENU_INPUT_BORDER_COLOR"@,
        "FSEL_DMENU_MAIN_TEXT_COLOR"@,
        "FSEL_DMENU_ITEMS_TEXT_COLOR"@,
        "FSEL_DMENU_INPUT_TEXT_COLOR"@,
        "FSEL_DMENU_HEADER_TITLE_COLOR"@,
        "FSEL_DMENU_TITLE_PANEL_HEIGHT_PERCENT"@,
        "FSEL_DMENU_INPUT_PANEL_HEIGHT"@,
        "FSEL_DMENU_TITLE_PANEL_POSITION"@,
        "FSEL_CCLIP_IMAGE_PREVIEW"@,
        "FSEL_CCLIP_HIDE_INLINE_IMAGE_MESSAGE"@,
        "FSEL_CCLIP_SHOW_TAG_COLOR_NAMES"@,
        "FSEL_CCLIP_SHOW_LINE_NUMBERS"@,
        "FSEL_CCLIP_WRAP_LONG_LINES"@,
        "FSEL_CCLIP_DISABLE_MOUSE"@,
        "FSEL_CCLIP_HARD_STOP"@,
        "FSEL_CCLIP_ROUNDED_BORDERS"@,
        "FSEL_CCLIP_CURSOR"@,
        "FSEL_CCLIP_HIGHLIGHT_COLOR"@,
        "FSEL_CCLIP_MAIN_BORDER_COLOR"@,
        "FSEL_CCLIP_ITEMS_BORDER_COLOR"@,
        "FSEL_CCLIP_INPUT_BORDER_COLOR"@,
        "FSEL_CCLIP_MAIN_TEXT_COLOR"@,
        "FSEL_CCLIP_ITEMS_TEXT_COLOR"@,
        "FSEL_CCLIP_INPUT_TEXT_COLOR"@,
        "FSEL_CCLIP_HEADER_TITLE_COLOR"@,
        "FSEL_CCLIP_TITLE_PANEL_HEIGHT_PERCENT"@,
        "FSEL_CCLIP_INPUT_PANEL_HEIGHT"@,
        "FSEL_CCLIP_TITLE_PANEL_POSITION"@,
        "FSEL_APP_LAUNCHER_FILTER_DESKTOP"@,
        "FSEL_APP_LAUNCHER_FILTER_ACTIONS"@,
        "FSEL_APP_LAUNCHER_AUTO_HIDE_DUPLICATES"@,
        "FSEL_APP_LAUNCHER_LIST_EXECUTABLES_IN_PATH"@,
        "FSEL_APP_LAUNCHER_HIDE_BEFORE_TYPING"@,
        "FSEL_APP_LAUNCHER_LAUNCH_PREFIX"@,
        "FSEL_APP_LAUNCHER_MATCH_MODE"@,
        "FSEL_APP_LAUNCHER_RANKING_MODE"@,
        "FSEL_APP_LAUNCHER_PINNED_ORDER"@,
        "FSEL_APP_LAUNCHER_CONFIRM_FIRST_LAUNCH"@,
        "FSEL_APP_LAUNCHER_PREFIX_DEPTH"@,
        "FSEL_APP_LAUNCHER_ICON_MODE"@,
        "FSEL_APP_LAUNCHER_ICON_POSITION"@,
        "FSEL_APP_LAUNCHER_ICON_PREVIEW_WIDTH_PERCENT"@,
        "FSEL_APP_LAUNCHER_ICON_LIST_WIDTH"@,
        "FSEL_APP_LAUNCHER_ICON_LIST_HEIGHT"@,
        "FSEL_APP_LAUNCHER_ICON_LIST_GAP"@,
        "FSEL_APP_LAUNCHER_ICON_LIST_VERTICAL_ALIGN_PERCENT"@,
        "FSEL_APP_LAUNCHER_ICON_ARROW_BEFORE"@,
        "FSEL_APP_LAUNCHER_ICON_SIZE"@,
        "FSEL_APP_LAUNCHER_ICON_HORIZONTAL_ALIGN_PERCENT"@,
        "FSEL_APP_LAUNCHER_ICON_VERTICAL_ALIGN_PERCENT"@,
        "FSEL_APP_LAUNCHER_ICON_THEME"@,
    ]
}

fn override_key_table() -> (t: Vec<&'static str>)
    ensures
        t@.map_values(|k: &'static str| k@) == override_keys(),
{
    let t = vec![
        "FSEL_TERMINAL_LAUNCHER",
        "FSEL_FILTER_DESKTOP",
        "FSEL_LIST_EXECUTABLES_IN_PATH",
        "FSEL_HIDE_BEFORE_TYPING",
        "FSEL_MATCH_MODE",
        "FSEL_RANKING_MODE",
        "FSEL_PINNED_ORDER",
        "FSEL_SYSTEMD_RUN",
        "FSEL_UWSM",
        "FSEL_DETACH",
        "FSEL_NO_EXEC",
        "FSEL_CONFIRM_FIRST_LAUNCH",
        "FSEL_PREFIX_DEPTH",
        "FSEL_HIGHLIGHT_COLOR",
        "FSEL_MAIN_BORDER_COLOR",
        "FSEL_MAIN_BACKGROUND_COLOR",
        "FSEL_APPS_BACKGROUND_COLOR",
        "FSEL_ITEMS_BACKGROUND_COLOR",
        "FSEL_APPS_BORDER_COLOR",
        "FSEL_ITEMS_BORDER_COLOR",
        "FSEL_APPS_SELECTION_BACKGROUND_COLOR",
        "FSEL_ITEMS_SELECTION_BACKGROUND_COLOR",
        "FSEL_INPUT_BACKGROUND_COLOR",
        "FSEL_INPUT_BORDER_COLOR",
        "FSEL_MAIN_TEXT_COLOR",
        "FSEL_APPS_TEXT_COLOR",
        "FSEL_ITEMS_TEXT_COLOR",
        "FSEL_INPUT_TEXT_COLOR",
        "FSEL_HEADER_TITLE_COLOR",
        "FSEL_CURSOR",
        "FSEL_HARD_STOP",
        "FSEL_ROUNDED_BORDERS",
        "FSEL_SHOW_MAIN_BORDER",
        "FSEL_SHOW_APPS_BORDER",
        "FSEL_SHOW_ITEMS_BORDER",
        "FSEL_SHOW_INPUT_BORDER",
        "FSEL_SHOW_PANEL_TITLES",
        "FSEL_SHOW_INPUT_COUNT",
        "FSEL_SHOW_INPUT_PROMPT",
        "FSEL_SHOW_SELECTION_MARKER",
        "FSEL_SELECTION_MARKER",
        "FSEL_SHOW_PIN_ICONS",
        "FSEL_INPUT_PANEL_STYLE",
        "FSEL_APPS_SELECTION_ROUNDED",
        "FSEL_ITEMS_SELECTION_ROUNDED",
        "FSEL_DISABLE_MOUSE",
        "FSEL_PANELS_INFO_POSITION",
        "FSEL_PANELS_INPUT_POSITION",
        "FSEL_PANELS_INFO_SIZE",
        "FSEL_PANELS_INPUT_SIZE",
        "FSEL_PANELS_ROTATION",
        "FSEL_PANELS_ITEM_WIDTH",
        "FSEL_TITLE_PANEL_HEIGHT_PERCENT",
        "FSEL_INPUT_PANEL_HEIGHT",
        "FSEL_TITLE_PANEL_POSITION",
        "FSEL_DMENU_DELIMITER",
        "FSEL_DMENU_PREVIEW",
        "FSEL_DMENU_PASSWORD_CHARACTER",
        "FSEL_DMENU_SHOW_LINE_NUMBERS",
        "FSEL_DMENU_WRAP_LONG_LINES",
        "FSEL_DMENU_EXIT_IF_EMPTY",
        "FSEL_DMENU_DISABLE_MOUSE",
        "FSEL_DMENU_HARD_STOP",
        "FSEL_DMENU_ROUNDED_BORDERS",
        "FSEL_DMENU_CURSOR",
        "FSEL_DMENU_HIGHLIGHT_COLOR",
        "FSEL_DMENU_MAIN_BORDER_COLOR",
        "FSEL_DMENU_ITEMS_BORDER_COLOR",
        "FSEL_DMENU_INPUT_BORDER_COLOR",
        "FSEL_DMENU_MAIN_TEXT_COLOR",
        "FSEL_DMENU_ITEMS_TEXT_COLOR",
        "FSEL_DMENU_INPUT_TEXT_COLOR",
        "FSEL_DMENU_HEADER_TITLE_COLOR",
        "FSEL_DMENU_TITLE_PANEL_HEIGHT_PERCENT",
        "FSEL_DMENU_INPUT_PANEL_HEIGHT",
        "FSEL_DMENU_TITLE_PANEL_POSITION",
        "FSEL_CCLIP_IMAGE_PREVIEW",
        "FSEL_CCLIP_HIDE_INLINE_IMAGE_MESSAGE",
        "FSEL_CCLIP_SHOW_TAG_COLOR_NAMES",
        "FSEL_CCLIP_SHOW_LINE_NUMBERS",
        "FSEL_CCLIP_WRAP_LONG_LINES",
        "FSEL_CCLIP_DISABLE_MOUSE",
        "FSEL_CCLIP_HARD_STOP",
        "FSEL_CCLIP_ROUNDED_BORDERS",
        "FSEL_CCLIP_CURSOR",
        "FSEL_CCLIP_HIGHLIGHT_COLOR",
        "FSEL_CCLIP_MAIN_BORDER_COLOR",
        "FSEL_CCLIP_ITEMS_BORDER_COLOR",
        "FSEL_CCLIP_INPUT_BORDER_COLOR",
        "FSEL_CCLIP_MAIN_TEXT_COLOR",
        "FSEL_CCLIP_ITEMS_TEXT_COLOR",
        "FSEL_CCLIP_INPUT_TEXT_COLOR",
        "FSEL_CCLIP_HEADER_TITLE_COLOR",
        "FSEL_CCLIP_TITLE_PANEL_HEIGHT_PERCENT",
        "FSEL_CCLIP_INPUT_PANEL_HEIGHT",
        "FSEL_CCLIP_TITLE_PANEL_POSITION",
        "FSEL_APP_LAUNCHER_FILTER_DESKTOP",
        "FSEL_APP_LAUNCHER_FILTER_ACTIONS",
        "FSEL_APP_LAUNCHER_AUTO_HIDE_DUPLICATES",
        "FSEL_APP_LAUNCHER_LIST_EXECUTABLES_IN_PATH",
        "FSEL_APP_LAUNCHER_HIDE_BEFORE_TYPING",
        "FSEL_APP_LAUNCHER_LAUNCH_PREFIX",
        "FSEL_APP_LAUNCHER_MATCH_MODE",
        "FSEL_APP_LAUNCHER_RANKING_MODE",
        "FSEL_APP_LAUNCHER_PINNED_ORDER",
        "FSEL_APP_LAUNCHER_CONFIRM_FIRST_LAUNCH",
        "FSEL_APP_LAUNCHER_PREFIX_DEPTH",
        "FSEL_APP_LAUNCHER_ICON_MODE",
        "FSEL_APP_LAUNCHER_ICON_POSITION",
        "FSEL_APP_LAUNCHER_ICON_PREVIEW_WIDTH_PERCENT",
        "FSEL_APP_LAUNCHER_ICON_LIST_WIDTH",
        "FSEL_APP_LAUNCHER_ICON_LIST_HEIGHT",
        "FSEL_APP_LAUNCHER_ICON_LIST_GAP",
        "FSEL_APP_LAUNCHER_ICON_LIST_VERTICAL_ALIGN_PERCENT",
        "FSEL_APP_LAUNCHER_ICON_ARROW_BEFORE",
        "FSEL_APP_LAUNCHER_ICON_SIZE",
        "FSEL_APP_LAUNCHER_ICON_HORIZONTAL_ALIGN_PERCENT",
        "FSEL_APP_LAUNCHER_ICON_VERTICAL_ALIGN_PERCENT",
        "FSEL_APP_LAUNCHER_ICON_THEME",
    ];
    assert(t@.map_values(|k: &'static str| k@) =~= override_keys());
    t
}

/// The names of `keys` before the first `k` (all of them when `k` is
/// not among them).
pub open spec fn keys_before(keys: Seq<Seq<char>>, k: Seq<char>) -> Seq<Seq<char>>
    decreases keys.len(),
{
    if keys.len() == 0 || keys[0] == k {
        seq![]
    } else {
        seq![keys[0]] + keys_before(keys.drop_first(), k)
    }
}

/// The variables of `vars` named by one of `names`, in order.
pub open spec fn vars_among(
    vars: Seq<(Seq<char>, Seq<char>)>,
    names: Seq<Seq<char>>,
) -> Seq<(Seq<char>, Seq<char>)>
    decreases vars.len(),
{
    if vars.len() == 0 {
        seq![]
    } else {
        let rest = vars_among(vars.drop_last(), names);
        if names.contains(vars.last().0) {
            rest.push(vars.last())
        } else {
            rest
        }
    }
}

/// The names read before `k`.
fn names_read_before(k: &str) -> (r: Vec<String>)
    ensures
        strings_view(r@) == keys_before(override_keys(), k@),
{
    let table = override_key_table();
    let ghost keys = override_keys();
    let kc = crate::text::chars_of(k);
    let mut out: Vec<String> = Vec::new();
    let mut i: usize = 0;
    assert(keys.skip(0) =~= keys);
    while i < table.len()
        invariant
            i <= table@.len(),
            table@.map_values(|k: &'static str| k@) == keys,
            keys == override_keys(),
            kc@ == k@,
            strings_view(out@) + keys_before(keys.skip(i as int), k@) == keys_before(keys, k@),
        decreases table@.len() - i,
    {
        let name = table[i];
        assert(keys[i as int] == name@);
        assert(keys.skip(i as int)[0] == name@);
        assert(keys.skip(i as int).drop_first() =~= keys.skip(i + 1));
        let nc = crate::text::chars_of(name);
        if crate::text::chars_eq(&nc, &kc) {
            assert(name@ == k@);
            assert(keys.skip(i as int)[0] == k@);
            assert(keys_before(keys.skip(i as int), k@) =~= Seq::<Seq<char>>::empty());
            assert(strings_view(out@) + Seq::<Seq<char>>::empty() =~= strings_view(out@));
            return out;
        }
        let ghost before = out@;
        out.push(name.to_string());
        assert(strings_view(out@) =~= strings_view(before).push(name@));
        assert(strings_view(out@) + keys_before(keys.skip(i + 1), k@) =~= strings_view(before)
            + keys_before(keys.skip(i as int), k@));
        i += 1;
    }
    assert(keys.skip(i as int) =~= Seq::<Seq<char>>::empty());
    assert(strings_view(out@) + Seq::<Seq<char>>::empty() =~= strings_view(out@));
    out
}

/// `name` is one of `names`.
fn listed(names: &Vec<String>, name: &str) -> (b: bool)
    ensures
        b == strings_view(names@).contains(name@),
{
    let nc = crate::text::chars_of(name);
    let mut i: usize = 0;
    while i < names.len()
        invariant
            i <= names@.len(),
            nc@ == name@,
            forall|j: int| 0 <= j < i ==> strings_view(names@)[j] != name@,
        decreases names@.len() - i,
    {
        let c = crate::text::chars_of(names[i].as_str());
        if crate::text::chars_eq(&c, &nc) {
            assert(strings_view(names@)[i as int] == name@);
            return true;
        }
        i += 1;
    }
    false
}

/// The variables of `vars` named by one of `names` (see [`vars_among`]).
fn vars_named(vars: &Vec<(String, String)>, names: &Vec<String>) -> (r: Vec<(String, String)>)
    ensures
        env_view(r@) == vars_among(env_view(vars@), strings_view(names@)),
{
    let ghost vv = env_view(vars@);
    let mut out: Vec<(String, String)> = Vec::new();
    let mut i: usize = 0;
    assert(vv.take(0) =~= Seq::<(Seq<char>, Seq<char>)>::empty());
    while i < vars.len()
        invariant
            i <= vars@.len(),
            vv == env_view(vars@),
            env_view(out@) == vars_among(vv.take(i as int), strings_view(names@)),
        decreases vars@.len() - i,
    {
        let ghost before = out@;
        assert(vv.take(i + 1).drop_last() =~= vv.take(i as int));
        assert(vv.take(i + 1).last() == (vars@[i as int].0@, vars@[i as int].1@));
        if listed(names, vars[i].0.as_str()) {
            out.push((vars[i].0.clone(), vars[i].1.clone()));
            assert(env_view(out@) =~= env_view(before).push((vars@[i as int].0@, vars@[i as int].1@)));
        }
        i += 1;
    }
    assert(vv.take(vars@.len() as int) =~= vv);
    out
}

/// Applies every variable of `vars` to `cfg` (see [`overridden`]).
fn apply_all(cfg: &mut FselConfig, vars: &Vec<(String, String)>)
    ensures
        overridden(*old(cfg), *final(cfg), env_view(vars@)),
{
    let mut taken = FselConfig::default();
    std::mem::swap(&mut taken, cfg);
    let FselConfig { general, ui, layout, panels, dmenu, cclip, app_launcher } = taken;
    *cfg = FselConfig {
        general: apply_general(general, vars),
        ui: apply_ui(ui, vars),
        layout: apply_layout(layout, vars),
        panels: apply_panels(panels, vars),
        dmenu: apply_dmenu(dmenu, vars),
        cclip: apply_cclip(cclip, vars),
        app_launcher: apply_app_launcher(app_launcher, vars),
    };
}

/// Applies the `FSEL_*` environment variables `vars` to `cfg`, in the
/// order they are read (see [`override_keys`]). When a variable holds a
/// value its setting cannot take, the first such one is reported, and the
/// variables read before it stay applied.
pub fn apply_overrides(cfg: &mut FselConfig, vars: &Vec<(String, String)>) -> (r: Result<
    (),
    ConfigError,
>)
    ensures
        match override_error(env_view(vars@)) {
            Some((k, v, e)) => r matches Err(
                ConfigError::InvalidEnvironmentOverride { key, value, expected },
            ) && key@ == k && value@ == v && expected@ == e && overridden(
                *old(cfg),
                *final(cfg),
                vars_among(env_view(vars@), keys_before(override_keys(), k)),
            ),
            None => r is Ok && overridden(*old(cfg), *final(cfg), env_view(vars@)),
        },
{
    match first_invalid(vars) {
        Some(e) => {
            let before = match &e {
                ConfigError::InvalidEnvironmentOverride { key, .. } => names_read_before(
                    key.as_str(),
                ),
                _ => Vec::new(),
            };
            let applied = vars_named(vars, &before);
            apply_all(cfg, &applied);
            return Err(e);
        },
        None => {},
    }
    apply_all(cfg, vars);
    Ok(())
}

} // verus!
