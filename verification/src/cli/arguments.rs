//! What each command-line option does to the option set.
use crate::cli::enums::{
    desktop_icon_named, horizontal_position_named, invalid_icon_mode_message, invalid_message,
    match_mode_named, panel_side_named, DesktopIconMode, HorizontalPosition, MatchMode, PanelSide
};
use crate::cli::options::Opts;
use crate::cli::validate::CliError;
use crate::config::overrides::{shell_split, split_shell_words};
use crate::config::schema::PanelsConfig;
use crate::desktop::entry::{opt_string_view, pieces_from, split_trimmed};
use crate::dmenu::panels::{panel_from_spec, DmenuPanel};
use crate::text::{
    chars_of, lowercase, parse_signed, parse_signed_spec, parse_unsigned, parse_unsigned_spec,
    strings_view, trim, vec_is
};
use vstd::prelude::*;

verus! {

/// A command-line argument as the parser hands it out.
pub enum CliArg {
    /// `-c`
    Short(char),
    /// `--name`, without the dashes.
    Long(String),
    /// A positional argument, as text.
    Positional(String),
}

/// An argument as plain values.
pub enum ArgView {
    Short(char),
    Long(Seq<char>),
    Positional(Seq<char>),
}

pub open spec fn arg_view(a: CliArg) -> ArgView {
    match a {
        CliArg::Short(c) => ArgView::Short(c),
        CliArg::Long(s) => ArgView::Long(s@),
        CliArg::Positional(s) => ArgView::Positional(s@),
    }
}

/// The value read for an option that takes one.
pub enum ValueRead {
    Text(String),
    /// The value is not valid Unicode.
    NotUnicode,
    /// There is no value; the parser's message.
    Missing(String),
}

/// What was read for an option after the option itself.
pub enum Fetched {
    Nothing,
    Value(ValueRead),
    /// A value joined to the option (`--opt=value`): `Some(None)` when it is
    /// not valid Unicode.
    Optional(Option<Option<String>>),
    /// The value of `--tag` and, after `list`, a joined tag name.
    Tag(ValueRead, Option<Option<Option<String>>>),
}

/// A value read, as plain values.
pub enum ValueModel {
    Text(Seq<char>),
    NotUnicode,
    Missing(Seq<char>),
}

pub open spec fn value_view(v: ValueRead) -> ValueModel {
    match v {
        ValueRead::Text(s) => ValueModel::Text(s@),
        ValueRead::NotUnicode => ValueModel::NotUnicode,
        ValueRead::Missing(m) => ValueModel::Missing(m@),
    }
}

/// What was read after an option, as plain values.
pub enum FetchedModel {
    Nothing,
    Value(ValueModel),
    Optional(Option<Option<Seq<char>>>),
    Tag(ValueModel, Option<Option<Option<Seq<char>>>>),
}

pub open spec fn joined_view(o: Option<Option<String>>) -> Option<Option<Seq<char>>> {
    match o {
        Some(Some(s)) => Some(Some(s@)),
        Some(None) => Some(None),
        None => None,
    }
}

pub open spec fn fetched_view(f: Fetched) -> FetchedModel {
    match f {
        Fetched::Nothing => FetchedModel::Nothing,
        Fetched::Value(v) => FetchedModel::Value(value_view(v)),
        Fetched::Optional(o) => FetchedModel::Optional(joined_view(o)),
        Fetched::Tag(v, extra) => FetchedModel::Tag(
            value_view(v),
            match extra {
                Some(o) => Some(joined_view(o)),
                None => None,
            },
        ),
    }
}

/// What an option reads after itself.
#[derive(Clone, Copy, Debug, PartialEq, Eq, Structural)]
pub enum Wants {
    Nothing,
    Value,
    OptionalValue,
    TagValue,
}

/// The options, as plain values.
pub enum OptionKind {
    PanelEdit,
    Panel,
    InfoPosition,
    InputPosition,
    InfoSize,
    InputSize,
    LayoutRotation,
    ItemWidth,
    Tty,
    Replace,
    Config,
    ClearHistory,
    ClearCache,
    RefreshCache,
    ListHidden,
    Unhide,
    UnhideAll,
    NoExec,
    Stdout,
    LaunchPrefix,
    SystemdRun,
    Uwsm,
    Detach,
    Dmenu,
    Cclip,
    Tag,
    CclipShowTagColorNames,
    Dmenu0,
    Preview,
    Password,
    Index,
    IndexOriginal,
    AcceptNth,
    MatchNth,
    OnlyMatch,
    ExitIfEmpty,
    Select,
    SelectIndex,
    AutoSelect,
    PromptOnly,
    HideBeforeTyping,
    FilterDesktop,
    FilterActions,
    AutoHideDuplicates,
    ListExecutablesInPath,
    DesktopIcons,
    IconPosition,
    IconPreviewWidth,
    IconListWidth,
    IconListHeight,
    IconListGap,
    IconListVerticalAlign,
    IconArrowBefore,
    IconSize,
    IconHorizontalAlign,
    IconVerticalAlign,
    IconTheme,
    MatchModeOption,
    PrefixDepth,
    Test,
    WithNth,
    Delimiter,
    Program,
    Verbose,
    ShortHelp,
    LongHelp,
    Version,
    /// A positional argument; the parser's message.
    Unexpected(Seq<char>),
    UnknownLong(Seq<char>),
    UnknownShort(char),
}

/// The options.
pub enum CliOption {
    PanelEdit,
    Panel,
    InfoPosition,
    InputPosition,
    InfoSize,
    InputSize,
    LayoutRotation,
    ItemWidth,
    Tty,
    Replace,
    Config,
    ClearHistory,
    ClearCache,
    RefreshCache,
    ListHidden,
    Unhide,
    UnhideAll,
    NoExec,
    Stdout,
    LaunchPrefix,
    SystemdRun,
    Uwsm,
    Detach,
    Dmenu,
    Cclip,
    Tag,
    CclipShowTagColorNames,
    Dmenu0,
    Preview,
    Password,
    Index,
    IndexOriginal,
    AcceptNth,
    MatchNth,
    OnlyMatch,
    ExitIfEmpty,
    Select,
    SelectIndex,
    AutoSelect,
    PromptOnly,
    HideBeforeTyping,
    FilterDesktop,
    FilterActions,
    AutoHideDuplicates,
    ListExecutablesInPath,
    DesktopIcons,
    IconPosition,
    IconPreviewWidth,
    IconListWidth,
    IconListHeight,
    IconListGap,
    IconListVerticalAlign,
    IconArrowBefore,
    IconSize,
    IconHorizontalAlign,
    IconVerticalAlign,
    IconTheme,
    MatchModeOption,
    PrefixDepth,
    Test,
    WithNth,
    Delimiter,
    Program,
    Verbose,
    ShortHelp,
    LongHelp,
    Version,
    Unexpected(String),
    UnknownLong(String),
    UnknownShort(char),
}

pub open spec fn option_view(o: CliOption) -> OptionKind {
    match o {
        CliOption::PanelEdit => OptionKind::PanelEdit,
        CliOption::Panel => OptionKind::Panel,
        CliOption::InfoPosition => OptionKind::InfoPosition,
        CliOption::InputPosition => OptionKind::InputPosition,
        CliOption::InfoSize => OptionKind::InfoSize,
        CliOption::InputSize => OptionKind::InputSize,
        CliOption::LayoutRotation => OptionKind::LayoutRotation,
        CliOption::ItemWidth => OptionKind::ItemWidth,
        CliOption::Tty => OptionKind::Tty,
        CliOption::Replace => OptionKind::Replace,
        CliOption::Config => OptionKind::Config,
        CliOption::ClearHistory => OptionKind::ClearHistory,
        CliOption::ClearCache => OptionKind::ClearCache,
        CliOption::RefreshCache => OptionKind::RefreshCache,
        CliOption::ListHidden => OptionKind::ListHidden,
        CliOption::Unhide => OptionKind::Unhide,
        CliOption::UnhideAll => OptionKind::UnhideAll,
        CliOption::NoExec => OptionKind::NoExec,
        CliOption::Stdout => OptionKind::Stdout,
        CliOption::LaunchPrefix => OptionKind::LaunchPrefix,
        CliOption::SystemdRun => OptionKind::SystemdRun,
        CliOption::Uwsm => OptionKind::Uwsm,
        CliOption::Detach => OptionKind::Detach,
        CliOption::Dmenu => OptionKind::Dmenu,
        CliOption::Cclip => OptionKind::Cclip,
        CliOption::Tag => OptionKind::Tag,
        CliOption::CclipShowTagColorNames => OptionKind::CclipShowTagColorNames,
        CliOption::Dmenu0 => OptionKind::Dmenu0,
        CliOption::Preview => OptionKind::Preview,
        CliOption::Password => OptionKind::Password,
        CliOption::Index => OptionKind::Index,
        CliOption::IndexOriginal => OptionKind::IndexOriginal,
        CliOption::AcceptNth => OptionKind::AcceptNth,
        CliOption::MatchNth => OptionKind::MatchNth,
        CliOption::OnlyMatch => OptionKind::OnlyMatch,
        CliOption::ExitIfEmpty => OptionKind::ExitIfEmpty,
        CliOption::Select => OptionKind::Select,
        CliOption::SelectIndex => OptionKind::SelectIndex,
        CliOption::AutoSelect => OptionKind::AutoSelect,
        CliOption::PromptOnly => OptionKind::PromptOnly,
        CliOption::HideBeforeTyping => OptionKind::HideBeforeTyping,
        CliOption::FilterDesktop => OptionKind::FilterDesktop,
        CliOption::FilterActions => OptionKind::FilterActions,
        CliOption::AutoHideDuplicates => OptionKind::AutoHideDuplicates,
        CliOption::ListExecutablesInPath => OptionKind::ListExecutablesInPath,
        CliOption::DesktopIcons => OptionKind::DesktopIcons,
        CliOption::IconPosition => OptionKind::IconPosition,
        CliOption::IconPreviewWidth => OptionKind::IconPreviewWidth,
        CliOption::IconListWidth => OptionKind::IconListWidth,
        CliOption::IconListHeight => OptionKind::IconListHeight,
        CliOption::IconListGap => OptionKind::IconListGap,
        CliOption::IconListVerticalAlign => OptionKind::IconListVerticalAlign,
        CliOption::IconArrowBefore => OptionKind::IconArrowBefore,
        CliOption::IconSize => OptionKind::IconSize,
        CliOption::IconHorizontalAlign => OptionKind::IconHorizontalAlign,
        CliOption::IconVerticalAlign => OptionKind::IconVerticalAlign,
        CliOption::IconTheme => OptionKind::IconTheme,
        CliOption::MatchModeOption => OptionKind::MatchModeOption,
        CliOption::PrefixDepth => OptionKind::PrefixDepth,
        CliOption::Test => OptionKind::Test,
        CliOption::WithNth => OptionKind::WithNth,
        CliOption::Delimiter => OptionKind::Delimiter,
        CliOption::Program => OptionKind::Program,
        CliOption::Verbose => OptionKind::Verbose,
        CliOption::ShortHelp => OptionKind::ShortHelp,
        CliOption::LongHelp => OptionKind::LongHelp,
        CliOption::Version => OptionKind::Version,
        CliOption::Unexpected(m) => OptionKind::Unexpected(m@),
        CliOption::UnknownLong(n) => OptionKind::UnknownLong(n@),
        CliOption::UnknownShort(c) => OptionKind::UnknownShort(c),
    }
}

/// The option named by an argument.
pub open spec fn option_of(a: ArgView) -> OptionKind {
    match a {
        ArgView::Long(name) => long_option(name),
        ArgView::Short(c) => short_option(c),
        ArgView::Positional(m) => OptionKind::Unexpected(unexpected_argument_text(m)),
    }
}

pub open spec fn long_option(name: Seq<char>) -> OptionKind {
    if name == "panel-edit"@ {
        OptionKind::PanelEdit
    } else if name == "panel"@ {
        OptionKind::Panel
    } else if name == "info-position"@ {
        OptionKind::InfoPosition
    } else if name == "input-position"@ {
        OptionKind::InputPosition
    } else if name == "info-size"@ {
        OptionKind::InfoSize
    } else if name == "input-size"@ {
        OptionKind::InputSize
    } else if name == "layout-rotation"@ {
        OptionKind::LayoutRotation
    } else if name == "item-width"@ {
        OptionKind::ItemWidth
    } else if name == "tty"@ {
        OptionKind::Tty
    } else if name == "replace"@ {
        OptionKind::Replace
    } else if name == "config"@ {
        OptionKind::Config
    } else if name == "clear-history"@ {
        OptionKind::ClearHistory
    } else if name == "clear-cache"@ {
        OptionKind::ClearCache
    } else if name == "refresh-cache"@ {
        OptionKind::RefreshCache
    } else if name == "list-hidden"@ {
        OptionKind::ListHidden
    } else if name == "unhide"@ {
        OptionKind::Unhide
    } else if name == "unhide-all"@ {
        OptionKind::UnhideAll
    } else if name == "no-exec"@ {
        OptionKind::NoExec
    } else if name == "stdout"@ {
        OptionKind::Stdout
    } else if name == "launch-prefix"@ {
        OptionKind::LaunchPrefix
    } else if name == "systemd-run"@ {
        OptionKind::SystemdRun
    } else if name == "uwsm"@ {
        OptionKind::Uwsm
    } else if name == "detach"@ {
        OptionKind::Detach
    } else if name == "dmenu"@ {
        OptionKind::Dmenu
    } else if name == "cclip"@ {
        OptionKind::Cclip
    } else if name == "tag"@ {
        OptionKind::Tag
    } else if name == "cclip-show-tag-color-names"@ {
        OptionKind::CclipShowTagColorNames
    } else if name == "dmenu0"@ {
        OptionKind::Dmenu0
    } else if name == "preview"@ {
        OptionKind::Preview
    } else if name == "password"@ {
        OptionKind::Password
    } else if name == "index"@ {
        OptionKind::Index
    } else if name == "index-original"@ {
        OptionKind::IndexOriginal
    } else if name == "accept-nth"@ {
        OptionKind::AcceptNth
    } else if name == "match-nth"@ {
        OptionKind::MatchNth
    } else if name == "only-match"@ {
        OptionKind::OnlyMatch
    } else if name == "exit-if-empty"@ {
        OptionKind::ExitIfEmpty
    } else if name == "select"@ {
        OptionKind::Select
    } else if name == "select-index"@ {
        OptionKind::SelectIndex
    } else if name == "auto-select"@ {
        OptionKind::AutoSelect
    } else if name == "prompt-only"@ {
        OptionKind::PromptOnly
    } else if name == "hide-before-typing"@ {
        OptionKind::HideBeforeTyping
    } else if name == "filter-desktop"@ {
        OptionKind::FilterDesktop
    } else if name == "filter-actions"@ {
        OptionKind::FilterActions
    } else if name == "auto-hide-duplicates"@ {
        OptionKind::AutoHideDuplicates
    } else if name == "list-executables-in-path"@ {
        OptionKind::ListExecutablesInPath
    } else if name == "desktop-icons"@ {
        OptionKind::DesktopIcons
    } else if name == "icon-position"@ {
        OptionKind::IconPosition
    } else if name == "icon-preview-width"@ {
        OptionKind::IconPreviewWidth
    } else if name == "icon-list-width"@ {
        OptionKind::IconListWidth
    } else if name == "icon-list-height"@ {
        OptionKind::IconListHeight
    } else if name == "icon-list-gap"@ {
        OptionKind::IconListGap
    } else if name == "icon-list-vertical-align"@ {
        OptionKind::IconListVerticalAlign
    } else if name == "icon-arrow-before"@ {
        OptionKind::IconArrowBefore
    } else if name == "icon-size"@ {
        OptionKind::IconSize
    } else if name == "icon-horizontal-align"@ {
        OptionKind::IconHorizontalAlign
    } else if name == "icon-vertical-align"@ {
        OptionKind::IconVerticalAlign
    } else if name == "icon-theme"@ {
        OptionKind::IconTheme
    } else if name == "match-mode"@ {
        OptionKind::MatchModeOption
    } else if name == "prefix-depth"@ {
        OptionKind::PrefixDepth
    } else if name == "test"@ {
        OptionKind::Test
    } else if name == "with-nth"@ {
        OptionKind::WithNth
    } else if name == "delimiter"@ {
        OptionKind::Delimiter
    } else if name == "program"@ {
        OptionKind::Program
    } else if name == "verbose"@ {
        OptionKind::Verbose
    } else if name == "help"@ {
        OptionKind::LongHelp
    } else if name == "version"@ {
        OptionKind::Version
    } else {
        OptionKind::UnknownLong(name)
    }
}

pub open spec fn short_option(c: char) -> OptionKind {
    if c == 't' {
        OptionKind::Tty
    } else if c == 'r' {
        OptionKind::Replace
    } else if c == 'c' {
        OptionKind::Config
    } else if c == 'd' {
        OptionKind::Detach
    } else if c == 'T' {
        OptionKind::Test
    } else if c == 'p' {
        OptionKind::Program
    } else if c == 'v' {
        OptionKind::Verbose
    } else if c == 'h' {
        OptionKind::ShortHelp
    } else if c == 'H' {
        OptionKind::LongHelp
    } else if c == 'V' {
        OptionKind::Version
    } else {
        OptionKind::UnknownShort(c)
    }
}

/// Each long option name reads as its option.
pub proof fn lemma_long_option_names()
    ensures
        long_option("panel-edit"@) == OptionKind::PanelEdit,
        long_option("panel"@) == OptionKind::Panel,
        long_option("info-position"@) == OptionKind::InfoPosition,
        long_option("input-position"@) == OptionKind::InputPosition,
        long_option("info-size"@) == OptionKind::InfoSize,
        long_option("input-size"@) == OptionKind::InputSize,
        long_option("layout-rotation"@) == OptionKind::LayoutRotation,
        long_option("item-width"@) == OptionKind::ItemWidth,
        long_option("tty"@) == OptionKind::Tty,
        long_option("replace"@) == OptionKind::Replace,
        long_option("config"@) == OptionKind::Config,
        long_option("clear-history"@) == OptionKind::ClearHistory,
        long_option("clear-cache"@) == OptionKind::ClearCache,
        long_option("refresh-cache"@) == OptionKind::RefreshCache,
        long_option("list-hidden"@) == OptionKind::ListHidden,
        long_option("unhide"@) == OptionKind::Unhide,
        long_option("unhide-all"@) == OptionKind::UnhideAll,
        long_option("no-exec"@) == OptionKind::NoExec,
        long_option("stdout"@) == OptionKind::Stdout,
        long_option("launch-prefix"@) == OptionKind::LaunchPrefix,
        long_option("systemd-run"@) == OptionKind::SystemdRun,
        long_option("uwsm"@) == OptionKind::Uwsm,
        long_option("detach"@) == OptionKind::Detach,
        long_option("dmenu"@) == OptionKind::Dmenu,
        long_option("cclip"@) == OptionKind::Cclip,
        long_option("tag"@) == OptionKind::Tag,
        long_option("cclip-show-tag-color-names"@) == OptionKind::CclipShowTagColorNames,
        long_option("dmenu0"@) == OptionKind::Dmenu0,
        long_option("preview"@) == OptionKind::Preview,
        long_option("password"@) == OptionKind::Password,
        long_option("index"@) == OptionKind::Index,
        long_option("index-original"@) == OptionKind::IndexOriginal,
        long_option("accept-nth"@) == OptionKind::AcceptNth,
        long_option("match-nth"@) == OptionKind::MatchNth,
        long_option("only-match"@) == OptionKind::OnlyMatch,
        long_option("exit-if-empty"@) == OptionKind::ExitIfEmpty,
        long_option("select"@) == OptionKind::Select,
        long_option("select-index"@) == OptionKind::SelectIndex,
        long_option("auto-select"@) == OptionKind::AutoSelect,
        long_option("prompt-only"@) == OptionKind::PromptOnly,
        long_option("hide-before-typing"@) == OptionKind::HideBeforeTyping,
        long_option("filter-desktop"@) == OptionKind::FilterDesktop,
        long_option("filter-actions"@) == OptionKind::FilterActions,
        long_option("auto-hide-duplicates"@) == OptionKind::AutoHideDuplicates,
        long_option("list-executables-in-path"@) == OptionKind::ListExecutablesInPath,
        long_option("desktop-icons"@) == OptionKind::DesktopIcons,
        long_option("icon-position"@) == OptionKind::IconPosition,
        long_option("icon-preview-width"@) == OptionKind::IconPreviewWidth,
        long_option("icon-list-width"@) == OptionKind::IconListWidth,
        long_option("icon-list-height"@) == OptionKind::IconListHeight,
        long_option("icon-list-gap"@) == OptionKind::IconListGap,
        long_option("icon-list-vertical-align"@) == OptionKind::IconListVerticalAlign,
        long_option("icon-arrow-before"@) == OptionKind::IconArrowBefore,
        long_option("icon-size"@) == OptionKind::IconSize,
        long_option("icon-horizontal-align"@) == OptionKind::IconHorizontalAlign,
        long_option("icon-vertical-align"@) == OptionKind::IconVerticalAlign,
        long_option("icon-theme"@) == OptionKind::IconTheme,
        long_option("match-mode"@) == OptionKind::MatchModeOption,
        long_option("prefix-depth"@) == OptionKind::PrefixDepth,
        long_option("test"@) == OptionKind::Test,
        long_option("with-nth"@) == OptionKind::WithNth,
        long_option("delimiter"@) == OptionKind::Delimiter,
        long_option("program"@) == OptionKind::Program,
        long_option("verbose"@) == OptionKind::Verbose,
        long_option("help"@) == OptionKind::LongHelp,
        long_option("version"@) == OptionKind::Version,
{
    reveal_strlit("panel-edit");
    reveal_strlit("panel");
    reveal_strlit("info-position");
    reveal_strlit("input-position");
    reveal_strlit("info-size");
    reveal_strlit("input-size");
    reveal_strlit("layout-rotation");
    reveal_strlit("item-width");
    reveal_strlit("tty");
    reveal_strlit("replace");
    reveal_strlit("config");
    reveal_strlit("clear-history");
    reveal_strlit("clear-cache");
    reveal_strlit("refresh-cache");
    reveal_strlit("list-hidden");
    reveal_strlit("unhide");
    reveal_strlit("unhide-all");
    reveal_strlit("no-exec");
    reveal_strlit("stdout");
    reveal_strlit("launch-prefix");
    reveal_strlit("systemd-run");
    reveal_strlit("uwsm");
    reveal_strlit("detach");
    reveal_strlit("dmenu");
    reveal_strlit("cclip");
    reveal_strlit("tag");
    reveal_strlit("cclip-show-tag-color-names");
    reveal_strlit("dmenu0");
    reveal_strlit("preview");
    reveal_strlit("password");
    reveal_strlit("index");
    reveal_strlit("index-original");
    reveal_strlit("accept-nth");
    reveal_strlit("match-nth");
    reveal_strlit("only-match");
    reveal_strlit("exit-if-empty");
    reveal_strlit("select");
    reveal_strlit("select-index");
    reveal_strlit("auto-select");
    reveal_strlit("prompt-only");
    reveal_strlit("hide-before-typing");
    reveal_strlit("filter-desktop");
    reveal_strlit("filter-actions");
    reveal_strlit("auto-hide-duplicates");
    reveal_strlit("list-executables-in-path");
    reveal_strlit("desktop-icons");
    reveal_strlit("icon-position");
    reveal_strlit("icon-preview-width");
    reveal_strlit("icon-list-width");
    reveal_strlit("icon-list-height");
    reveal_strlit("icon-list-gap");
    reveal_strlit("icon-list-vertical-align");
    reveal_strlit("icon-arrow-before");
    reveal_strlit("icon-size");
    reveal_strlit("icon-horizontal-align");
    reveal_strlit("icon-vertical-align");
    reveal_strlit("icon-theme");
    reveal_strlit("match-mode");
    reveal_strlit("prefix-depth");
    reveal_strlit("test");
    reveal_strlit("with-nth");
    reveal_strlit("delimiter");
    reveal_strlit("program");
    reveal_strlit("verbose");
    reveal_strlit("help");
    reveal_strlit("version");
    assert("panel-edit"@.len() == 10);
    assert("panel"@.len() == 5);
    assert("info-position"@.len() == 13);
    assert("input-position"@.len() == 14);
    assert("info-size"@.len() == 9);
    assert("input-size"@.len() == 10);
    assert("layout-rotation"@.len() == 15);
    assert("item-width"@.len() == 10);
    assert("tty"@.len() == 3);
    assert("replace"@.len() == 7);
    assert("config"@.len() == 6);
    assert("clear-history"@.len() == 13);
    assert("clear-cache"@.len() == 11);
    assert("refresh-cache"@.len() == 13);
    assert("list-hidden"@.len() == 11);
    assert("unhide"@.len() == 6);
    assert("unhide-all"@.len() == 10);
    assert("no-exec"@.len() == 7);
    assert("stdout"@.len() == 6);
    assert("launch-prefix"@.len() == 13);
    assert("systemd-run"@.len() == 11);
    assert("uwsm"@.len() == 4);
    assert("detach"@.len() == 6);
    assert("dmenu"@.len() == 5);
    assert("cclip"@.len() == 5);
    assert("tag"@.len() == 3);
    assert("cclip-show-tag-color-names"@.len() == 26);
    assert("dmenu0"@.len() == 6);
    assert("preview"@.len() == 7);
    assert("password"@.len() == 8);
    assert("index"@.len() == 5);
    assert("index-original"@.len() == 14);
    assert("accept-nth"@.len() == 10);
    assert("match-nth"@.len() == 9);
    assert("only-match"@.len() == 10);
    assert("exit-if-empty"@.len() == 13);
    assert("select"@.len() == 6);
    assert("select-index"@.len() == 12);
    assert("auto-select"@.len() == 11);
    assert("prompt-only"@.len() == 11);
    assert("hide-before-typing"@.len() == 18);
    assert("filter-desktop"@.len() == 14);
    assert("filter-actions"@.len() == 14);
    assert("auto-hide-duplicates"@.len() == 20);
    assert("list-executables-in-path"@.len() == 24);
    assert("desktop-icons"@.len() == 13);
    assert("icon-position"@.len() == 13);
    assert("icon-preview-width"@.len() == 18);
    assert("icon-list-width"@.len() == 15);
    assert("icon-list-height"@.len() == 16);
    assert("icon-list-gap"@.len() == 13);
    assert("icon-list-vertical-align"@.len() == 24);
    assert("icon-arrow-before"@.len() == 17);
    assert("icon-size"@.len() == 9);
    assert("icon-horizontal-align"@.len() == 21);
    assert("icon-vertical-align"@.len() == 19);
    assert("icon-theme"@.len() == 10);
    assert("match-mode"@.len() == 10);
    assert("prefix-depth"@.len() == 12);
    assert("test"@.len() == 4);
    assert("with-nth"@.len() == 8);
    assert("delimiter"@.len() == 9);
    assert("program"@.len() == 7);
    assert("verbose"@.len() == 7);
    assert("help"@.len() == 4);
    assert("version"@.len() == 7);
    assert("input-size"@[0] != "panel-edit"@[0]);
    assert("item-width"@[0] != "panel-edit"@[0]);
    assert("item-width"@[1] != "input-size"@[1]);
    assert("clear-history"@[0] != "info-position"@[0]);
    assert("refresh-cache"@[0] != "info-position"@[0]);
    assert("refresh-cache"@[0] != "clear-history"@[0]);
    assert("list-hidden"@[0] != "clear-cache"@[0]);
    assert("unhide"@[0] != "config"@[0]);
    assert("unhide-all"@[0] != "panel-edit"@[0]);
    assert("unhide-all"@[0] != "input-size"@[0]);
    assert("unhide-all"@[0] != "item-width"@[0]);
    assert("no-exec"@[0] != "replace"@[0]);
    assert("stdout"@[0] != "config"@[0]);
    assert("stdout"@[0] != "unhide"@[0]);
    assert("launch-prefix"@[0] != "info-position"@[0]);
    assert("launch-prefix"@[0] != "clear-history"@[0]);
    assert("launch-prefix"@[0] != "refresh-cache"@[0]);
    assert("systemd-run"@[0] != "clear-cache"@[0]);
    assert("systemd-run"@[0] != "list-hidden"@[0]);
    assert("detach"@[0] != "config"@[0]);
    assert("detach"@[0] != "unhide"@[0]);
    assert("detach"@[0] != "stdout"@[0]);
    assert("dmenu"@[0] != "panel"@[0]);
    assert("cclip"@[0] != "panel"@[0]);
    assert("cclip"@[0] != "dmenu"@[0]);
    assert("tag"@[1] != "tty"@[1]);
    assert("dmenu0"@[0] != "config"@[0]);
    assert("dmenu0"@[0] != "unhide"@[0]);
    assert("dmenu0"@[0] != "stdout"@[0]);
    assert("dmenu0"@[1] != "detach"@[1]);
    assert("preview"@[0] != "replace"@[0]);
    assert("preview"@[0] != "no-exec"@[0]);
    assert("index"@[0] != "panel"@[0]);
    assert("index"@[0] != "dmenu"@[0]);
    assert("index"@[0] != "cclip"@[0]);
    assert("index-original"@[2] != "input-position"@[2]);
    assert("accept-nth"@[0] != "panel-edit"@[0]);
    assert("accept-nth"@[0] != "input-size"@[0]);
    assert("accept-nth"@[0] != "item-width"@[0]);
    assert("accept-nth"@[0] != "unhide-all"@[0]);
    assert("match-nth"@[0] != "info-size"@[0]);
    assert("only-match"@[0] != "panel-edit"@[0]);
    assert("only-match"@[0] != "input-size"@[0]);
    assert("only-match"@[0] != "item-width"@[0]);
    assert("only-match"@[0] != "unhide-all"@[0]);
    assert("only-match"@[0] != "accept-nth"@[0]);
    assert("exit-if-empty"@[0] != "info-position"@[0]);
    assert("exit-if-empty"@[0] != "clear-history"@[0]);
    assert("exit-if-empty"@[0] != "refresh-cache"@[0]);
    assert("exit-if-empty"@[0] != "launch-prefix"@[0]);
    assert("select"@[0] != "config"@[0]);
    assert("select"@[0] != "unhide"@[0]);
    assert("select"@[1] != "stdout"@[1]);
    assert("select"@[0] != "detach"@[0]);
    assert("select"@[0] != "dmenu0"@[0]);
    assert("auto-select"@[0] != "clear-cache"@[0]);
    assert("auto-select"@[0] != "list-hidden"@[0]);
    assert("auto-select"@[0] != "systemd-run"@[0]);
    assert("prompt-only"@[0] != "clear-cache"@[0]);
    assert("prompt-only"@[0] != "list-hidden"@[0]);
    assert("prompt-only"@[0] != "systemd-run"@[0]);
    assert("prompt-only"@[0] != "auto-select"@[0]);
    assert("filter-desktop"@[0] != "input-position"@[0]);
    assert("filter-desktop"@[0] != "index-original"@[0]);
    assert("filter-actions"@[0] != "input-position"@[0]);
    assert("filter-actions"@[0] != "index-original"@[0]);
    assert("filter-actions"@[7] != "filter-desktop"@[7]);
    assert("desktop-icons"@[0] != "info-position"@[0]);
    assert("desktop-icons"@[0] != "clear-history"@[0]);
    assert("desktop-icons"@[0] != "refresh-cache"@[0]);
    assert("desktop-icons"@[0] != "launch-prefix"@[0]);
    assert("desktop-icons"@[0] != "exit-if-empty"@[0]);
    assert("icon-position"@[1] != "info-position"@[1]);
    assert("icon-position"@[0] != "clear-history"@[0]);
    assert("icon-position"@[0] != "refresh-cache"@[0]);
    assert("icon-position"@[0] != "launch-prefix"@[0]);
    assert("icon-position"@[0] != "exit-if-empty"@[0]);
    assert("icon-position"@[0] != "desktop-icons"@[0]);
    assert("icon-preview-width"@[0] != "hide-before-typing"@[0]);
    assert("icon-list-width"@[0] != "layout-rotation"@[0]);
    assert("icon-list-gap"@[1] != "info-position"@[1]);
    assert("icon-list-gap"@[0] != "clear-history"@[0]);
    assert("icon-list-gap"@[0] != "refresh-cache"@[0]);
    assert("icon-list-gap"@[0] != "launch-prefix"@[0]);
    assert("icon-list-gap"@[0] != "exit-if-empty"@[0]);
    assert("icon-list-gap"@[0] != "desktop-icons"@[0]);
    assert("icon-list-gap"@[5] != "icon-position"@[5]);
    assert("icon-list-vertical-align"@[0] != "list-executables-in-path"@[0]);
    assert("icon-size"@[1] != "info-size"@[1]);
    assert("icon-size"@[0] != "match-nth"@[0]);
    assert("icon-theme"@[0] != "panel-edit"@[0]);
    assert("icon-theme"@[1] != "input-size"@[1]);
    assert("icon-theme"@[1] != "item-width"@[1]);
    assert("icon-theme"@[0] != "unhide-all"@[0]);
    assert("icon-theme"@[0] != "accept-nth"@[0]);
    assert("icon-theme"@[0] != "only-match"@[0]);
    assert("match-mode"@[0] != "panel-edit"@[0]);
    assert("match-mode"@[0] != "input-size"@[0]);
    assert("match-mode"@[0] != "item-width"@[0]);
    assert("match-mode"@[0] != "unhide-all"@[0]);
    assert("match-mode"@[0] != "accept-nth"@[0]);
    assert("match-mode"@[0] != "only-match"@[0]);
    assert("match-mode"@[0] != "icon-theme"@[0]);
    assert("prefix-depth"@[0] != "select-index"@[0]);
    assert("test"@[0] != "uwsm"@[0]);
    assert("with-nth"@[0] != "password"@[0]);
    assert("delimiter"@[0] != "info-size"@[0]);
    assert("delimiter"@[0] != "match-nth"@[0]);
    assert("delimiter"@[0] != "icon-size"@[0]);
    assert("program"@[0] != "replace"@[0]);
    assert("program"@[0] != "no-exec"@[0]);
    assert("program"@[2] != "preview"@[2]);
    assert("verbose"@[0] != "replace"@[0]);
    assert("verbose"@[0] != "no-exec"@[0]);
    assert("verbose"@[0] != "preview"@[0]);
    assert("verbose"@[0] != "program"@[0]);
    assert("help"@[0] != "uwsm"@[0]);
    assert("help"@[0] != "test"@[0]);
    assert("version"@[0] != "replace"@[0]);
    assert("version"@[0] != "no-exec"@[0]);
    assert("version"@[0] != "preview"@[0]);
    assert("version"@[0] != "program"@[0]);
    assert("version"@[3] != "verbose"@[3]);
}

/// The message of the parser for an unexpected positional argument: the
/// words `unexpected argument` and the argument as `{:?}` prints it.
pub open spec fn unexpected_argument_text(value: Seq<char>) -> Seq<char> {
    "unexpected argument "@ + crate::cli::parse::os_debug_text(value)
}

/// `lexopt::Arg::unexpected` on a positional argument, as text: lexopt
/// writes `unexpected argument ` and then the argument's `Debug` text.
#[verifier::external_body]
pub(crate) fn unexpected_argument(value: String) -> (m: String)
    ensures
        m@ == unexpected_argument_text(value@),
{
    lexopt::Arg::Value(value.into()).unexpected().to_string()
}

/// The option that an argument names.
pub fn classify(arg: CliArg) -> (r: CliOption)
    ensures
        option_view(r) == option_of(arg_view(arg)),
{
    match arg {
        CliArg::Long(name) => {
            let c = chars_of(name.as_str());
            let r = classify_long(&c);
            match r {
                Some(o) => o,
                None => CliOption::UnknownLong(name),
            }
        },
        CliArg::Short(c) => classify_short(c),
        CliArg::Positional(v) => CliOption::Unexpected(unexpected_argument(v)),
    }
}

fn classify_long(c: &Vec<char>) -> (r: Option<CliOption>)
    ensures
        match r {
            Some(o) => option_view(o) == long_option(c@) && !(o is UnknownLong),
            None => long_option(c@) == OptionKind::UnknownLong(c@),
        },
{
    let o = if vec_is(&c, "panel-edit") {
        CliOption::PanelEdit
    } else if vec_is(&c, "panel") {
        CliOption::Panel
    } else if vec_is(&c, "info-position") {
        CliOption::InfoPosition
    } else if vec_is(&c, "input-position") {
        CliOption::InputPosition
    } else if vec_is(&c, "info-size") {
        CliOption::InfoSize
    } else if vec_is(&c, "input-size") {
        CliOption::InputSize
    } else if vec_is(&c, "layout-rotation") {
        CliOption::LayoutRotation
    } else if vec_is(&c, "item-width") {
        CliOption::ItemWidth
    } else if vec_is(&c, "tty") {
        CliOption::Tty
    } else if vec_is(&c, "replace") {
        CliOption::Replace
    } else if vec_is(&c, "config") {
        CliOption::Config
    } else if vec_is(&c, "clear-history") {
        CliOption::ClearHistory
    } else if vec_is(&c, "clear-cache") {
        CliOption::ClearCache
    } else if vec_is(&c, "refresh-cache") {
        CliOption::RefreshCache
    } else if vec_is(&c, "list-hidden") {
        CliOption::ListHidden
    } else if vec_is(&c, "unhide") {
        CliOption::Unhide
    } else if vec_is(&c, "unhide-all") {
        CliOption::UnhideAll
    } else if vec_is(&c, "no-exec") {
        CliOption::NoExec
    } else if vec_is(&c, "stdout") {
        CliOption::Stdout
    } else if vec_is(&c, "launch-prefix") {
        CliOption::LaunchPrefix
    } else if vec_is(&c, "systemd-run") {
        CliOption::SystemdRun
    } else if vec_is(&c, "uwsm") {
        CliOption::Uwsm
    } else if vec_is(&c, "detach") {
        CliOption::Detach
    } else if vec_is(&c, "dmenu") {
        CliOption::Dmenu
    } else if vec_is(&c, "cclip") {
        CliOption::Cclip
    } else if vec_is(&c, "tag") {
        CliOption::Tag
    } else if vec_is(&c, "cclip-show-tag-color-names") {
        CliOption::CclipShowTagColorNames
    } else if vec_is(&c, "dmenu0") {
        CliOption::Dmenu0
    } else if vec_is(&c, "preview") {
        CliOption::Preview
    } else if vec_is(&c, "password") {
        CliOption::Password
    } else if vec_is(&c, "index") {
        CliOption::Index
    } else if vec_is(&c, "index-original") {
        CliOption::IndexOriginal
    } else if vec_is(&c, "accept-nth") {
        CliOption::AcceptNth
    } else if vec_is(&c, "match-nth") {
        CliOption::MatchNth
    } else if vec_is(&c, "only-match") {
        CliOption::OnlyMatch
    } else if vec_is(&c, "exit-if-empty") {
        CliOption::ExitIfEmpty
    } else if vec_is(&c, "select") {
        CliOption::Select
    } else if vec_is(&c, "select-index") {
        CliOption::SelectIndex
    } else if vec_is(&c, "auto-select") {
        CliOption::AutoSelect
    } else if vec_is(&c, "prompt-only") {
        CliOption::PromptOnly
    } else if vec_is(&c, "hide-before-typing") {
        CliOption::HideBeforeTyping
    } else if vec_is(&c, "filter-desktop") {
        CliOption::FilterDesktop
    } else if vec_is(&c, "filter-actions") {
        CliOption::FilterActions
    } else if vec_is(&c, "auto-hide-duplicates") {
        CliOption::AutoHideDuplicates
    } else if vec_is(&c, "list-executables-in-path") {
        CliOption::ListExecutablesInPath
    } else if vec_is(&c, "desktop-icons") {
        CliOption::DesktopIcons
    } else if vec_is(&c, "icon-position") {
        CliOption::IconPosition
    } else if vec_is(&c, "icon-preview-width") {
        CliOption::IconPreviewWidth
    } else if vec_is(&c, "icon-list-width") {
        CliOption::IconListWidth
    } else if vec_is(&c, "icon-list-height") {
        CliOption::IconListHeight
    } else if vec_is(&c, "icon-list-gap") {
        CliOption::IconListGap
    } else if vec_is(&c, "icon-list-vertical-align") {
        CliOption::IconListVerticalAlign
    } else if vec_is(&c, "icon-arrow-before") {
        CliOption::IconArrowBefore
    } else if vec_is(&c, "icon-size") {
        CliOption::IconSize
    } else if vec_is(&c, "icon-horizontal-align") {
        CliOption::IconHorizontalAlign
    } else if vec_is(&c, "icon-vertical-align") {
        CliOption::IconVerticalAlign
    } else if vec_is(&c, "icon-theme") {
        CliOption::IconTheme
    } else if vec_is(&c, "match-mode") {
        CliOption::MatchModeOption
    } else if vec_is(&c, "prefix-depth") {
        CliOption::PrefixDepth
    } else if vec_is(&c, "test") {
        CliOption::Test
    } else if vec_is(&c, "with-nth") {
        CliOption::WithNth
    } else if vec_is(&c, "delimiter") {
        CliOption::Delimiter
    } else if vec_is(&c, "program") {
        CliOption::Program
    } else if vec_is(&c, "verbose") {
        CliOption::Verbose
    } else if vec_is(&c, "help") {
        CliOption::LongHelp
    } else if vec_is(&c, "version") {
        CliOption::Version
    } else {
        return None;
    };
    Some(o)
}

fn classify_short(c: char) -> (r: CliOption)
    ensures
        option_view(r) == short_option(c),
{
    if c == 't' {
        CliOption::Tty
    } else if c == 'r' {
        CliOption::Replace
    } else if c == 'c' {
        CliOption::Config
    } else if c == 'd' {
        CliOption::Detach
    } else if c == 'T' {
        CliOption::Test
    } else if c == 'p' {
        CliOption::Program
    } else if c == 'v' {
        CliOption::Verbose
    } else if c == 'h' {
        CliOption::ShortHelp
    } else if c == 'H' {
        CliOption::LongHelp
    } else if c == 'V' {
        CliOption::Version
    } else {
        CliOption::UnknownShort(c)
    }
}

/// What the option reads after itself.
pub open spec fn wants(k: OptionKind) -> Wants {
    match k {
        OptionKind::PanelEdit => Wants::Nothing,
        OptionKind::Panel => Wants::Value,
        OptionKind::InfoPosition => Wants::Value,
        OptionKind::InputPosition => Wants::Value,
        OptionKind::InfoSize => Wants::Value,
        OptionKind::InputSize => Wants::Value,
        OptionKind::LayoutRotation => Wants::Value,
        OptionKind::ItemWidth => Wants::Value,
        OptionKind::Tty => Wants::Nothing,
        OptionKind::Replace => Wants::Nothing,
        OptionKind::Config => Wants::Value,
        OptionKind::ClearHistory => Wants::Nothing,
        OptionKind::ClearCache => Wants::Nothing,
        OptionKind::RefreshCache => Wants::Nothing,
        OptionKind::ListHidden => Wants::Nothing,
        OptionKind::Unhide => Wants::Value,
        OptionKind::UnhideAll => Wants::Nothing,
        OptionKind::NoExec => Wants::Nothing,
        OptionKind::Stdout => Wants::Nothing,
        OptionKind::LaunchPrefix => Wants::Value,
        OptionKind::SystemdRun => Wants::Nothing,
        OptionKind::Uwsm => Wants::Nothing,
        OptionKind::Detach => Wants::Nothing,
        OptionKind::Dmenu => Wants::Nothing,
        OptionKind::Cclip => Wants::Nothing,
        OptionKind::Tag => Wants::TagValue,
        OptionKind::CclipShowTagColorNames => Wants::Nothing,
        OptionKind::Dmenu0 => Wants::Nothing,
        OptionKind::Preview => Wants::Value,
        OptionKind::Password => Wants::OptionalValue,
        OptionKind::Index => Wants::Nothing,
        OptionKind::IndexOriginal => Wants::Nothing,
        OptionKind::AcceptNth => Wants::Value,
        OptionKind::MatchNth => Wants::Value,
        OptionKind::OnlyMatch => Wants::Nothing,
        OptionKind::ExitIfEmpty => Wants::Nothing,
        OptionKind::Select => Wants::Value,
        OptionKind::SelectIndex => Wants::Value,
        OptionKind::AutoSelect => Wants::Nothing,
        OptionKind::PromptOnly => Wants::Nothing,
        OptionKind::HideBeforeTyping => Wants::Nothing,
        OptionKind::FilterDesktop => Wants::OptionalValue,
        OptionKind::FilterActions => Wants::OptionalValue,
        OptionKind::AutoHideDuplicates => Wants::OptionalValue,
        OptionKind::ListExecutablesInPath => Wants::Nothing,
        OptionKind::DesktopIcons => Wants::OptionalValue,
        OptionKind::IconPosition => Wants::Value,
        OptionKind::IconPreviewWidth => Wants::Value,
        OptionKind::IconListWidth => Wants::Value,
        OptionKind::IconListHeight => Wants::Value,
        OptionKind::IconListGap => Wants::Value,
        OptionKind::IconListVerticalAlign => Wants::Value,
        OptionKind::IconArrowBefore => Wants::Nothing,
        OptionKind::IconSize => Wants::Value,
        OptionKind::IconHorizontalAlign => Wants::Value,
        OptionKind::IconVerticalAlign => Wants::Value,
        OptionKind::IconTheme => Wants::Value,
        OptionKind::MatchModeOption => Wants::Value,
        OptionKind::PrefixDepth => Wants::Value,
        OptionKind::Test => Wants::Nothing,
        OptionKind::WithNth => Wants::Value,
        OptionKind::Delimiter => Wants::Value,
        OptionKind::Program => Wants::Value,
        OptionKind::Verbose => Wants::Nothing,
        OptionKind::ShortHelp => Wants::Nothing,
        OptionKind::LongHelp => Wants::Nothing,
        OptionKind::Version => Wants::Nothing,
        _ => Wants::Nothing,
    }
}

/// `input` is what was read for an option that wants `w`.
pub open spec fn input_fits(w: Wants, input: Fetched) -> bool {
    match w {
        Wants::Nothing => input is Nothing,
        Wants::Value => input is Value,
        Wants::OptionalValue => input is Optional,
        Wants::TagValue => match input {
            Fetched::Tag(ValueRead::Text(s), extra) => (s@ == "list"@) == (extra is Some),
            Fetched::Tag(_, extra) => extra is None,
            _ => false,
        },
    }
}

/// What the option reads after itself.
pub fn wants_of(o: &CliOption) -> (w: Wants)
    ensures
        w == wants(option_view(*o)),
{
    match o {
        CliOption::PanelEdit => Wants::Nothing,
        CliOption::Panel => Wants::Value,
        CliOption::InfoPosition => Wants::Value,
        CliOption::InputPosition => Wants::Value,
        CliOption::InfoSize => Wants::Value,
        CliOption::InputSize => Wants::Value,
        CliOption::LayoutRotation => Wants::Value,
        CliOption::ItemWidth => Wants::Value,
        CliOption::Tty => Wants::Nothing,
        CliOption::Replace => Wants::Nothing,
        CliOption::Config => Wants::Value,
        CliOption::ClearHistory => Wants::Nothing,
        CliOption::ClearCache => Wants::Nothing,
        CliOption::RefreshCache => Wants::Nothing,
        CliOption::ListHidden => Wants::Nothing,
        CliOption::Unhide => Wants::Value,
        CliOption::UnhideAll => Wants::Nothing,
        CliOption::NoExec => Wants::Nothing,
        CliOption::Stdout => Wants::Nothing,
        CliOption::LaunchPrefix => Wants::Value,
        CliOption::SystemdRun => Wants::Nothing,
        CliOption::Uwsm => Wants::Nothing,
        CliOption::Detach => Wants::Nothing,
        CliOption::Dmenu => Wants::Nothing,
        CliOption::Cclip => Wants::Nothing,
        CliOption::Tag => Wants::TagValue,
        CliOption::CclipShowTagColorNames => Wants::Nothing,
        CliOption::Dmenu0 => Wants::Nothing,
        CliOption::Preview => Wants::Value,
        CliOption::Password => Wants::OptionalValue,
        CliOption::Index => Wants::Nothing,
        CliOption::IndexOriginal => Wants::Nothing,
        CliOption::AcceptNth => Wants::Value,
        CliOption::MatchNth => Wants::Value,
        CliOption::OnlyMatch => Wants::Nothing,
        CliOption::ExitIfEmpty => Wants::Nothing,
        CliOption::Select => Wants::Value,
        CliOption::SelectIndex => Wants::Value,
        CliOption::AutoSelect => Wants::Nothing,
        CliOption::PromptOnly => Wants::Nothing,
        CliOption::HideBeforeTyping => Wants::Nothing,
        CliOption::FilterDesktop => Wants::OptionalValue,
        CliOption::FilterActions => Wants::OptionalValue,
        CliOption::AutoHideDuplicates => Wants::OptionalValue,
        CliOption::ListExecutablesInPath => Wants::Nothing,
        CliOption::DesktopIcons => Wants::OptionalValue,
        CliOption::IconPosition => Wants::Value,
        CliOption::IconPreviewWidth => Wants::Value,
        CliOption::IconListWidth => Wants::Value,
        CliOption::IconListHeight => Wants::Value,
        CliOption::IconListGap => Wants::Value,
        CliOption::IconListVerticalAlign => Wants::Value,
        CliOption::IconArrowBefore => Wants::Nothing,
        CliOption::IconSize => Wants::Value,
        CliOption::IconHorizontalAlign => Wants::Value,
        CliOption::IconVerticalAlign => Wants::Value,
        CliOption::IconTheme => Wants::Value,
        CliOption::MatchModeOption => Wants::Value,
        CliOption::PrefixDepth => Wants::Value,
        CliOption::Test => Wants::Nothing,
        CliOption::WithNth => Wants::Value,
        CliOption::Delimiter => Wants::Value,
        CliOption::Program => Wants::Value,
        CliOption::Verbose => Wants::Nothing,
        CliOption::ShortHelp => Wants::Nothing,
        CliOption::LongHelp => Wants::Nothing,
        CliOption::Version => Wants::Nothing,
        _ => Wants::Nothing,
    }
}

/// The columns of a `--with-nth`-style list: comma-separated, trimmed
/// numbers (empty pieces are skipped); `None` when a piece is no number or
/// there is none.
pub open spec fn column_list(s: Seq<char>) -> Option<Seq<usize>> {
    let pieces = pieces_from(s, 0, ',');
    if pieces.len() > 0 && forall|i: int|
        0 <= i < pieces.len() ==> parse_unsigned_spec(
            #[trigger] pieces[i],
            (usize::MAX as u64) as int,
        )
            is Some {
        Some(
            Seq::new(
                pieces.len(),
                |i: int| parse_unsigned_spec(pieces[i], (usize::MAX as u64) as int).unwrap() as usize,
            ),
        )
    } else {
        None
    }
}

/// Parses a column list (see [`column_list`]).
pub fn parse_column_list(s: &str) -> (r: Option<Vec<usize>>)
    ensures
        match column_list(s@) {
            Some(c) => r matches Some(v) && v@ == c,
            None => r is None,
        },
{
    let c = chars_of(s);
    assert(c@.subrange(0, c@.len() as int) =~= c@);
    let pieces = split_trimmed(&c, 0, c.len(), ',');
    let ghost ps = strings_view(pieces@);
    if pieces.len() == 0 {
        return None;
    }
    let mut out: Vec<usize> = Vec::new();
    let mut i: usize = 0;
    while i < pieces.len()
        invariant
            i <= pieces@.len(),
            ps == strings_view(pieces@),
            ps == pieces_from(s@, 0, ','),
            out@.len() == i,
            forall|j: int|
                0 <= j < i ==> parse_unsigned_spec(#[trigger] ps[j], (usize::MAX as u64) as int)
                    == Some(out@[j] as int),
        decreases pieces@.len() - i,
    {
        match parse_unsigned(pieces[i].as_str(), usize::MAX as u64) {
            Some(n) => {
                out.push(n as usize);
            },
            None => {
                assert(parse_unsigned_spec(ps[i as int], (usize::MAX as u64) as int) is None);
                return None;
            },
        }
        i += 1;
    }
    proof {
        let cols = column_list(s@).unwrap();
        assert(out@ =~= cols);
    }
    Some(out)
}

/// The words of a launch prefix, or why it is rejected.
pub open spec fn launch_prefix_words(s: Seq<char>) -> Result<Seq<Seq<char>>, Seq<char>> {
    match shell_split(s) {
        None => Err("Launch prefix must be a valid shell-words command"@),
        Some(w) => if w.len() == 0 {
            Err("Launch prefix must not be empty"@)
        } else {
            Ok(w)
        },
    }
}

/// Splits a launch prefix into words (see [`launch_prefix_words`]).
pub fn parse_launch_prefix(s: &str) -> (r: Result<Vec<String>, String>)
    ensures
        match launch_prefix_words(s@) {
            Ok(w) => r matches Ok(v) && strings_view(v@) == w,
            Err(e) => r matches Err(m) && m@ == e,
        },
{
    match split_shell_words(s) {
        None => Err(String::from_str("Launch prefix must be a valid shell-words command")),
        Some(w) => {
            if w.len() == 0 {
                Err(String::from_str("Launch prefix must not be empty"))
            } else {
                Ok(w)
            }
        },
    }
}

pub open spec fn panel_edit_failure(input: Fetched) -> Option<Seq<char>> {
    None
}

pub open spec fn panel_edit_effect(o: Opts, n: Opts, input: Fetched) -> bool {
    n == (Opts { dmenu_panel_edit: true, dmenu_mode: true, ..o })
}

pub open spec fn panel_failure(input: Fetched) -> Option<Seq<char>> {
    match input {
        Fetched::Value(ValueRead::Text(s)) => match panel_from_spec(s@) {
            Ok(_) => None,
            Err(e) => Some(e),
        },
        Fetched::Value(ValueRead::NotUnicode) => Some("Invalid panel specification"@),
        Fetched::Value(ValueRead::Missing(m)) => Some(m@),
        _ => None,
    }
}

pub open spec fn panel_effect(o: Opts, n: Opts, input: Fetched) -> bool {
    match input {
        Fetched::Value(ValueRead::Text(s)) => match panel_from_spec(s@) {
            Ok(pm) => n == (Opts { dmenu_panels: n.dmenu_panels, dmenu_mode: true, ..o })
                && n.dmenu_panels@.len() == o.dmenu_panels@.len() + 1
                && n.dmenu_panels@.drop_last() == o.dmenu_panels@
                && n.dmenu_panels@.last()@ == pm,
            Err(_) => false,
        },
        _ => false,
    }
}

pub open spec fn info_position_failure(input: Fetched) -> Option<Seq<char>> {
    match input {
        Fetched::Value(ValueRead::Text(s)) => {
            let v = s@;
            match (panel_side_named(lowercase(trim(v)))) {
                Some(_) => None,
                None => Some(invalid_message("panel side"@, v)),
            }
        },
        Fetched::Value(ValueRead::NotUnicode) => Some("Invalid panel side"@),
        Fetched::Value(ValueRead::Missing(m)) => Some(m@),
        _ => None,
    }
}

pub open spec fn info_position_effect(o: Opts, n: Opts, input: Fetched) -> bool {
    match input {
        Fetched::Value(ValueRead::Text(s)) => {
            let v = s@;
            match (panel_side_named(lowercase(trim(v)))) {
                Some(x) => n == (Opts { panels: PanelsConfig { info_position: Some(x), ..o.panels }, ..o }),
                None => false,
            }
        },
        _ => false,
    }
}

pub open spec fn input_position_failure(input: Fetched) -> Option<Seq<char>> {
    match input {
        Fetched::Value(ValueRead::Text(s)) => {
            let v = s@;
            match (panel_side_named(lowercase(trim(v)))) {
                Some(_) => None,
                None => Some(invalid_message("panel side"@, v)),
            }
        },
        Fetched::Value(ValueRead::NotUnicode) => Some("Invalid panel side"@),
        Fetched::Value(ValueRead::Missing(m)) => Some(m@),
        _ => None,
    }
}

pub open spec fn input_position_effect(o: Opts, n: Opts, input: Fetched) -> bool {
    match input {
        Fetched::Value(ValueRead::Text(s)) => {
            let v = s@;
            match (panel_side_named(lowercase(trim(v)))) {
                Some(x) => n == (Opts { panels: PanelsConfig { input_position: Some(x), ..o.panels }, ..o }),
                None => false,
            }
        },
        _ => false,
    }
}

pub open spec fn info_size_failure(input: Fetched) -> Option<Seq<char>> {
    match input {
        Fetched::Value(ValueRead::Text(s)) => {
            let v = s@;
            match (match parse_unsigned_spec(v, 0xffff) { Some(n) => Some(n as u16), None => None }) {
                Some(_) => None,
                None => Some("info size must be an integer"@),
            }
        },
        Fetched::Value(ValueRead::NotUnicode) => Some("Invalid info size"@),
        Fetched::Value(ValueRead::Missing(m)) => Some(m@),
        _ => None,
    }
}

pub open spec fn info_size_effect(o: Opts, n: Opts, input: Fetched) -> bool {
    match input {
        Fetched::Value(ValueRead::Text(s)) => {
            let v = s@;
            match (match parse_unsigned_spec(v, 0xffff) { Some(n) => Some(n as u16), None => None }) {
                Some(x) => n == (Opts { panels: PanelsConfig { info_size: Some(x), ..o.panels }, ..o }),
                None => false,
            }
        },
        _ => false,
    }
}

pub open spec fn input_size_failure(input: Fetched) -> Option<Seq<char>> {
    match input {
        Fetched::Value(ValueRead::Text(s)) => {
            let v = s@;
            match (match parse_unsigned_spec(v, 0xffff) { Some(n) => Some(n as u16), None => None }) {
                Some(_) => None,
                None => Some("input size must be an integer"@),
            }
        },
        Fetched::Value(ValueRead::NotUnicode) => Some("Invalid input size"@),
        Fetched::Value(ValueRead::Missing(m)) => Some(m@),
        _ => None,
    }
}

pub open spec fn input_size_effect(o: Opts, n: Opts, input: Fetched) -> bool {
    match input {
        Fetched::Value(ValueRead::Text(s)) => {
            let v = s@;
            match (match parse_unsigned_spec(v, 0xffff) { Some(n) => Some(n as u16), None => None }) {
                Some(x) => n == (Opts { panels: PanelsConfig { input_size: Some(x), ..o.panels }, ..o }),
                None => false,
            }
        },
        _ => false,
    }
}

pub open spec fn layout_rotation_failure(input: Fetched) -> Option<Seq<char>> {
    match input {
        Fetched::Value(ValueRead::Text(s)) => {
            let v = s@;
            match (match parse_unsigned_spec(v, 0xffff) { Some(n) => Some(n as u16), None => None }) {
                Some(_) => None,
                None => Some("layout rotation must be an integer"@),
            }
        },
        Fetched::Value(ValueRead::NotUnicode) => Some("Invalid rotation"@),
        Fetched::Value(ValueRead::Missing(m)) => Some(m@),
        _ => None,
    }
}

pub open spec fn layout_rotation_effect(o: Opts, n: Opts, input: Fetched) -> bool {
    match input {
        Fetched::Value(ValueRead::Text(s)) => {
            let v = s@;
            match (match parse_unsigned_spec(v, 0xffff) { Some(n) => Some(n as u16), None => None }) {
                Some(x) => n == (Opts { panels: PanelsConfig { rotation: x, ..o.panels }, ..o }),
                None => false,
            }
        },
        _ => false,
    }
}

pub open spec fn item_width_failure(input: Fetched) -> Option<Seq<char>> {
    match input {
        Fetched::Value(ValueRead::Text(s)) => {
            let v = s@;
            match (match parse_unsigned_spec(v, 0xffff) { Some(n) => Some(n as u16), None => None }) {
                Some(_) => None,
                None => Some("item width must be an integer"@),
            }
        },
        Fetched::Value(ValueRead::NotUnicode) => Some("Invalid item width"@),
        Fetched::Value(ValueRead::Missing(m)) => Some(m@),
        _ => None,
    }
}

pub open spec fn item_width_effect(o: Opts, n: Opts, input: Fetched) -> bool {
    match input {
        Fetched::Value(ValueRead::Text(s)) => {
            let v = s@;
            match (match parse_unsigned_spec(v, 0xffff) { Some(n) => Some(n as u16), None => None }) {
                Some(x) => n == (Opts { panels: PanelsConfig { item_width: x, ..o.panels }, ..o }),
                None => false,
            }
        },
        _ => false,
    }
}

pub open spec fn tty_failure(input: Fetched) -> Option<Seq<char>> {
    None
}

pub open spec fn tty_effect(o: Opts, n: Opts, input: Fetched) -> bool {
    n == (Opts { tty: true, terminal_launcher: n.terminal_launcher, ..o }) && n.terminal_launcher@ == Seq::<char>::empty()
}

pub open spec fn replace_failure(input: Fetched) -> Option<Seq<char>> {
    None
}

pub open spec fn replace_effect(o: Opts, n: Opts, input: Fetched) -> bool {
    n == (Opts { replace: true, ..o })
}

pub open spec fn config_failure(input: Fetched) -> Option<Seq<char>> {
    match input { Fetched::Value(ValueRead::Missing(m)) => Some(m@), _ => None }
}

pub open spec fn config_effect(o: Opts, n: Opts, input: Fetched) -> bool {
    n == o
}

pub open spec fn clear_history_failure(input: Fetched) -> Option<Seq<char>> {
    None
}

pub open spec fn clear_history_effect(o: Opts, n: Opts, input: Fetched) -> bool {
    n == (Opts { clear_history: true, ..o })
}

pub open spec fn clear_cache_failure(input: Fetched) -> Option<Seq<char>> {
    None
}

pub open spec fn clear_cache_effect(o: Opts, n: Opts, input: Fetched) -> bool {
    n == (Opts { clear_cache: true, ..o })
}

pub open spec fn refresh_cache_failure(input: Fetched) -> Option<Seq<char>> {
    None
}

pub open spec fn refresh_cache_effect(o: Opts, n: Opts, input: Fetched) -> bool {
    n == (Opts { refresh_cache: true, ..o })
}

pub open spec fn list_hidden_failure(input: Fetched) -> Option<Seq<char>> {
    None
}

pub open spec fn list_hidden_effect(o: Opts, n: Opts, input: Fetched) -> bool {
    n == (Opts { list_hidden: true, ..o })
}

pub open spec fn unhide_failure(input: Fetched) -> Option<Seq<char>> {
    match input {
        Fetched::Value(ValueRead::Text(s)) => {
            let v = s@;
            match (match parse_unsigned_spec(v, 0xffff_ffff_ffff_ffff) { Some(n) => Some(n as u64), None => None }) {
                Some(_) => None,
                None => Some("Hidden entry ID must be an integer"@),
            }
        },
        Fetched::Value(ValueRead::NotUnicode) => Some("Hidden entry ID must be valid UTF-8"@),
        Fetched::Value(ValueRead::Missing(m)) => Some(m@),
        _ => None,
    }
}

pub open spec fn unhide_effect(o: Opts, n: Opts, input: Fetched) -> bool {
    match input {
        Fetched::Value(ValueRead::Text(s)) => {
            let v = s@;
            match (match parse_unsigned_spec(v, 0xffff_ffff_ffff_ffff) { Some(n) => Some(n as u64), None => None }) {
                Some(x) => n == (Opts { unhide: Some(x), ..o }),
                None => false,
            }
        },
        _ => false,
    }
}

pub open spec fn unhide_all_failure(input: Fetched) -> Option<Seq<char>> {
    None
}

pub open spec fn unhide_all_effect(o: Opts, n: Opts, input: Fetched) -> bool {
    n == (Opts { unhide_all: true, ..o })
}

pub open spec fn no_exec_failure(input: Fetched) -> Option<Seq<char>> {
    None
}

pub open spec fn no_exec_effect(o: Opts, n: Opts, input: Fetched) -> bool {
    n == (Opts { no_exec: true, ..o })
}

pub open spec fn stdout_failure(input: Fetched) -> Option<Seq<char>> {
    None
}

pub open spec fn stdout_effect(o: Opts, n: Opts, input: Fetched) -> bool {
    n == (Opts { stdout: true, ..o })
}

pub open spec fn launch_prefix_failure(input: Fetched) -> Option<Seq<char>> {
    match input {
        Fetched::Value(ValueRead::Text(s)) => match launch_prefix_words(s@) {
            Ok(_) => None,
            Err(e) => Some(e),
        },
        Fetched::Value(ValueRead::NotUnicode) => Some("Launch prefix must be valid UTF-8"@),
        Fetched::Value(ValueRead::Missing(m)) => Some(m@),
        _ => None,
    }
}

pub open spec fn launch_prefix_effect(o: Opts, n: Opts, input: Fetched) -> bool {
    match input {
        Fetched::Value(ValueRead::Text(s)) => match launch_prefix_words(s@) {
            Ok(w) => n.launch_prefix matches Some(p)
                && strings_view(p@) == w
                && n == (Opts { launch_prefix: n.launch_prefix, systemd_run: false, uwsm: false, ..o }),
            Err(_) => false,
        },
        _ => false,
    }
}

pub open spec fn systemd_run_failure(input: Fetched) -> Option<Seq<char>> {
    None
}

pub open spec fn systemd_run_effect(o: Opts, n: Opts, input: Fetched) -> bool {
    n == (Opts { launch_prefix: None, systemd_run: true, uwsm: false, ..o })
}

pub open spec fn uwsm_failure(input: Fetched) -> Option<Seq<char>> {
    None
}

pub open spec fn uwsm_effect(o: Opts, n: Opts, input: Fetched) -> bool {
    n == (Opts { launch_prefix: None, systemd_run: false, uwsm: true, ..o })
}

pub open spec fn detach_failure(input: Fetched) -> Option<Seq<char>> {
    None
}

pub open spec fn detach_effect(o: Opts, n: Opts, input: Fetched) -> bool {
    n == (Opts { detach: true, ..o })
}

pub open spec fn dmenu_failure(input: Fetched) -> Option<Seq<char>> {
    None
}

pub open spec fn dmenu_effect(o: Opts, n: Opts, input: Fetched) -> bool {
    n == (Opts { dmenu_mode: true, ..o })
}

pub open spec fn cclip_failure(input: Fetched) -> Option<Seq<char>> {
    None
}

pub open spec fn cclip_effect(o: Opts, n: Opts, input: Fetched) -> bool {
    n == (Opts { cclip_mode: true, ..o })
}

pub open spec fn tag_failure(input: Fetched) -> Option<Seq<char>> {
    match input {
        Fetched::Tag(ValueRead::NotUnicode, _) => Some("Tag argument must be valid UTF-8"@),
        Fetched::Tag(ValueRead::Missing(m), _) => Some(m@),
        Fetched::Tag(ValueRead::Text(s), Some(Some(None))) => if s@ == "list"@ {
            Some("Tag name must be valid UTF-8"@)
        } else {
            None
        },
        _ => None,
    }
}

pub open spec fn tag_effect(o: Opts, n: Opts, input: Fetched) -> bool {
    match input {
        Fetched::Tag(ValueRead::Text(s), extra) => if s@ == "list"@ {
            match extra {
                Some(Some(Some(t))) => n == (Opts { cclip_tag_list: true, cclip_tag: n.cclip_tag, ..o })
                    && opt_string_view(n.cclip_tag) == Some(t@),
                Some(None) => n == (Opts { cclip_tag_list: true, ..o }),
                _ => false,
            }
        } else if s@ == "clear"@ {
            n == (Opts { cclip_clear_tags: true, ..o })
        } else if s@ == "wipe"@ {
            n == (Opts { cclip_wipe_tags: true, ..o })
        } else {
            n == (Opts { cclip_tag: n.cclip_tag, ..o }) && opt_string_view(n.cclip_tag) == Some(s@)
        },
        _ => false,
    }
}

pub open spec fn cclip_show_tag_color_names_failure(input: Fetched) -> Option<Seq<char>> {
    None
}

pub open spec fn cclip_show_tag_color_names_effect(o: Opts, n: Opts, input: Fetched) -> bool {
    n == (Opts { cclip_show_tag_color_names: Some(true), ..o })
}

pub open spec fn dmenu0_failure(input: Fetched) -> Option<Seq<char>> {
    None
}

pub open spec fn dmenu0_effect(o: Opts, n: Opts, input: Fetched) -> bool {
    n == (Opts { dmenu_mode: true, dmenu_null_separated: true, ..o })
}

pub open spec fn preview_failure(input: Fetched) -> Option<Seq<char>> {
    match input {
        Fetched::Value(ValueRead::Text(_)) => None,
        Fetched::Value(ValueRead::NotUnicode) => Some("Preview command must be valid UTF-8"@),
        Fetched::Value(ValueRead::Missing(m)) => Some(m@),
        _ => None,
    }
}

pub open spec fn preview_effect(o: Opts, n: Opts, input: Fetched) -> bool {
    match input {
        Fetched::Value(ValueRead::Text(s)) => n == (Opts { dmenu_preview: n.dmenu_preview, dmenu_mode: true, ..o })
            && opt_string_view(n.dmenu_preview) == Some(s@),
        _ => false,
    }
}

pub open spec fn password_failure(input: Fetched) -> Option<Seq<char>> {
    match input {
        Fetched::Optional(Some(None)) => Some("Password character must be valid UTF-8"@),
        _ => None,
    }
}

pub open spec fn password_effect(o: Opts, n: Opts, input: Fetched) -> bool {
    match input {
        Fetched::Optional(None) => n == (Opts { dmenu_password_mode: true, ..o }),
        Fetched::Optional(Some(Some(s))) => n == (Opts { dmenu_password_mode: true, dmenu_password_character: n.dmenu_password_character, ..o })
            && n.dmenu_password_character@ == s@,
        _ => false,
    }
}

pub open spec fn index_failure(input: Fetched) -> Option<Seq<char>> {
    None
}

pub open spec fn index_effect(o: Opts, n: Opts, input: Fetched) -> bool {
    n == (Opts { dmenu_index_mode: true, ..o })
}

pub open spec fn index_original_failure(input: Fetched) -> Option<Seq<char>> {
    None
}

pub open spec fn index_original_effect(o: Opts, n: Opts, input: Fetched) -> bool {
    n == (Opts { dmenu_index_original_mode: true, ..o })
}

pub open spec fn accept_nth_failure(input: Fetched) -> Option<Seq<char>> {
    match input {
        Fetched::Value(ValueRead::Text(s)) => match column_list(s@) {
            Some(_) => None,
            None => Some("Invalid column specification"@),
        },
        Fetched::Value(ValueRead::NotUnicode) => Some("Invalid column specification"@),
        Fetched::Value(ValueRead::Missing(m)) => Some(m@),
        _ => None,
    }
}

pub open spec fn accept_nth_effect(o: Opts, n: Opts, input: Fetched) -> bool {
    match input {
        Fetched::Value(ValueRead::Text(s)) => match column_list(s@) {
            Some(c) => n.dmenu_accept_nth matches Some(w)
                && w@ == c
                && n == (Opts { dmenu_accept_nth: n.dmenu_accept_nth, ..o }),
            None => false,
        },
        _ => false,
    }
}

pub open spec fn match_nth_failure(input: Fetched) -> Option<Seq<char>> {
    match input {
        Fetched::Value(ValueRead::Text(s)) => match column_list(s@) {
            Some(_) => None,
            None => Some("Invalid column specification"@),
        },
        Fetched::Value(ValueRead::NotUnicode) => Some("Invalid column specification"@),
        Fetched::Value(ValueRead::Missing(m)) => Some(m@),
        _ => None,
    }
}

pub open spec fn match_nth_effect(o: Opts, n: Opts, input: Fetched) -> bool {
    match input {
        Fetched::Value(ValueRead::Text(s)) => match column_list(s@) {
            Some(c) => n.dmenu_match_nth matches Some(w)
                && w@ == c
                && n == (Opts { dmenu_match_nth: n.dmenu_match_nth, ..o }),
            None => false,
        },
        _ => false,
    }
}

pub open spec fn only_match_failure(input: Fetched) -> Option<Seq<char>> {
    None
}

pub open spec fn only_match_effect(o: Opts, n: Opts, input: Fetched) -> bool {
    n == (Opts { dmenu_only_match: true, ..o })
}

pub open spec fn exit_if_empty_failure(input: Fetched) -> Option<Seq<char>> {
    None
}

pub open spec fn exit_if_empty_effect(o: Opts, n: Opts, input: Fetched) -> bool {
    n == (Opts { dmenu_exit_if_empty: true, ..o })
}

pub open spec fn select_failure(input: Fetched) -> Option<Seq<char>> {
    match input {
        Fetched::Value(ValueRead::Text(_)) => None,
        Fetched::Value(ValueRead::NotUnicode) => Some("Select string must be valid UTF-8"@),
        Fetched::Value(ValueRead::Missing(m)) => Some(m@),
        _ => None,
    }
}

pub open spec fn select_effect(o: Opts, n: Opts, input: Fetched) -> bool {
    match input {
        Fetched::Value(ValueRead::Text(s)) => n == (Opts { dmenu_select: n.dmenu_select, ..o })
            && opt_string_view(n.dmenu_select) == Some(s@),
        _ => false,
    }
}

pub open spec fn select_index_failure(input: Fetched) -> Option<Seq<char>> {
    match input {
        Fetched::Value(ValueRead::Text(s)) => {
            let v = s@;
            match (match parse_unsigned_spec(v, (usize::MAX as u64) as int) { Some(n) => Some(n as usize), None => None }) {
                Some(_) => None,
                None => Some("Invalid index"@),
            }
        },
        Fetched::Value(ValueRead::NotUnicode) => Some("Index must be valid UTF-8"@),
        Fetched::Value(ValueRead::Missing(m)) => Some(m@),
        _ => None,
    }
}

pub open spec fn select_index_effect(o: Opts, n: Opts, input: Fetched) -> bool {
    match input {
        Fetched::Value(ValueRead::Text(s)) => {
            let v = s@;
            match (match parse_unsigned_spec(v, (usize::MAX as u64) as int) { Some(n) => Some(n as usize), None => None }) {
                Some(x) => n == (Opts { dmenu_select_index: Some(x), ..o }),
                None => false,
            }
        },
        _ => false,
    }
}

pub open spec fn auto_select_failure(input: Fetched) -> Option<Seq<char>> {
    None
}

pub open spec fn auto_select_effect(o: Opts, n: Opts, input: Fetched) -> bool {
    n == (Opts { dmenu_auto_select: true, ..o })
}

pub open spec fn prompt_only_failure(input: Fetched) -> Option<Seq<char>> {
    None
}

pub open spec fn prompt_only_effect(o: Opts, n: Opts, input: Fetched) -> bool {
    n == (Opts { dmenu_prompt_only: true, ..o })
}

pub open spec fn hide_before_typing_failure(input: Fetched) -> Option<Seq<char>> {
    None
}

pub open spec fn hide_before_typing_effect(o: Opts, n: Opts, input: Fetched) -> bool {
    n == (Opts { hide_before_typing: true, ..o })
}

pub open spec fn filter_desktop_failure(input: Fetched) -> Option<Seq<char>> {
    match input {
        Fetched::Optional(Some(None)) => Some("filter-desktop value must be valid UTF-8"@),
        _ => None,
    }
}

pub open spec fn filter_desktop_effect(o: Opts, n: Opts, input: Fetched) -> bool {
    match input {
        Fetched::Optional(None) => n == (Opts { filter_desktop: true, ..o }),
        Fetched::Optional(Some(Some(s))) => n == (Opts { filter_desktop: s@ != "no"@, ..o }),
        _ => false,
    }
}

pub open spec fn filter_actions_failure(input: Fetched) -> Option<Seq<char>> {
    match input {
        Fetched::Optional(Some(None)) => Some("filter-actions value must be valid UTF-8"@),
        _ => None,
    }
}

pub open spec fn filter_actions_effect(o: Opts, n: Opts, input: Fetched) -> bool {
    match input {
        Fetched::Optional(None) => n == (Opts { filter_actions: true, ..o }),
        Fetched::Optional(Some(Some(s))) => n == (Opts { filter_actions: s@ != "no"@, ..o }),
        _ => false,
    }
}

pub open spec fn auto_hide_duplicates_failure(input: Fetched) -> Option<Seq<char>> {
    match input {
        Fetched::Optional(Some(None)) => Some("auto-hide-duplicates value must be valid UTF-8"@),
        _ => None,
    }
}

pub open spec fn auto_hide_duplicates_effect(o: Opts, n: Opts, input: Fetched) -> bool {
    match input {
        Fetched::Optional(None) => n == (Opts { auto_hide_duplicates: true, ..o }),
        Fetched::Optional(Some(Some(s))) => n == (Opts { auto_hide_duplicates: s@ != "no"@, ..o }),
        _ => false,
    }
}

pub open spec fn list_executables_in_path_failure(input: Fetched) -> Option<Seq<char>> {
    None
}

pub open spec fn list_executables_in_path_effect(o: Opts, n: Opts, input: Fetched) -> bool {
    n == (Opts { list_executables_in_path: true, ..o })
}

pub open spec fn desktop_icons_failure(input: Fetched) -> Option<Seq<char>> {
    match input {
        Fetched::Optional(Some(None)) => Some("Desktop icon mode must be valid UTF-8"@),
        Fetched::Optional(Some(Some(s))) => match desktop_icon_named(lowercase(trim(s@))) {
            Some(_) => None,
            None => Some(invalid_icon_mode_message(s@)),
        },
        _ => None,
    }
}

pub open spec fn desktop_icons_effect(o: Opts, n: Opts, input: Fetched) -> bool {
    match input {
        Fetched::Optional(None) => n == (Opts { desktop_icon_mode: DesktopIconMode::Preview, ..o }),
        Fetched::Optional(Some(Some(s))) => match desktop_icon_named(lowercase(trim(s@))) {
            Some(m) => n == (Opts { desktop_icon_mode: m, ..o }),
            None => false,
        },
        _ => false,
    }
}

pub open spec fn icon_position_failure(input: Fetched) -> Option<Seq<char>> {
    match input {
        Fetched::Value(ValueRead::Text(s)) => {
            let v = s@;
            match (horizontal_position_named(lowercase(trim(v)))) {
                Some(_) => None,
                None => Some(invalid_message("horizontal position"@, v)),
            }
        },
        Fetched::Value(ValueRead::NotUnicode) => Some("Desktop icon position must be valid UTF-8"@),
        Fetched::Value(ValueRead::Missing(m)) => Some(m@),
        _ => None,
    }
}

pub open spec fn icon_position_effect(o: Opts, n: Opts, input: Fetched) -> bool {
    match input {
        Fetched::Value(ValueRead::Text(s)) => {
            let v = s@;
            match (horizontal_position_named(lowercase(trim(v)))) {
                Some(x) => n == (Opts { desktop_icon_position: x, ..o }),
                None => false,
            }
        },
        _ => false,
    }
}

pub open spec fn icon_preview_width_failure(input: Fetched) -> Option<Seq<char>> {
    match input {
        Fetched::Value(ValueRead::Text(s)) => {
            let v = s@;
            match (match parse_unsigned_spec(v, 0xffff) { Some(n) => Some(n as u16), None => None }) {
                Some(_) => None,
                None => Some("Desktop icon preview width must be an integer"@),
            }
        },
        Fetched::Value(ValueRead::NotUnicode) => Some("Desktop icon preview width must be valid UTF-8"@),
        Fetched::Value(ValueRead::Missing(m)) => Some(m@),
        _ => None,
    }
}

pub open spec fn icon_preview_width_effect(o: Opts, n: Opts, input: Fetched) -> bool {
    match input {
        Fetched::Value(ValueRead::Text(s)) => {
            let v = s@;
            match (match parse_unsigned_spec(v, 0xffff) { Some(n) => Some(n as u16), None => None }) {
                Some(x) => n == (Opts { desktop_icon_preview_width_percent: x, ..o }),
                None => false,
            }
        },
        _ => false,
    }
}

pub open spec fn icon_list_width_failure(input: Fetched) -> Option<Seq<char>> {
    match input {
        Fetched::Value(ValueRead::Text(s)) => {
            let v = s@;
            match (match parse_unsigned_spec(v, 0xffff) { Some(n) => Some(n as u16), None => None }) {
                Some(_) => None,
                None => Some("Desktop list icon width must be an integer"@),
            }
        },
        Fetched::Value(ValueRead::NotUnicode) => Some("Desktop list icon width must be valid UTF-8"@),
        Fetched::Value(ValueRead::Missing(m)) => Some(m@),
        _ => None,
    }
}

pub open spec fn icon_list_width_effect(o: Opts, n: Opts, input: Fetched) -> bool {
    match input {
        Fetched::Value(ValueRead::Text(s)) => {
            let v = s@;
            match (match parse_unsigned_spec(v, 0xffff) { Some(n) => Some(n as u16), None => None }) {
                Some(x) => n == (Opts { desktop_icon_list_width: x, ..o }),
                None => false,
            }
        },
        _ => false,
    }
}

pub open spec fn icon_list_height_failure(input: Fetched) -> Option<Seq<char>> {
    match input {
        Fetched::Value(ValueRead::Text(s)) => {
            let v = s@;
            match (match parse_unsigned_spec(v, 0xffff) { Some(n) => Some(n as u16), None => None }) {
                Some(_) => None,
                None => Some("Desktop list icon height must be an integer"@),
            }
        },
        Fetched::Value(ValueRead::NotUnicode) => Some("Desktop list icon height must be valid UTF-8"@),
        Fetched::Value(ValueRead::Missing(m)) => Some(m@),
        _ => None,
    }
}

pub open spec fn icon_list_height_effect(o: Opts, n: Opts, input: Fetched) -> bool {
    match input {
        Fetched::Value(ValueRead::Text(s)) => {
            let v = s@;
            match (match parse_unsigned_spec(v, 0xffff) { Some(n) => Some(n as u16), None => None }) {
                Some(x) => n == (Opts { desktop_icon_list_height: x, ..o }),
                None => false,
            }
        },
        _ => false,
    }
}

pub open spec fn icon_list_gap_failure(input: Fetched) -> Option<Seq<char>> {
    match input {
        Fetched::Value(ValueRead::Text(s)) => {
            let v = s@;
            match (match parse_unsigned_spec(v, 0xffff) { Some(n) => Some(n as u16), None => None }) {
                Some(_) => None,
                None => Some("Desktop list icon gap must be an integer"@),
            }
        },
        Fetched::Value(ValueRead::NotUnicode) => Some("Desktop list icon gap must be valid UTF-8"@),
        Fetched::Value(ValueRead::Missing(m)) => Some(m@),
        _ => None,
    }
}

pub open spec fn icon_list_gap_effect(o: Opts, n: Opts, input: Fetched) -> bool {
    match input {
        Fetched::Value(ValueRead::Text(s)) => {
            let v = s@;
            match (match parse_unsigned_spec(v, 0xffff) { Some(n) => Some(n as u16), None => None }) {
                Some(x) => n == (Opts { desktop_icon_list_gap: x, ..o }),
                None => false,
            }
        },
        _ => false,
    }
}

pub open spec fn icon_list_vertical_align_failure(input: Fetched) -> Option<Seq<char>> {
    match input {
        Fetched::Value(ValueRead::Text(s)) => {
            let v = s@;
            match (match parse_signed_spec(v, -32768, 32767) { Some(n) => Some(n as i16), None => None }) {
                Some(_) => None,
                None => Some("Desktop list icon vertical alignment must be an integer"@),
            }
        },
        Fetched::Value(ValueRead::NotUnicode) => Some("Desktop list icon vertical alignment must be valid UTF-8"@),
        Fetched::Value(ValueRead::Missing(m)) => Some(m@),
        _ => None,
    }
}

pub open spec fn icon_list_vertical_align_effect(o: Opts, n: Opts, input: Fetched) -> bool {
    match input {
        Fetched::Value(ValueRead::Text(s)) => {
            let v = s@;
            match (match parse_signed_spec(v, -32768, 32767) { Some(n) => Some(n as i16), None => None }) {
                Some(x) => n == (Opts { desktop_icon_list_vertical_align_percent: x, ..o }),
                None => false,
            }
        },
        _ => false,
    }
}

pub open spec fn icon_arrow_before_failure(input: Fetched) -> Option<Seq<char>> {
    None
}

pub open spec fn icon_arrow_before_effect(o: Opts, n: Opts, input: Fetched) -> bool {
    n == (Opts { desktop_icon_arrow_before: true, ..o })
}

pub open spec fn icon_size_failure(input: Fetched) -> Option<Seq<char>> {
    match input {
        Fetched::Value(ValueRead::Text(s)) => {
            let v = s@;
            match (match parse_unsigned_spec(v, 0xffff) { Some(n) => Some(n as u16), None => None }) {
                Some(_) => None,
                None => Some("Desktop icon size must be an integer"@),
            }
        },
        Fetched::Value(ValueRead::NotUnicode) => Some("Desktop icon size must be valid UTF-8"@),
        Fetched::Value(ValueRead::Missing(m)) => Some(m@),
        _ => None,
    }
}

pub open spec fn icon_size_effect(o: Opts, n: Opts, input: Fetched) -> bool {
    match input {
        Fetched::Value(ValueRead::Text(s)) => {
            let v = s@;
            match (match parse_unsigned_spec(v, 0xffff) { Some(n) => Some(n as u16), None => None }) {
                Some(x) => n == (Opts { desktop_icon_size: x, ..o }),
                None => false,
            }
        },
        _ => false,
    }
}

pub open spec fn icon_horizontal_align_failure(input: Fetched) -> Option<Seq<char>> {
    match input {
        Fetched::Value(ValueRead::Text(s)) => {
            let v = s@;
            match (match parse_unsigned_spec(v, 0xffff) { Some(n) => Some(n as u16), None => None }) {
                Some(_) => None,
                None => Some("Desktop icon horizontal alignment must be an integer"@),
            }
        },
        Fetched::Value(ValueRead::NotUnicode) => Some("Desktop icon horizontal alignment must be valid UTF-8"@),
        Fetched::Value(ValueRead::Missing(m)) => Some(m@),
        _ => None,
    }
}

pub open spec fn icon_horizontal_align_effect(o: Opts, n: Opts, input: Fetched) -> bool {
    match input {
        Fetched::Value(ValueRead::Text(s)) => {
            let v = s@;
            match (match parse_unsigned_spec(v, 0xffff) { Some(n) => Some(n as u16), None => None }) {
                Some(x) => n == (Opts { desktop_icon_horizontal_align_percent: x, ..o }),
                None => false,
            }
        },
        _ => false,
    }
}

pub open spec fn icon_vertical_align_failure(input: Fetched) -> Option<Seq<char>> {
    match input {
        Fetched::Value(ValueRead::Text(s)) => {
            let v = s@;
            match (match parse_unsigned_spec(v, 0xffff) { Some(n) => Some(n as u16), None => None }) {
                Some(_) => None,
                None => Some("Desktop icon vertical alignment must be an integer"@),
            }
        },
        Fetched::Value(ValueRead::NotUnicode) => Some("Desktop icon vertical alignment must be valid UTF-8"@),
        Fetched::Value(ValueRead::Missing(m)) => Some(m@),
        _ => None,
    }
}

pub open spec fn icon_vertical_align_effect(o: Opts, n: Opts, input: Fetched) -> bool {
    match input {
        Fetched::Value(ValueRead::Text(s)) => {
            let v = s@;
            match (match parse_unsigned_spec(v, 0xffff) { Some(n) => Some(n as u16), None => None }) {
                Some(x) => n == (Opts { desktop_icon_vertical_align_percent: x, ..o }),
                None => false,
            }
        },
        _ => false,
    }
}

pub open spec fn icon_theme_failure(input: Fetched) -> Option<Seq<char>> {
    match input {
        Fetched::Value(ValueRead::Text(_)) => None,
        Fetched::Value(ValueRead::NotUnicode) => Some("Desktop icon theme must be valid UTF-8"@),
        Fetched::Value(ValueRead::Missing(m)) => Some(m@),
        _ => None,
    }
}

pub open spec fn icon_theme_effect(o: Opts, n: Opts, input: Fetched) -> bool {
    match input {
        Fetched::Value(ValueRead::Text(s)) => n == (Opts { desktop_icon_theme: n.desktop_icon_theme, ..o })
            && opt_string_view(n.desktop_icon_theme) == Some(s@),
        _ => false,
    }
}

pub open spec fn match_mode_option_failure(input: Fetched) -> Option<Seq<char>> {
    match input {
        Fetched::Value(ValueRead::Text(s)) => {
            let v = s@;
            match (match_mode_named(lowercase(trim(v)))) {
                Some(_) => None,
                None => Some("Invalid match mode. Use 'exact' or 'fuzzy'"@),
            }
        },
        Fetched::Value(ValueRead::NotUnicode) => Some("Match mode must be valid UTF-8"@),
        Fetched::Value(ValueRead::Missing(m)) => Some(m@),
        _ => None,
    }
}

pub open spec fn match_mode_option_effect(o: Opts, n: Opts, input: Fetched) -> bool {
    match input {
        Fetched::Value(ValueRead::Text(s)) => {
            let v = s@;
            match (match_mode_named(lowercase(trim(v)))) {
                Some(x) => n == (Opts { match_mode: x, ..o }),
                None => false,
            }
        },
        _ => false,
    }
}

pub open spec fn prefix_depth_failure(input: Fetched) -> Option<Seq<char>> {
    match input {
        Fetched::Value(ValueRead::Text(s)) => {
            let v = s@;
            match (match parse_unsigned_spec(v, (usize::MAX as u64) as int) { Some(n) => Some(n as usize), None => None }) {
                Some(_) => None,
                None => Some("Invalid prefix depth"@),
            }
        },
        Fetched::Value(ValueRead::NotUnicode) => Some("Prefix depth must be valid UTF-8"@),
        Fetched::Value(ValueRead::Missing(m)) => Some(m@),
        _ => None,
    }
}

pub open spec fn prefix_depth_effect(o: Opts, n: Opts, input: Fetched) -> bool {
    match input {
        Fetched::Value(ValueRead::Text(s)) => {
            let v = s@;
            match (match parse_unsigned_spec(v, (usize::MAX as u64) as int) { Some(n) => Some(n as usize), None => None }) {
                Some(x) => n == (Opts { prefix_depth: x, ..o }),
                None => false,
            }
        },
        _ => false,
    }
}

pub open spec fn test_failure(input: Fetched) -> Option<Seq<char>> {
    None
}

pub open spec fn test_effect(o: Opts, n: Opts, input: Fetched) -> bool {
    n == (Opts { test_mode: true, verbose: Some(3u64), ..o })
}

pub open spec fn with_nth_failure(input: Fetched) -> Option<Seq<char>> {
    match input {
        Fetched::Value(ValueRead::Text(s)) => match column_list(s@) {
            Some(_) => None,
            None => Some("Invalid column specification. Use comma-separated numbers like: 1,2,4"@),
        },
        Fetched::Value(ValueRead::NotUnicode) => Some("Invalid column specification. Use comma-separated numbers like: 1,2,4"@),
        Fetched::Value(ValueRead::Missing(m)) => Some(m@),
        _ => None,
    }
}

pub open spec fn with_nth_effect(o: Opts, n: Opts, input: Fetched) -> bool {
    match input {
        Fetched::Value(ValueRead::Text(s)) => match column_list(s@) {
            Some(c) => n.dmenu_with_nth matches Some(w)
                && w@ == c
                && n == (Opts { dmenu_with_nth: n.dmenu_with_nth, ..o }),
            None => false,
        },
        _ => false,
    }
}

pub open spec fn delimiter_failure(input: Fetched) -> Option<Seq<char>> {
    match input {
        Fetched::Value(ValueRead::Text(_)) => None,
        Fetched::Value(ValueRead::NotUnicode) => Some("Delimiter must be valid UTF-8"@),
        Fetched::Value(ValueRead::Missing(m)) => Some(m@),
        _ => None,
    }
}

pub open spec fn delimiter_effect(o: Opts, n: Opts, input: Fetched) -> bool {
    match input {
        Fetched::Value(ValueRead::Text(s)) => n == (Opts { dmenu_delimiter: n.dmenu_delimiter, ..o })
            && n.dmenu_delimiter@ == s@,
        _ => false,
    }
}

pub open spec fn program_failure(input: Fetched) -> Option<Seq<char>> {
    match input {
        Fetched::Value(ValueRead::Text(_)) => None,
        Fetched::Value(ValueRead::NotUnicode) => Some("Program name must be valid UTF-8"@),
        Fetched::Value(ValueRead::Missing(m)) => Some(m@),
        _ => None,
    }
}

pub open spec fn program_effect(o: Opts, n: Opts, input: Fetched) -> bool {
    match input {
        Fetched::Value(ValueRead::Text(s)) => n == (Opts { program: n.program, ..o })
            && opt_string_view(n.program) == Some(s@),
        _ => false,
    }
}

pub open spec fn verbose_failure(input: Fetched) -> Option<Seq<char>> {
    None
}

pub open spec fn verbose_effect(o: Opts, n: Opts, input: Fetched) -> bool {
    n == (Opts { verbose: Some(match o.verbose { Some(c) => if c < u64::MAX { (c + 1) as u64 } else { c }, None => 1u64 }), ..o })
}


fn apply_panel_edit(opts: &mut Opts, input: Fetched) -> (r: Result<(), CliError>)
    requires
        input_fits(wants(OptionKind::PanelEdit), input),
    ensures
        match panel_edit_failure(input) {
            Some(m) => r matches Err(CliError::Message(e)) && e@ == m && *final(opts) == *old(opts),
            None => r is Ok && panel_edit_effect(*old(opts), *final(opts), input),
        },
{
    let mut o = Opts::default();
    std::mem::swap(&mut o, opts);
    *opts = Opts { dmenu_panel_edit: true, dmenu_mode: true, ..o };
    Ok(())
}

fn apply_panel(opts: &mut Opts, input: Fetched) -> (r: Result<(), CliError>)
    requires
        input_fits(wants(OptionKind::Panel), input),
    ensures
        match panel_failure(input) {
            Some(m) => r matches Err(CliError::Message(e)) && e@ == m && *final(opts) == *old(opts),
            None => r is Ok && panel_effect(*old(opts), *final(opts), input),
        },
{
    match input {
        Fetched::Value(ValueRead::Text(s)) => {
            let panel = match DmenuPanel::parse(s.as_str()) {
                Ok(p) => p,
                Err(e) => return Err(CliError::Message(e)),
            };
            let mut o = Opts::default();
            std::mem::swap(&mut o, opts);
            let mut panels = Vec::new();
            std::mem::swap(&mut panels, &mut o.dmenu_panels);
            let ghost before = panels@;
            panels.push(panel);
            assert(panels@.drop_last() == before);
            *opts = Opts { dmenu_panels: panels, dmenu_mode: true, ..o };
            Ok(())
        },
        Fetched::Value(ValueRead::NotUnicode) => Err(CliError::Message(String::from_str("Invalid panel specification"))),
        Fetched::Value(ValueRead::Missing(m)) => Err(CliError::Message(m)),
        _ => Ok(()),
    }
}

fn apply_info_position(opts: &mut Opts, input: Fetched) -> (r: Result<(), CliError>)
    requires
        input_fits(wants(OptionKind::InfoPosition), input),
    ensures
        match info_position_failure(input) {
            Some(m) => r matches Err(CliError::Message(e)) && e@ == m && *final(opts) == *old(opts),
            None => r is Ok && info_position_effect(*old(opts), *final(opts), input),
        },
{
    match input {
        Fetched::Value(ValueRead::Text(s)) => {
            let x = match PanelSide::parse(s.as_str()) {
                Ok(x) => x,
                Err(e) => return Err(CliError::Message(e)),
            };
            let mut o = Opts::default();
            std::mem::swap(&mut o, opts);
            let p = PanelsConfig { info_position: Some(x), ..o.panels };
            *opts = Opts { panels: p, ..o };
            Ok(())
        },
        Fetched::Value(ValueRead::NotUnicode) => Err(CliError::Message(String::from_str("Invalid panel side"))),
        Fetched::Value(ValueRead::Missing(m)) => Err(CliError::Message(m)),
        _ => Ok(()),
    }
}

fn apply_input_position(opts: &mut Opts, input: Fetched) -> (r: Result<(), CliError>)
    requires
        input_fits(wants(OptionKind::InputPosition), input),
    ensures
        match input_position_failure(input) {
            Some(m) => r matches Err(CliError::Message(e)) && e@ == m && *final(opts) == *old(opts),
            None => r is Ok && input_position_effect(*old(opts), *final(opts), input),
        },
{
    match input {
        Fetched::Value(ValueRead::Text(s)) => {
            let x = match PanelSide::parse(s.as_str()) {
                Ok(x) => x,
                Err(e) => return Err(CliError::Message(e)),
            };
            let mut o = Opts::default();
            std::mem::swap(&mut o, opts);
            let p = PanelsConfig { input_position: Some(x), ..o.panels };
            *opts = Opts { panels: p, ..o };
            Ok(())
        },
        Fetched::Value(ValueRead::NotUnicode) => Err(CliError::Message(String::from_str("Invalid panel side"))),
        Fetched::Value(ValueRead::Missing(m)) => Err(CliError::Message(m)),
        _ => Ok(()),
    }
}

fn apply_info_size(opts: &mut Opts, input: Fetched) -> (r: Result<(), CliError>)
    requires
        input_fits(wants(OptionKind::InfoSize), input),
    ensures
        match info_size_failure(input) {
            Some(m) => r matches Err(CliError::Message(e)) && e@ == m && *final(opts) == *old(opts),
            None => r is Ok && info_size_effect(*old(opts), *final(opts), input),
        },
{
    match input {
        Fetched::Value(ValueRead::Text(s)) => {
            let x = match match parse_unsigned(s.as_str(), 0xffff) { Some(n) => Some(n as u16), None => None } {
                Some(x) => x,
                None => return Err(CliError::Message(String::from_str("info size must be an integer"))),
            };
            let mut o = Opts::default();
            std::mem::swap(&mut o, opts);
            let p = PanelsConfig { info_size: Some(x), ..o.panels };
            *opts = Opts { panels: p, ..o };
            Ok(())
        },
        Fetched::Value(ValueRead::NotUnicode) => Err(CliError::Message(String::from_str("Invalid info size"))),
        Fetched::Value(ValueRead::Missing(m)) => Err(CliError::Message(m)),
        _ => Ok(()),
    }
}

fn apply_input_size(opts: &mut Opts, input: Fetched) -> (r: Result<(), CliError>)
    requires
        input_fits(wants(OptionKind::InputSize), input),
    ensures
        match input_size_failure(input) {
            Some(m) => r matches Err(CliError::Message(e)) && e@ == m && *final(opts) == *old(opts),
            None => r is Ok && input_size_effect(*old(opts), *final(opts), input),
        },
{
    match input {
        Fetched::Value(ValueRead::Text(s)) => {
            let x = match match parse_unsigned(s.as_str(), 0xffff) { Some(n) => Some(n as u16), None => None } {
                Some(x) => x,
                None => return Err(CliError::Message(String::from_str("input size must be an integer"))),
            };
            let mut o = Opts::default();
            std::mem::swap(&mut o, opts);
            let p = PanelsConfig { input_size: Some(x), ..o.panels };
            *opts = Opts { panels: p, ..o };
            Ok(())
        },
        Fetched::Value(ValueRead::NotUnicode) => Err(CliError::Message(String::from_str("Invalid input size"))),
        Fetched::Value(ValueRead::Missing(m)) => Err(CliError::Message(m)),
        _ => Ok(()),
    }
}

fn apply_layout_rotation(opts: &mut Opts, input: Fetched) -> (r: Result<(), CliError>)
    requires
        input_fits(wants(OptionKind::LayoutRotation), input),
    ensures
        match layout_rotation_failure(input) {
            Some(m) => r matches Err(CliError::Message(e)) && e@ == m && *final(opts) == *old(opts),
            None => r is Ok && layout_rotation_effect(*old(opts), *final(opts), input),
        },
{
    match input {
        Fetched::Value(ValueRead::Text(s)) => {
            let x = match match parse_unsigned(s.as_str(), 0xffff) { Some(n) => Some(n as u16), None => None } {
                Some(x) => x,
                None => return Err(CliError::Message(String::from_str("layout rotation must be an integer"))),
            };
            let mut o = Opts::default();
            std::mem::swap(&mut o, opts);
            let p = PanelsConfig { rotation: x, ..o.panels };
            *opts = Opts { panels: p, ..o };
            Ok(())
        },
        Fetched::Value(ValueRead::NotUnicode) => Err(CliError::Message(String::from_str("Invalid rotation"))),
        Fetched::Value(ValueRead::Missing(m)) => Err(CliError::Message(m)),
        _ => Ok(()),
    }
}

fn apply_item_width(opts: &mut Opts, input: Fetched) -> (r: Result<(), CliError>)
    requires
        input_fits(wants(OptionKind::ItemWidth), input),
    ensures
        match item_width_failure(input) {
            Some(m) => r matches Err(CliError::Message(e)) && e@ == m && *final(opts) == *old(opts),
            None => r is Ok && item_width_effect(*old(opts), *final(opts), input),
        },
{
    match input {
        Fetched::Value(ValueRead::Text(s)) => {
            let x = match match parse_unsigned(s.as_str(), 0xffff) { Some(n) => Some(n as u16), None => None } {
                Some(x) => x,
                None => return Err(CliError::Message(String::from_str("item width must be an integer"))),
            };
            let mut o = Opts::default();
            std::mem::swap(&mut o, opts);
            let p = PanelsConfig { item_width: x, ..o.panels };
            *opts = Opts { panels: p, ..o };
            Ok(())
        },
        Fetched::Value(ValueRead::NotUnicode) => Err(CliError::Message(String::from_str("Invalid item width"))),
        Fetched::Value(ValueRead::Missing(m)) => Err(CliError::Message(m)),
        _ => Ok(()),
    }
}

fn apply_tty(opts: &mut Opts, input: Fetched) -> (r: Result<(), CliError>)
    requires
        input_fits(wants(OptionKind::Tty), input),
    ensures
        match tty_failure(input) {
            Some(m) => r matches Err(CliError::Message(e)) && e@ == m && *final(opts) == *old(opts),
            None => r is Ok && tty_effect(*old(opts), *final(opts), input),
        },
{
    let mut o = Opts::default();
    std::mem::swap(&mut o, opts);
    *opts = Opts { tty: true, terminal_launcher: String::new(), ..o };
    Ok(())
}

fn apply_replace(opts: &mut Opts, input: Fetched) -> (r: Result<(), CliError>)
    requires
        input_fits(wants(OptionKind::Replace), input),
    ensures
        match replace_failure(input) {
            Some(m) => r matches Err(CliError::Message(e)) && e@ == m && *final(opts) == *old(opts),
            None => r is Ok && replace_effect(*old(opts), *final(opts), input),
        },
{
    let mut o = Opts::default();
    std::mem::swap(&mut o, opts);
    *opts = Opts { replace: true, ..o };
    Ok(())
}

fn apply_config(opts: &mut Opts, input: Fetched) -> (r: Result<(), CliError>)
    requires
        input_fits(wants(OptionKind::Config), input),
    ensures
        match config_failure(input) {
            Some(m) => r matches Err(CliError::Message(e)) && e@ == m && *final(opts) == *old(opts),
            None => r is Ok && config_effect(*old(opts), *final(opts), input),
        },
{
    match input {
        Fetched::Value(ValueRead::Missing(m)) => Err(CliError::Message(m)),
        _ => Ok(()),
    }
}

fn apply_clear_history(opts: &mut Opts, input: Fetched) -> (r: Result<(), CliError>)
    requires
        input_fits(wants(OptionKind::ClearHistory), input),
    ensures
        match clear_history_failure(input) {
            Some(m) => r matches Err(CliError::Message(e)) && e@ == m && *final(opts) == *old(opts),
            None => r is Ok && clear_history_effect(*old(opts), *final(opts), input),
        },
{
    let mut o = Opts::default();
    std::mem::swap(&mut o, opts);
    *opts = Opts { clear_history: true, ..o };
    Ok(())
}

fn apply_clear_cache(opts: &mut Opts, input: Fetched) -> (r: Result<(), CliError>)
    requires
        input_fits(wants(OptionKind::ClearCache), input),
    ensures
        match clear_cache_failure(input) {
            Some(m) => r matches Err(CliError::Message(e)) && e@ == m && *final(opts) == *old(opts),
            None => r is Ok && clear_cache_effect(*old(opts), *final(opts), input),
        },
{
    let mut o = Opts::default();
    std::mem::swap(&mut o, opts);
    *opts = Opts { clear_cache: true, ..o };
    Ok(())
}

fn apply_refresh_cache(opts: &mut Opts, input: Fetched) -> (r: Result<(), CliError>)
    requires
        input_fits(wants(OptionKind::RefreshCache), input),
    ensures
        match refresh_cache_failure(input) {
            Some(m) => r matches Err(CliError::Message(e)) && e@ == m && *final(opts) == *old(opts),
            None => r is Ok && refresh_cache_effect(*old(opts), *final(opts), input),
        },
{
    let mut o = Opts::default();
    std::mem::swap(&mut o, opts);
    *opts = Opts { refresh_cache: true, ..o };
    Ok(())
}

fn apply_list_hidden(opts: &mut Opts, input: Fetched) -> (r: Result<(), CliError>)
    requires
        input_fits(wants(OptionKind::ListHidden), input),
    ensures
        match list_hidden_failure(input) {
            Some(m) => r matches Err(CliError::Message(e)) && e@ == m && *final(opts) == *old(opts),
            None => r is Ok && list_hidden_effect(*old(opts), *final(opts), input),
        },
{
    let mut o = Opts::default();
    std::mem::swap(&mut o, opts);
    *opts = Opts { list_hidden: true, ..o };
    Ok(())
}

fn apply_unhide(opts: &mut Opts, input: Fetched) -> (r: Result<(), CliError>)
    requires
        input_fits(wants(OptionKind::Unhide), input),
    ensures
        match unhide_failure(input) {
            Some(m) => r matches Err(CliError::Message(e)) && e@ == m && *final(opts) == *old(opts),
            None => r is Ok && unhide_effect(*old(opts), *final(opts), input),
        },
{
    match input {
        Fetched::Value(ValueRead::Text(s)) => {
            let x = match parse_unsigned(s.as_str(), 0xffff_ffff_ffff_ffff) {
                Some(x) => x,
                None => return Err(CliError::Message(String::from_str("Hidden entry ID must be an integer"))),
            };
            let mut o = Opts::default();
            std::mem::swap(&mut o, opts);
            *opts = Opts { unhide: Some(x), ..o };
            Ok(())
        },
        Fetched::Value(ValueRead::NotUnicode) => Err(CliError::Message(String::from_str("Hidden entry ID must be valid UTF-8"))),
        Fetched::Value(ValueRead::Missing(m)) => Err(CliError::Message(m)),
        _ => Ok(()),
    }
}

fn apply_unhide_all(opts: &mut Opts, input: Fetched) -> (r: Result<(), CliError>)
    requires
        input_fits(wants(OptionKind::UnhideAll), input),
    ensures
        match unhide_all_failure(input) {
            Some(m) => r matches Err(CliError::Message(e)) && e@ == m && *final(opts) == *old(opts),
            None => r is Ok && unhide_all_effect(*old(opts), *final(opts), input),
        },
{
    let mut o = Opts::default();
    std::mem::swap(&mut o, opts);
    *opts = Opts { unhide_all: true, ..o };
    Ok(())
}

fn apply_no_exec(opts: &mut Opts, input: Fetched) -> (r: Result<(), CliError>)
    requires
        input_fits(wants(OptionKind::NoExec), input),
    ensures
        match no_exec_failure(input) {
            Some(m) => r matches Err(CliError::Message(e)) && e@ == m && *final(opts) == *old(opts),
            None => r is Ok && no_exec_effect(*old(opts), *final(opts), input),
        },
{
    let mut o = Opts::default();
    std::mem::swap(&mut o, opts);
    *opts = Opts { no_exec: true, ..o };
    Ok(())
}

fn apply_stdout(opts: &mut Opts, input: Fetched) -> (r: Result<(), CliError>)
    requires
        input_fits(wants(OptionKind::Stdout), input),
    ensures
        match stdout_failure(input) {
            Some(m) => r matches Err(CliError::Message(e)) && e@ == m && *final(opts) == *old(opts),
            None => r is Ok && stdout_effect(*old(opts), *final(opts), input),
        },
{
    let mut o = Opts::default();
    std::mem::swap(&mut o, opts);
    *opts = Opts { stdout: true, ..o };
    Ok(())
}

fn apply_launch_prefix(opts: &mut Opts, input: Fetched) -> (r: Result<(), CliError>)
    requires
        input_fits(wants(OptionKind::LaunchPrefix), input),
    ensures
        match launch_prefix_failure(input) {
            Some(m) => r matches Err(CliError::Message(e)) && e@ == m && *final(opts) == *old(opts),
            None => r is Ok && launch_prefix_effect(*old(opts), *final(opts), input),
        },
{
    match input {
        Fetched::Value(ValueRead::Text(s)) => {
            let words = match parse_launch_prefix(s.as_str()) {
                Ok(w) => w,
                Err(e) => return Err(CliError::Message(e)),
            };
            let mut o = Opts::default();
            std::mem::swap(&mut o, opts);
            *opts = Opts { launch_prefix: Some(words), systemd_run: false, uwsm: false, ..o };
            Ok(())
        },
        Fetched::Value(ValueRead::NotUnicode) => Err(CliError::Message(String::from_str("Launch prefix must be valid UTF-8"))),
        Fetched::Value(ValueRead::Missing(m)) => Err(CliError::Message(m)),
        _ => Ok(()),
    }
}

fn apply_systemd_run(opts: &mut Opts, input: Fetched) -> (r: Result<(), CliError>)
    requires
        input_fits(wants(OptionKind::SystemdRun), input),
    ensures
        match systemd_run_failure(input) {
            Some(m) => r matches Err(CliError::Message(e)) && e@ == m && *final(opts) == *old(opts),
            None => r is Ok && systemd_run_effect(*old(opts), *final(opts), input),
        },
{
    let mut o = Opts::default();
    std::mem::swap(&mut o, opts);
    *opts = Opts { launch_prefix: None, systemd_run: true, uwsm: false, ..o };
    Ok(())
}

fn apply_uwsm(opts: &mut Opts, input: Fetched) -> (r: Result<(), CliError>)
    requires
        input_fits(wants(OptionKind::Uwsm), input),
    ensures
        match uwsm_failure(input) {
            Some(m) => r matches Err(CliError::Message(e)) && e@ == m && *final(opts) == *old(opts),
            None => r is Ok && uwsm_effect(*old(opts), *final(opts), input),
        },
{
    let mut o = Opts::default();
    std::mem::swap(&mut o, opts);
    *opts = Opts { launch_prefix: None, systemd_run: false, uwsm: true, ..o };
    Ok(())
}

fn apply_detach(opts: &mut Opts, input: Fetched) -> (r: Result<(), CliError>)
    requires
        input_fits(wants(OptionKind::Detach), input),
    ensures
        match detach_failure(input) {
            Some(m) => r matches Err(CliError::Message(e)) && e@ == m && *final(opts) == *old(opts),
            None => r is Ok && detach_effect(*old(opts), *final(opts), input),
        },
{
    let mut o = Opts::default();
    std::mem::swap(&mut o, opts);
    *opts = Opts { detach: true, ..o };
    Ok(())
}

fn apply_dmenu(opts: &mut Opts, input: Fetched) -> (r: Result<(), CliError>)
    requires
        input_fits(wants(OptionKind::Dmenu), input),
    ensures
        match dmenu_failure(input) {
            Some(m) => r matches Err(CliError::Message(e)) && e@ == m && *final(opts) == *old(opts),
            None => r is Ok && dmenu_effect(*old(opts), *final(opts), input),
        },
{
    let mut o = Opts::default();
    std::mem::swap(&mut o, opts);
    *opts = Opts { dmenu_mode: true, ..o };
    Ok(())
}

fn apply_cclip(opts: &mut Opts, input: Fetched) -> (r: Result<(), CliError>)
    requires
        input_fits(wants(OptionKind::Cclip), input),
    ensures
        match cclip_failure(input) {
            Some(m) => r matches Err(CliError::Message(e)) && e@ == m && *final(opts) == *old(opts),
            None => r is Ok && cclip_effect(*old(opts), *final(opts), input),
        },
{
    let mut o = Opts::default();
    std::mem::swap(&mut o, opts);
    *opts = Opts { cclip_mode: true, ..o };
    Ok(())
}

fn apply_tag(opts: &mut Opts, input: Fetched) -> (r: Result<(), CliError>)
    requires
        input_fits(wants(OptionKind::Tag), input),
    ensures
        match tag_failure(input) {
            Some(m) => r matches Err(CliError::Message(e)) && e@ == m && *final(opts) == *old(opts),
            None => r is Ok && tag_effect(*old(opts), *final(opts), input),
        },
{
    match input {
        Fetched::Tag(ValueRead::Text(s), extra) => {
            let c = crate::text::chars_of(s.as_str());
            let mut o = Opts::default();
            std::mem::swap(&mut o, opts);
            if crate::text::vec_is(&c, "list") {
                match extra {
                    Some(Some(Some(t))) => {
                        *opts = Opts { cclip_tag_list: true, cclip_tag: Some(t), ..o };
                        Ok(())
                    },
                    Some(Some(None)) => {
                        *opts = o;
                        Err(CliError::Message(String::from_str("Tag name must be valid UTF-8")))
                    },
                    Some(None) => {
                        *opts = Opts { cclip_tag_list: true, ..o };
                        Ok(())
                    },
                    None => {
                        *opts = o;
                        Ok(())
                    },
                }
            } else if crate::text::vec_is(&c, "clear") {
                *opts = Opts { cclip_clear_tags: true, ..o };
                Ok(())
            } else if crate::text::vec_is(&c, "wipe") {
                *opts = Opts { cclip_wipe_tags: true, ..o };
                Ok(())
            } else {
                *opts = Opts { cclip_tag: Some(s), ..o };
                Ok(())
            }
        },
        Fetched::Tag(ValueRead::NotUnicode, _) => Err(CliError::Message(String::from_str("Tag argument must be valid UTF-8"))),
        Fetched::Tag(ValueRead::Missing(m), _) => Err(CliError::Message(m)),
        _ => Ok(()),
    }
}

fn apply_cclip_show_tag_color_names(opts: &mut Opts, input: Fetched) -> (r: Result<(), CliError>)
    requires
        input_fits(wants(OptionKind::CclipShowTagColorNames), input),
    ensures
        match cclip_show_tag_color_names_failure(input) {
            Some(m) => r matches Err(CliError::Message(e)) && e@ == m && *final(opts) == *old(opts),
            None => r is Ok && cclip_show_tag_color_names_effect(*old(opts), *final(opts), input),
        },
{
    let mut o = Opts::default();
    std::mem::swap(&mut o, opts);
    *opts = Opts { cclip_show_tag_color_names: Some(true), ..o };
    Ok(())
}

fn apply_dmenu0(opts: &mut Opts, input: Fetched) -> (r: Result<(), CliError>)
    requires
        input_fits(wants(OptionKind::Dmenu0), input),
    ensures
        match dmenu0_failure(input) {
            Some(m) => r matches Err(CliError::Message(e)) && e@ == m && *final(opts) == *old(opts),
            None => r is Ok && dmenu0_effect(*old(opts), *final(opts), input),
        },
{
    let mut o = Opts::default();
    std::mem::swap(&mut o, opts);
    *opts = Opts { dmenu_mode: true, dmenu_null_separated: true, ..o };
    Ok(())
}

fn apply_preview(opts: &mut Opts, input: Fetched) -> (r: Result<(), CliError>)
    requires
        input_fits(wants(OptionKind::Preview), input),
    ensures
        match preview_failure(input) {
            Some(m) => r matches Err(CliError::Message(e)) && e@ == m && *final(opts) == *old(opts),
            None => r is Ok && preview_effect(*old(opts), *final(opts), input),
        },
{
    match input {
        Fetched::Value(ValueRead::Text(s)) => {
            let mut o = Opts::default();
            std::mem::swap(&mut o, opts);
            *opts = Opts { dmenu_preview: Some(s), dmenu_mode: true, ..o };
            Ok(())
        },
        Fetched::Value(ValueRead::NotUnicode) => Err(CliError::Message(String::from_str("Preview command must be valid UTF-8"))),
        Fetched::Value(ValueRead::Missing(m)) => Err(CliError::Message(m)),
        _ => Ok(()),
    }
}

fn apply_password(opts: &mut Opts, input: Fetched) -> (r: Result<(), CliError>)
    requires
        input_fits(wants(OptionKind::Password), input),
    ensures
        match password_failure(input) {
            Some(m) => r matches Err(CliError::Message(e)) && e@ == m && *final(opts) == *old(opts),
            None => r is Ok && password_effect(*old(opts), *final(opts), input),
        },
{
    match input {
        Fetched::Optional(None) => {
            let mut o = Opts::default();
            std::mem::swap(&mut o, opts);
            *opts = Opts { dmenu_password_mode: true, ..o };
            Ok(())
        },
        Fetched::Optional(Some(Some(s))) => {
            let mut o = Opts::default();
            std::mem::swap(&mut o, opts);
            *opts = Opts { dmenu_password_mode: true, dmenu_password_character: s, ..o };
            Ok(())
        },
        Fetched::Optional(Some(None)) => Err(CliError::Message(String::from_str("Password character must be valid UTF-8"))),
        _ => Ok(()),
    }
}

fn apply_index(opts: &mut Opts, input: Fetched) -> (r: Result<(), CliError>)
    requires
        input_fits(wants(OptionKind::Index), input),
    ensures
        match index_failure(input) {
            Some(m) => r matches Err(CliError::Message(e)) && e@ == m && *final(opts) == *old(opts),
            None => r is Ok && index_effect(*old(opts), *final(opts), input),
        },
{
    let mut o = Opts::default();
    std::mem::swap(&mut o, opts);
    *opts = Opts { dmenu_index_mode: true, ..o };
    Ok(())
}

fn apply_index_original(opts: &mut Opts, input: Fetched) -> (r: Result<(), CliError>)
    requires
        input_fits(wants(OptionKind::IndexOriginal), input),
    ensures
        match index_original_failure(input) {
            Some(m) => r matches Err(CliError::Message(e)) && e@ == m && *final(opts) == *old(opts),
            None => r is Ok && index_original_effect(*old(opts), *final(opts), input),
        },
{
    let mut o = Opts::default();
    std::mem::swap(&mut o, opts);
    *opts = Opts { dmenu_index_original_mode: true, ..o };
    Ok(())
}

fn apply_accept_nth(opts: &mut Opts, input: Fetched) -> (r: Result<(), CliError>)
    requires
        input_fits(wants(OptionKind::AcceptNth), input),
    ensures
        match accept_nth_failure(input) {
            Some(m) => r matches Err(CliError::Message(e)) && e@ == m && *final(opts) == *old(opts),
            None => r is Ok && accept_nth_effect(*old(opts), *final(opts), input),
        },
{
    match input {
        Fetched::Value(ValueRead::Text(s)) => {
            let c = match parse_column_list(s.as_str()) {
                Some(c) => c,
                None => return Err(CliError::Message(String::from_str("Invalid column specification"))),
            };
            let mut o = Opts::default();
            std::mem::swap(&mut o, opts);
            *opts = Opts { dmenu_accept_nth: Some(c), ..o };
            Ok(())
        },
        Fetched::Value(ValueRead::NotUnicode) => Err(CliError::Message(String::from_str("Invalid column specification"))),
        Fetched::Value(ValueRead::Missing(m)) => Err(CliError::Message(m)),
        _ => Ok(()),
    }
}

fn apply_match_nth(opts: &mut Opts, input: Fetched) -> (r: Result<(), CliError>)
    requires
        input_fits(wants(OptionKind::MatchNth), input),
    ensures
        match match_nth_failure(input) {
            Some(m) => r matches Err(CliError::Message(e)) && e@ == m && *final(opts) == *old(opts),
            None => r is Ok && match_nth_effect(*old(opts), *final(opts), input),
        },
{
    match input {
        Fetched::Value(ValueRead::Text(s)) => {
            let c = match parse_column_list(s.as_str()) {
                Some(c) => c,
                None => return Err(CliError::Message(String::from_str("Invalid column specification"))),
            };
            let mut o = Opts::default();
            std::mem::swap(&mut o, opts);
            *opts = Opts { dmenu_match_nth: Some(c), ..o };
            Ok(())
        },
        Fetched::Value(ValueRead::NotUnicode) => Err(CliError::Message(String::from_str("Invalid column specification"))),
        Fetched::Value(ValueRead::Missing(m)) => Err(CliError::Message(m)),
        _ => Ok(()),
    }
}

fn apply_only_match(opts: &mut Opts, input: Fetched) -> (r: Result<(), CliError>)
    requires
        input_fits(wants(OptionKind::OnlyMatch), input),
    ensures
        match only_match_failure(input) {
            Some(m) => r matches Err(CliError::Message(e)) && e@ == m && *final(opts) == *old(opts),
            None => r is Ok && only_match_effect(*old(opts), *final(opts), input),
        },
{
    let mut o = Opts::default();
    std::mem::swap(&mut o, opts);
    *opts = Opts { dmenu_only_match: true, ..o };
    Ok(())
}

fn apply_exit_if_empty(opts: &mut Opts, input: Fetched) -> (r: Result<(), CliError>)
    requires
        input_fits(wants(OptionKind::ExitIfEmpty), input),
    ensures
        match exit_if_empty_failure(input) {
            Some(m) => r matches Err(CliError::Message(e)) && e@ == m && *final(opts) == *old(opts),
            None => r is Ok && exit_if_empty_effect(*old(opts), *final(opts), input),
        },
{
    let mut o = Opts::default();
    std::mem::swap(&mut o, opts);
    *opts = Opts { dmenu_exit_if_empty: true, ..o };
    Ok(())
}

fn apply_select(opts: &mut Opts, input: Fetched) -> (r: Result<(), CliError>)
    requires
        input_fits(wants(OptionKind::Select), input),
    ensures
        match select_failure(input) {
            Some(m) => r matches Err(CliError::Message(e)) && e@ == m && *final(opts) == *old(opts),
            None => r is Ok && select_effect(*old(opts), *final(opts), input),
        },
{
    match input {
        Fetched::Value(ValueRead::Text(s)) => {
            let mut o = Opts::default();
            std::mem::swap(&mut o, opts);
            *opts = Opts { dmenu_select: Some(s), ..o };
            Ok(())
        },
        Fetched::Value(ValueRead::NotUnicode) => Err(CliError::Message(String::from_str("Select string must be valid UTF-8"))),
        Fetched::Value(ValueRead::Missing(m)) => Err(CliError::Message(m)),
        _ => Ok(()),
    }
}

fn apply_select_index(opts: &mut Opts, input: Fetched) -> (r: Result<(), CliError>)
    requires
        input_fits(wants(OptionKind::SelectIndex), input),
    ensures
        match select_index_failure(input) {
            Some(m) => r matches Err(CliError::Message(e)) && e@ == m && *final(opts) == *old(opts),
            None => r is Ok && select_index_effect(*old(opts), *final(opts), input),
        },
{
    match input {
        Fetched::Value(ValueRead::Text(s)) => {
            let x = match match parse_unsigned(s.as_str(), usize::MAX as u64) { Some(n) => Some(n as usize), None => None } {
                Some(x) => x,
                None => return Err(CliError::Message(String::from_str("Invalid index"))),
            };
            let mut o = Opts::default();
            std::mem::swap(&mut o, opts);
            *opts = Opts { dmenu_select_index: Some(x), ..o };
            Ok(())
        },
        Fetched::Value(ValueRead::NotUnicode) => Err(CliError::Message(String::from_str("Index must be valid UTF-8"))),
        Fetched::Value(ValueRead::Missing(m)) => Err(CliError::Message(m)),
        _ => Ok(()),
    }
}

fn apply_auto_select(opts: &mut Opts, input: Fetched) -> (r: Result<(), CliError>)
    requires
        input_fits(wants(OptionKind::AutoSelect), input),
    ensures
        match auto_select_failure(input) {
            Some(m) => r matches Err(CliError::Message(e)) && e@ == m && *final(opts) == *old(opts),
            None => r is Ok && auto_select_effect(*old(opts), *final(opts), input),
        },
{
    let mut o = Opts::default();
    std::mem::swap(&mut o, opts);
    *opts = Opts { dmenu_auto_select: true, ..o };
    Ok(())
}

fn apply_prompt_only(opts: &mut Opts, input: Fetched) -> (r: Result<(), CliError>)
    requires
        input_fits(wants(OptionKind::PromptOnly), input),
    ensures
        match prompt_only_failure(input) {
            Some(m) => r matches Err(CliError::Message(e)) && e@ == m && *final(opts) == *old(opts),
            None => r is Ok && prompt_only_effect(*old(opts), *final(opts), input),
        },
{
    let mut o = Opts::default();
    std::mem::swap(&mut o, opts);
    *opts = Opts { dmenu_prompt_only: true, ..o };
    Ok(())
}

fn apply_hide_before_typing(opts: &mut Opts, input: Fetched) -> (r: Result<(), CliError>)
    requires
        input_fits(wants(OptionKind::HideBeforeTyping), input),
    ensures
        match hide_before_typing_failure(input) {
            Some(m) => r matches Err(CliError::Message(e)) && e@ == m && *final(opts) == *old(opts),
            None => r is Ok && hide_before_typing_effect(*old(opts), *final(opts), input),
        },
{
    let mut o = Opts::default();
    std::mem::swap(&mut o, opts);
    *opts = Opts { hide_before_typing: true, ..o };
    Ok(())
}

fn apply_filter_desktop(opts: &mut Opts, input: Fetched) -> (r: Result<(), CliError>)
    requires
        input_fits(wants(OptionKind::FilterDesktop), input),
    ensures
        match filter_desktop_failure(input) {
            Some(m) => r matches Err(CliError::Message(e)) && e@ == m && *final(opts) == *old(opts),
            None => r is Ok && filter_desktop_effect(*old(opts), *final(opts), input),
        },
{
    let value = match input {
        Fetched::Optional(None) => true,
        Fetched::Optional(Some(Some(s))) => !crate::text::vec_is(
            &crate::text::chars_of(s.as_str()),
            "no",
        ),
        Fetched::Optional(Some(None)) => return Err(CliError::Message(String::from_str("filter-desktop value must be valid UTF-8"))),
        _ => return Ok(()),
    };
    let mut o = Opts::default();
    std::mem::swap(&mut o, opts);
    *opts = Opts { filter_desktop: value, ..o };
    Ok(())
}

fn apply_filter_actions(opts: &mut Opts, input: Fetched) -> (r: Result<(), CliError>)
    requires
        input_fits(wants(OptionKind::FilterActions), input),
    ensures
        match filter_actions_failure(input) {
            Some(m) => r matches Err(CliError::Message(e)) && e@ == m && *final(opts) == *old(opts),
            None => r is Ok && filter_actions_effect(*old(opts), *final(opts), input),
        },
{
    let value = match input {
        Fetched::Optional(None) => true,
        Fetched::Optional(Some(Some(s))) => !crate::text::vec_is(
            &crate::text::chars_of(s.as_str()),
            "no",
        ),
        Fetched::Optional(Some(None)) => return Err(CliError::Message(String::from_str("filter-actions value must be valid UTF-8"))),
        _ => return Ok(()),
    };
    let mut o = Opts::default();
    std::mem::swap(&mut o, opts);
    *opts = Opts { filter_actions: value, ..o };
    Ok(())
}

fn apply_auto_hide_duplicates(opts: &mut Opts, input: Fetched) -> (r: Result<(), CliError>)
    requires
        input_fits(wants(OptionKind::AutoHideDuplicates), input),
    ensures
        match auto_hide_duplicates_failure(input) {
            Some(m) => r matches Err(CliError::Message(e)) && e@ == m && *final(opts) == *old(opts),
            None => r is Ok && auto_hide_duplicates_effect(*old(opts), *final(opts), input),
        },
{
    let value = match input {
        Fetched::Optional(None) => true,
        Fetched::Optional(Some(Some(s))) => !crate::text::vec_is(
            &crate::text::chars_of(s.as_str()),
            "no",
        ),
        Fetched::Optional(Some(None)) => return Err(CliError::Message(String::from_str("auto-hide-duplicates value must be valid UTF-8"))),
        _ => return Ok(()),
    };
    let mut o = Opts::default();
    std::mem::swap(&mut o, opts);
    *opts = Opts { auto_hide_duplicates: value, ..o };
    Ok(())
}

fn apply_list_executables_in_path(opts: &mut Opts, input: Fetched) -> (r: Result<(), CliError>)
    requires
        input_fits(wants(OptionKind::ListExecutablesInPath), input),
    ensures
        match list_executables_in_path_failure(input) {
            Some(m) => r matches Err(CliError::Message(e)) && e@ == m && *final(opts) == *old(opts),
            None => r is Ok && list_executables_in_path_effect(*old(opts), *final(opts), input),
        },
{
    let mut o = Opts::default();
    std::mem::swap(&mut o, opts);
    *opts = Opts { list_executables_in_path: true, ..o };
    Ok(())
}

fn apply_desktop_icons(opts: &mut Opts, input: Fetched) -> (r: Result<(), CliError>)
    requires
        input_fits(wants(OptionKind::DesktopIcons), input),
    ensures
        match desktop_icons_failure(input) {
            Some(m) => r matches Err(CliError::Message(e)) && e@ == m && *final(opts) == *old(opts),
            None => r is Ok && desktop_icons_effect(*old(opts), *final(opts), input),
        },
{
    let mode = match input {
        Fetched::Optional(None) => DesktopIconMode::Preview,
        Fetched::Optional(Some(Some(s))) => match DesktopIconMode::parse(s.as_str()) {
            Ok(m) => m,
            Err(e) => return Err(CliError::Message(e)),
        },
        Fetched::Optional(Some(None)) => return Err(CliError::Message(String::from_str("Desktop icon mode must be valid UTF-8"))),
        _ => return Ok(()),
    };
    let mut o = Opts::default();
    std::mem::swap(&mut o, opts);
    *opts = Opts { desktop_icon_mode: mode, ..o };
    Ok(())
}

fn apply_icon_position(opts: &mut Opts, input: Fetched) -> (r: Result<(), CliError>)
    requires
        input_fits(wants(OptionKind::IconPosition), input),
    ensures
        match icon_position_failure(input) {
            Some(m) => r matches Err(CliError::Message(e)) && e@ == m && *final(opts) == *old(opts),
            None => r is Ok && icon_position_effect(*old(opts), *final(opts), input),
        },
{
    match input {
        Fetched::Value(ValueRead::Text(s)) => {
            let x = match HorizontalPosition::parse(s.as_str()) {
                Ok(x) => x,
                Err(e) => return Err(CliError::Message(e)),
            };
            let mut o = Opts::default();
            std::mem::swap(&mut o, opts);
            *opts = Opts { desktop_icon_position: x, ..o };
            Ok(())
        },
        Fetched::Value(ValueRead::NotUnicode) => Err(CliError::Message(String::from_str("Desktop icon position must be valid UTF-8"))),
        Fetched::Value(ValueRead::Missing(m)) => Err(CliError::Message(m)),
        _ => Ok(()),
    }
}

fn apply_icon_preview_width(opts: &mut Opts, input: Fetched) -> (r: Result<(), CliError>)
    requires
        input_fits(wants(OptionKind::IconPreviewWidth), input),
    ensures
        match icon_preview_width_failure(input) {
            Some(m) => r matches Err(CliError::Message(e)) && e@ == m && *final(opts) == *old(opts),
            None => r is Ok && icon_preview_width_effect(*old(opts), *final(opts), input),
        },
{
    match input {
        Fetched::Value(ValueRead::Text(s)) => {
            let x = match match parse_unsigned(s.as_str(), 0xffff) { Some(n) => Some(n as u16), None => None } {
                Some(x) => x,
                None => return Err(CliError::Message(String::from_str("Desktop icon preview width must be an integer"))),
            };
            let mut o = Opts::default();
            std::mem::swap(&mut o, opts);
            *opts = Opts { desktop_icon_preview_width_percent: x, ..o };
            Ok(())
        },
        Fetched::Value(ValueRead::NotUnicode) => Err(CliError::Message(String::from_str("Desktop icon preview width must be valid UTF-8"))),
        Fetched::Value(ValueRead::Missing(m)) => Err(CliError::Message(m)),
        _ => Ok(()),
    }
}

fn apply_icon_list_width(opts: &mut Opts, input: Fetched) -> (r: Result<(), CliError>)
    requires
        input_fits(wants(OptionKind::IconListWidth), input),
    ensures
        match icon_list_width_failure(input) {
            Some(m) => r matches Err(CliError::Message(e)) && e@ == m && *final(opts) == *old(opts),
            None => r is Ok && icon_list_width_effect(*old(opts), *final(opts), input),
        },
{
    match input {
        Fetched::Value(ValueRead::Text(s)) => {
            let x = match match parse_unsigned(s.as_str(), 0xffff) { Some(n) => Some(n as u16), None => None } {
                Some(x) => x,
                None => return Err(CliError::Message(String::from_str("Desktop list icon width must be an integer"))),
            };
            let mut o = Opts::default();
            std::mem::swap(&mut o, opts);
            *opts = Opts { desktop_icon_list_width: x, ..o };
            Ok(())
        },
        Fetched::Value(ValueRead::NotUnicode) => Err(CliError::Message(String::from_str("Desktop list icon width must be valid UTF-8"))),
        Fetched::Value(ValueRead::Missing(m)) => Err(CliError::Message(m)),
        _ => Ok(()),
    }
}

fn apply_icon_list_height(opts: &mut Opts, input: Fetched) -> (r: Result<(), CliError>)
    requires
        input_fits(wants(OptionKind::IconListHeight), input),
    ensures
        match icon_list_height_failure(input) {
            Some(m) => r matches Err(CliError::Message(e)) && e@ == m && *final(opts) == *old(opts),
            None => r is Ok && icon_list_height_effect(*old(opts), *final(opts), input),
        },
{
    match input {
        Fetched::Value(ValueRead::Text(s)) => {
            let x = match match parse_unsigned(s.as_str(), 0xffff) { Some(n) => Some(n as u16), None => None } {
                Some(x) => x,
                None => return Err(CliError::Message(String::from_str("Desktop list icon height must be an integer"))),
            };
            let mut o = Opts::default();
            std::mem::swap(&mut o, opts);
            *opts = Opts { desktop_icon_list_height: x, ..o };
            Ok(())
        },
        Fetched::Value(ValueRead::NotUnicode) => Err(CliError::Message(String::from_str("Desktop list icon height must be valid UTF-8"))),
        Fetched::Value(ValueRead::Missing(m)) => Err(CliError::Message(m)),
        _ => Ok(()),
    }
}

fn apply_icon_list_gap(opts: &mut Opts, input: Fetched) -> (r: Result<(), CliError>)
    requires
        input_fits(wants(OptionKind::IconListGap), input),
    ensures
        match icon_list_gap_failure(input) {
            Some(m) => r matches Err(CliError::Message(e)) && e@ == m && *final(opts) == *old(opts),
            None => r is Ok && icon_list_gap_effect(*old(opts), *final(opts), input),
        },
{
    match input {
        Fetched::Value(ValueRead::Text(s)) => {
            let x = match match parse_unsigned(s.as_str(), 0xffff) { Some(n) => Some(n as u16), None => None } {
                Some(x) => x,
                None => return Err(CliError::Message(String::from_str("Desktop list icon gap must be an integer"))),
            };
            let mut o = Opts::default();
            std::mem::swap(&mut o, opts);
            *opts = Opts { desktop_icon_list_gap: x, ..o };
            Ok(())
        },
        Fetched::Value(ValueRead::NotUnicode) => Err(CliError::Message(String::from_str("Desktop list icon gap must be valid UTF-8"))),
        Fetched::Value(ValueRead::Missing(m)) => Err(CliError::Message(m)),
        _ => Ok(()),
    }
}

fn apply_icon_list_vertical_align(opts: &mut Opts, input: Fetched) -> (r: Result<(), CliError>)
    requires
        input_fits(wants(OptionKind::IconListVerticalAlign), input),
    ensures
        match icon_list_vertical_align_failure(input) {
            Some(m) => r matches Err(CliError::Message(e)) && e@ == m && *final(opts) == *old(opts),
            None => r is Ok && icon_list_vertical_align_effect(*old(opts), *final(opts), input),
        },
{
    match input {
        Fetched::Value(ValueRead::Text(s)) => {
            let x = match match parse_signed(s.as_str(), 32768, 32767) { Some(n) => Some(n as i16), None => None } {
                Some(x) => x,
                None => return Err(CliError::Message(String::from_str("Desktop list icon vertical alignment must be an integer"))),
            };
            let mut o = Opts::default();
            std::mem::swap(&mut o, opts);
            *opts = Opts { desktop_icon_list_vertical_align_percent: x, ..o };
            Ok(())
        },
        Fetched::Value(ValueRead::NotUnicode) => Err(CliError::Message(String::from_str("Desktop list icon vertical alignment must be valid UTF-8"))),
        Fetched::Value(ValueRead::Missing(m)) => Err(CliError::Message(m)),
        _ => Ok(()),
    }
}

fn apply_icon_arrow_before(opts: &mut Opts, input: Fetched) -> (r: Result<(), CliError>)
    requires
        input_fits(wants(OptionKind::IconArrowBefore), input),
    ensures
        match icon_arrow_before_failure(input) {
            Some(m) => r matches Err(CliError::Message(e)) && e@ == m && *final(opts) == *old(opts),
            None => r is Ok && icon_arrow_before_effect(*old(opts), *final(opts), input),
        },
{
    let mut o = Opts::default();
    std::mem::swap(&mut o, opts);
    *opts = Opts { desktop_icon_arrow_before: true, ..o };
    Ok(())
}

fn apply_icon_size(opts: &mut Opts, input: Fetched) -> (r: Result<(), CliError>)
    requires
        input_fits(wants(OptionKind::IconSize), input),
    ensures
        match icon_size_failure(input) {
            Some(m) => r matches Err(CliError::Message(e)) && e@ == m && *final(opts) == *old(opts),
            None => r is Ok && icon_size_effect(*old(opts), *final(opts), input),
        },
{
    match input {
        Fetched::Value(ValueRead::Text(s)) => {
            let x = match match parse_unsigned(s.as_str(), 0xffff) { Some(n) => Some(n as u16), None => None } {
                Some(x) => x,
                None => return Err(CliError::Message(String::from_str("Desktop icon size must be an integer"))),
            };
            let mut o = Opts::default();
            std::mem::swap(&mut o, opts);
            *opts = Opts { desktop_icon_size: x, ..o };
            Ok(())
        },
        Fetched::Value(ValueRead::NotUnicode) => Err(CliError::Message(String::from_str("Desktop icon size must be valid UTF-8"))),
        Fetched::Value(ValueRead::Missing(m)) => Err(CliError::Message(m)),
        _ => Ok(()),
    }
}

fn apply_icon_horizontal_align(opts: &mut Opts, input: Fetched) -> (r: Result<(), CliError>)
    requires
        input_fits(wants(OptionKind::IconHorizontalAlign), input),
    ensures
        match icon_horizontal_align_failure(input) {
            Some(m) => r matches Err(CliError::Message(e)) && e@ == m && *final(opts) == *old(opts),
            None => r is Ok && icon_horizontal_align_effect(*old(opts), *final(opts), input),
        },
{
    match input {
        Fetched::Value(ValueRead::Text(s)) => {
            let x = match match parse_unsigned(s.as_str(), 0xffff) { Some(n) => Some(n as u16), None => None } {
                Some(x) => x,
                None => return Err(CliError::Message(String::from_str("Desktop icon horizontal alignment must be an integer"))),
            };
            let mut o = Opts::default();
            std::mem::swap(&mut o, opts);
            *opts = Opts { desktop_icon_horizontal_align_percent: x, ..o };
            Ok(())
        },
        Fetched::Value(ValueRead::NotUnicode) => Err(CliError::Message(String::from_str("Desktop icon horizontal alignment must be valid UTF-8"))),
        Fetched::Value(ValueRead::Missing(m)) => Err(CliError::Message(m)),
        _ => Ok(()),
    }
}

fn apply_icon_vertical_align(opts: &mut Opts, input: Fetched) -> (r: Result<(), CliError>)
    requires
        input_fits(wants(OptionKind::IconVerticalAlign), input),
    ensures
        match icon_vertical_align_failure(input) {
            Some(m) => r matches Err(CliError::Message(e)) && e@ == m && *final(opts) == *old(opts),
            None => r is Ok && icon_vertical_align_effect(*old(opts), *final(opts), input),
        },
{
    match input {
        Fetched::Value(ValueRead::Text(s)) => {
            let x = match match parse_unsigned(s.as_str(), 0xffff) { Some(n) => Some(n as u16), None => None } {
                Some(x) => x,
                None => return Err(CliError::Message(String::from_str("Desktop icon vertical alignment must be an integer"))),
            };
            let mut o = Opts::default();
            std::mem::swap(&mut o, opts);
            *opts = Opts { desktop_icon_vertical_align_percent: x, ..o };
            Ok(())
        },
        Fetched::Value(ValueRead::NotUnicode) => Err(CliError::Message(String::from_str("Desktop icon vertical alignment must be valid UTF-8"))),
        Fetched::Value(ValueRead::Missing(m)) => Err(CliError::Message(m)),
        _ => Ok(()),
    }
}

fn apply_icon_theme(opts: &mut Opts, input: Fetched) -> (r: Result<(), CliError>)
    requires
        input_fits(wants(OptionKind::IconTheme), input),
    ensures
        match icon_theme_failure(input) {
            Some(m) => r matches Err(CliError::Message(e)) && e@ == m && *final(opts) == *old(opts),
            None => r is Ok && icon_theme_effect(*old(opts), *final(opts), input),
        },
{
    match input {
        Fetched::Value(ValueRead::Text(s)) => {
            let mut o = Opts::default();
            std::mem::swap(&mut o, opts);
            *opts = Opts { desktop_icon_theme: Some(s), ..o };
            Ok(())
        },
        Fetched::Value(ValueRead::NotUnicode) => Err(CliError::Message(String::from_str("Desktop icon theme must be valid UTF-8"))),
        Fetched::Value(ValueRead::Missing(m)) => Err(CliError::Message(m)),
        _ => Ok(()),
    }
}

fn apply_match_mode_option(opts: &mut Opts, input: Fetched) -> (r: Result<(), CliError>)
    requires
        input_fits(wants(OptionKind::MatchModeOption), input),
    ensures
        match match_mode_option_failure(input) {
            Some(m) => r matches Err(CliError::Message(e)) && e@ == m && *final(opts) == *old(opts),
            None => r is Ok && match_mode_option_effect(*old(opts), *final(opts), input),
        },
{
    match input {
        Fetched::Value(ValueRead::Text(s)) => {
            let x = match MatchMode::parse(s.as_str()) {
                Ok(x) => x,
                Err(_) => return Err(CliError::Message(String::from_str("Invalid match mode. Use 'exact' or 'fuzzy'"))),
            };
            let mut o = Opts::default();
            std::mem::swap(&mut o, opts);
            *opts = Opts { match_mode: x, ..o };
            Ok(())
        },
        Fetched::Value(ValueRead::NotUnicode) => Err(CliError::Message(String::from_str("Match mode must be valid UTF-8"))),
        Fetched::Value(ValueRead::Missing(m)) => Err(CliError::Message(m)),
        _ => Ok(()),
    }
}

fn apply_prefix_depth(opts: &mut Opts, input: Fetched) -> (r: Result<(), CliError>)
    requires
        input_fits(wants(OptionKind::PrefixDepth), input),
    ensures
        match prefix_depth_failure(input) {
            Some(m) => r matches Err(CliError::Message(e)) && e@ == m && *final(opts) == *old(opts),
            None => r is Ok && prefix_depth_effect(*old(opts), *final(opts), input),
        },
{
    match input {
        Fetched::Value(ValueRead::Text(s)) => {
            let x = match match parse_unsigned(s.as_str(), usize::MAX as u64) { Some(n) => Some(n as usize), None => None } {
                Some(x) => x,
                None => return Err(CliError::Message(String::from_str("Invalid prefix depth"))),
            };
            let mut o = Opts::default();
            std::mem::swap(&mut o, opts);
            *opts = Opts { prefix_depth: x, ..o };
            Ok(())
        },
        Fetched::Value(ValueRead::NotUnicode) => Err(CliError::Message(String::from_str("Prefix depth must be valid UTF-8"))),
        Fetched::Value(ValueRead::Missing(m)) => Err(CliError::Message(m)),
        _ => Ok(()),
    }
}

fn apply_test(opts: &mut Opts, input: Fetched) -> (r: Result<(), CliError>)
    requires
        input_fits(wants(OptionKind::Test), input),
    ensures
        match test_failure(input) {
            Some(m) => r matches Err(CliError::Message(e)) && e@ == m && *final(opts) == *old(opts),
            None => r is Ok && test_effect(*old(opts), *final(opts), input),
        },
{
    let mut o = Opts::default();
    std::mem::swap(&mut o, opts);
    *opts = Opts { test_mode: true, verbose: Some(3u64), ..o };
    Ok(())
}

fn apply_with_nth(opts: &mut Opts, input: Fetched) -> (r: Result<(), CliError>)
    requires
        input_fits(wants(OptionKind::WithNth), input),
    ensures
        match with_nth_failure(input) {
            Some(m) => r matches Err(CliError::Message(e)) && e@ == m && *final(opts) == *old(opts),
            None => r is Ok && with_nth_effect(*old(opts), *final(opts), input),
        },
{
    match input {
        Fetched::Value(ValueRead::Text(s)) => {
            let c = match parse_column_list(s.as_str()) {
                Some(c) => c,
                None => return Err(CliError::Message(String::from_str("Invalid column specification. Use comma-separated numbers like: 1,2,4"))),
            };
            let mut o = Opts::default();
            std::mem::swap(&mut o, opts);
            *opts = Opts { dmenu_with_nth: Some(c), ..o };
            Ok(())
        },
        Fetched::Value(ValueRead::NotUnicode) => Err(CliError::Message(String::from_str("Invalid column specification. Use comma-separated numbers like: 1,2,4"))),
        Fetched::Value(ValueRead::Missing(m)) => Err(CliError::Message(m)),
        _ => Ok(()),
    }
}

fn apply_delimiter(opts: &mut Opts, input: Fetched) -> (r: Result<(), CliError>)
    requires
        input_fits(wants(OptionKind::Delimiter), input),
    ensures
        match delimiter_failure(input) {
            Some(m) => r matches Err(CliError::Message(e)) && e@ == m && *final(opts) == *old(opts),
            None => r is Ok && delimiter_effect(*old(opts), *final(opts), input),
        },
{
    match input {
        Fetched::Value(ValueRead::Text(s)) => {
            let mut o = Opts::default();
            std::mem::swap(&mut o, opts);
            *opts = Opts { dmenu_delimiter: s, ..o };
            Ok(())
        },
        Fetched::Value(ValueRead::NotUnicode) => Err(CliError::Message(String::from_str("Delimiter must be valid UTF-8"))),
        Fetched::Value(ValueRead::Missing(m)) => Err(CliError::Message(m)),
        _ => Ok(()),
    }
}

fn apply_program(opts: &mut Opts, input: Fetched) -> (r: Result<(), CliError>)
    requires
        input_fits(wants(OptionKind::Program), input),
    ensures
        match program_failure(input) {
            Some(m) => r matches Err(CliError::Message(e)) && e@ == m && *final(opts) == *old(opts),
            None => r is Ok && program_effect(*old(opts), *final(opts), input),
        },
{
    match input {
        Fetched::Value(ValueRead::Text(s)) => {
            let mut o = Opts::default();
            std::mem::swap(&mut o, opts);
            *opts = Opts { program: Some(s), ..o };
            Ok(())
        },
        Fetched::Value(ValueRead::NotUnicode) => Err(CliError::Message(String::from_str("Program name must be valid UTF-8"))),
        Fetched::Value(ValueRead::Missing(m)) => Err(CliError::Message(m)),
        _ => Ok(()),
    }
}

fn apply_verbose(opts: &mut Opts, input: Fetched) -> (r: Result<(), CliError>)
    requires
        input_fits(wants(OptionKind::Verbose), input),
    ensures
        match verbose_failure(input) {
            Some(m) => r matches Err(CliError::Message(e)) && e@ == m && *final(opts) == *old(opts),
            None => r is Ok && verbose_effect(*old(opts), *final(opts), input),
        },
{
    let mut o = Opts::default();
    std::mem::swap(&mut o, opts);
    let next: u64 = match o.verbose {
        Some(c) => if c < u64::MAX {
            c + 1
        } else {
            c
        },
        None => 1,
    };
    *opts = Opts { verbose: Some(next), ..o };
    Ok(())
}


/// The message for an unknown long option.
pub open spec fn unknown_long_message(name: Seq<char>) -> Seq<char> {
    if name == "clip"@ {
        "Unknown option '--clip'. Did you mean '--cclip'?"@
    } else if name == "menu"@ {
        "Unknown option '--menu'. Did you mean '--dmenu'?"@
    } else if name == "dme"@ || name == "dmen"@ {
        "Unknown option. Did you mean '--dmenu'?"@
    } else if name == "cc"@ || name == "ccli"@ {
        "Unknown option. Did you mean '--cclip'?"@
    } else {
        "Unknown option. Use '-h' or '--help' to see available options."@
    }
}

/// The message for an unknown short option.
pub open spec fn unknown_short_message(c: char) -> Seq<char> {
    if c == 'C' {
        "Unknown option '-C'. Did you mean '-c' for --config?"@
    } else if c == 'P' {
        "Unknown option '-P'. Did you mean '-p' for --program?"@
    } else if c == 'R' {
        "Unknown option '-R'. Did you mean '-r' for --replace?"@
    } else {
        "Unknown option. Use '-h' or '--help' to see available options."@
    }
}

/// The quick help printed after an unknown argument.
pub open spec fn quick_help() -> Seq<char> {
    "\n\nQuick help:\n  -c, --config <FILE>    Read config from FILE\n  -p, --program <NAME>   Launch one app immediately and skip the TUI\n  -ss <SEARCH>           Pre-fill the search box; place this last\n  --dmenu                Read choices from stdin and print the selection\n  --cclip                Browse clipboard history and copy the selection\n  --no-exec              Print the selected item instead of launching it\n  -r, --replace          Replace an existing fsel/cclip instance\n  -d, --detach           Start launched apps without keeping the terminal attached\n  -v, --verbose          Print more diagnostics; repeat as -vv or -vvv\n  -h                     Show the short summary\n  -H, --help             Show the full option tree\n  -V, --version          Print the version and exit\n\nRun 'fsel -h' for a summary or 'fsel --help' for the full option tree.\n"@
}

/// `Error: <message>` followed by the quick help.
pub fn unknown_argument_help(error_message: &str) -> (s: String)
    ensures
        s@ == "Error: "@ + error_message@ + quick_help(),
{
    let mut s = String::from_str("Error: ");
    s.append(error_message);
    s.append(
        "\n\nQuick help:\n  -c, --config <FILE>    Read config from FILE\n  -p, --program <NAME>   Launch one app immediately and skip the TUI\n  -ss <SEARCH>           Pre-fill the search box; place this last\n  --dmenu                Read choices from stdin and print the selection\n  --cclip                Browse clipboard history and copy the selection\n  --no-exec              Print the selected item instead of launching it\n  -r, --replace          Replace an existing fsel/cclip instance\n  -d, --detach           Start launched apps without keeping the terminal attached\n  -v, --verbose          Print more diagnostics; repeat as -vv or -vvv\n  -h                     Show the short summary\n  -H, --help             Show the full option tree\n  -V, --version          Print the version and exit\n\nRun 'fsel -h' for a summary or 'fsel --help' for the full option tree.\n",
    );
    s
}

fn unknown_long(name: String) -> (e: CliError)
    ensures
        e matches CliError::Message(m) && m@ == "Error: "@ + unknown_long_message(name@) + quick_help(),
{
    let c = chars_of(name.as_str());
    let msg = if vec_is(&c, "clip") {
        "Unknown option '--clip'. Did you mean '--cclip'?"
    } else if vec_is(&c, "menu") {
        "Unknown option '--menu'. Did you mean '--dmenu'?"
    } else if vec_is(&c, "dme") || vec_is(&c, "dmen") {
        "Unknown option. Did you mean '--dmenu'?"
    } else if vec_is(&c, "cc") || vec_is(&c, "ccli") {
        "Unknown option. Did you mean '--cclip'?"
    } else {
        "Unknown option. Use '-h' or '--help' to see available options."
    };
    CliError::Message(unknown_argument_help(msg))
}

fn unknown_short(c: char) -> (e: CliError)
    ensures
        e matches CliError::Message(m) && m@ == "Error: "@ + unknown_short_message(c) + quick_help(),
{
    let msg = if c == 'C' {
        "Unknown option '-C'. Did you mean '-c' for --config?"
    } else if c == 'P' {
        "Unknown option '-P'. Did you mean '-p' for --program?"
    } else if c == 'R' {
        "Unknown option '-R'. Did you mean '-r' for --replace?"
    } else {
        "Unknown option. Use '-h' or '--help' to see available options."
    };
    CliError::Message(unknown_argument_help(msg))
}

/// What the command line asks for.
pub enum CliCommand {
    /// Run with these options.
    Run(Box<Opts>),
    PrintShortHelp { program_name: String },
    PrintLongHelp { program_name: String },
    PrintVersion,
}

/// What applying one option led to.
pub enum Outcome {
    /// The options were updated; parsing goes on.
    Applied,
    /// Parsing stops with this command.
    Command(CliCommand),
}

/// Why applying an option fails, if it does.
pub open spec fn option_failure(k: OptionKind, input: Fetched) -> Option<Seq<char>> {
    match k {
        OptionKind::PanelEdit => panel_edit_failure(input),
        OptionKind::Panel => panel_failure(input),
        OptionKind::InfoPosition => info_position_failure(input),
        OptionKind::InputPosition => input_position_failure(input),
        OptionKind::InfoSize => info_size_failure(input),
        OptionKind::InputSize => input_size_failure(input),
        OptionKind::LayoutRotation => layout_rotation_failure(input),
        OptionKind::ItemWidth => item_width_failure(input),
        OptionKind::Tty => tty_failure(input),
        OptionKind::Replace => replace_failure(input),
        OptionKind::Config => config_failure(input),
        OptionKind::ClearHistory => clear_history_failure(input),
        OptionKind::ClearCache => clear_cache_failure(input),
        OptionKind::RefreshCache => refresh_cache_failure(input),
        OptionKind::ListHidden => list_hidden_failure(input),
        OptionKind::Unhide => unhide_failure(input),
        OptionKind::UnhideAll => unhide_all_failure(input),
        OptionKind::NoExec => no_exec_failure(input),
        OptionKind::Stdout => stdout_failure(input),
        OptionKind::LaunchPrefix => launch_prefix_failure(input),
        OptionKind::SystemdRun => systemd_run_failure(input),
        OptionKind::Uwsm => uwsm_failure(input),
        OptionKind::Detach => detach_failure(input),
        OptionKind::Dmenu => dmenu_failure(input),
        OptionKind::Cclip => cclip_failure(input),
        OptionKind::Tag => tag_failure(input),
        OptionKind::CclipShowTagColorNames => cclip_show_tag_color_names_failure(input),
        OptionKind::Dmenu0 => dmenu0_failure(input),
        OptionKind::Preview => preview_failure(input),
        OptionKind::Password => password_failure(input),
        OptionKind::Index => index_failure(input),
        OptionKind::IndexOriginal => index_original_failure(input),
        OptionKind::AcceptNth => accept_nth_failure(input),
        OptionKind::MatchNth => match_nth_failure(input),
        OptionKind::OnlyMatch => only_match_failure(input),
        OptionKind::ExitIfEmpty => exit_if_empty_failure(input),
        OptionKind::Select => select_failure(input),
        OptionKind::SelectIndex => select_index_failure(input),
        OptionKind::AutoSelect => auto_select_failure(input),
        OptionKind::PromptOnly => prompt_only_failure(input),
        OptionKind::HideBeforeTyping => hide_before_typing_failure(input),
        OptionKind::FilterDesktop => filter_desktop_failure(input),
        OptionKind::FilterActions => filter_actions_failure(input),
        OptionKind::AutoHideDuplicates => auto_hide_duplicates_failure(input),
        OptionKind::ListExecutablesInPath => list_executables_in_path_failure(input),
        OptionKind::DesktopIcons => desktop_icons_failure(input),
        OptionKind::IconPosition => icon_position_failure(input),
        OptionKind::IconPreviewWidth => icon_preview_width_failure(input),
        OptionKind::IconListWidth => icon_list_width_failure(input),
        OptionKind::IconListHeight => icon_list_height_failure(input),
        OptionKind::IconListGap => icon_list_gap_failure(input),
        OptionKind::IconListVerticalAlign => icon_list_vertical_align_failure(input),
        OptionKind::IconArrowBefore => icon_arrow_before_failure(input),
        OptionKind::IconSize => icon_size_failure(input),
        OptionKind::IconHorizontalAlign => icon_horizontal_align_failure(input),
        OptionKind::IconVerticalAlign => icon_vertical_align_failure(input),
        OptionKind::IconTheme => icon_theme_failure(input),
        OptionKind::MatchModeOption => match_mode_option_failure(input),
        OptionKind::PrefixDepth => prefix_depth_failure(input),
        OptionKind::Test => test_failure(input),
        OptionKind::WithNth => with_nth_failure(input),
        OptionKind::Delimiter => delimiter_failure(input),
        OptionKind::Program => program_failure(input),
        OptionKind::Verbose => verbose_failure(input),
        OptionKind::Unexpected(m) => Some(m),
        OptionKind::UnknownLong(n) => Some("Error: "@ + unknown_long_message(n) + quick_help()),
        OptionKind::UnknownShort(c) => Some("Error: "@ + unknown_short_message(c) + quick_help()),
        _ => None,
    }
}

/// How a successfully applied option changes the options `o` into `n`.
pub open spec fn option_effect(k: OptionKind, o: Opts, n: Opts, input: Fetched) -> bool {
    match k {
        OptionKind::PanelEdit => panel_edit_effect(o, n, input),
        OptionKind::Panel => panel_effect(o, n, input),
        OptionKind::InfoPosition => info_position_effect(o, n, input),
        OptionKind::InputPosition => input_position_effect(o, n, input),
        OptionKind::InfoSize => info_size_effect(o, n, input),
        OptionKind::InputSize => input_size_effect(o, n, input),
        OptionKind::LayoutRotation => layout_rotation_effect(o, n, input),
        OptionKind::ItemWidth => item_width_effect(o, n, input),
        OptionKind::Tty => tty_effect(o, n, input),
        OptionKind::Replace => replace_effect(o, n, input),
        OptionKind::Config => config_effect(o, n, input),
        OptionKind::ClearHistory => clear_history_effect(o, n, input),
        OptionKind::ClearCache => clear_cache_effect(o, n, input),
        OptionKind::RefreshCache => refresh_cache_effect(o, n, input),
        OptionKind::ListHidden => list_hidden_effect(o, n, input),
        OptionKind::Unhide => unhide_effect(o, n, input),
        OptionKind::UnhideAll => unhide_all_effect(o, n, input),
        OptionKind::NoExec => no_exec_effect(o, n, input),
        OptionKind::Stdout => stdout_effect(o, n, input),
        OptionKind::LaunchPrefix => launch_prefix_effect(o, n, input),
        OptionKind::SystemdRun => systemd_run_effect(o, n, input),
        OptionKind::Uwsm => uwsm_effect(o, n, input),
        OptionKind::Detach => detach_effect(o, n, input),
        OptionKind::Dmenu => dmenu_effect(o, n, input),
        OptionKind::Cclip => cclip_effect(o, n, input),
        OptionKind::Tag => tag_effect(o, n, input),
        OptionKind::CclipShowTagColorNames => cclip_show_tag_color_names_effect(o, n, input),
        OptionKind::Dmenu0 => dmenu0_effect(o, n, input),
        OptionKind::Preview => preview_effect(o, n, input),
        OptionKind::Password => password_effect(o, n, input),
        OptionKind::Index => index_effect(o, n, input),
        OptionKind::IndexOriginal => index_original_effect(o, n, input),
        OptionKind::AcceptNth => accept_nth_effect(o, n, input),
        OptionKind::MatchNth => match_nth_effect(o, n, input),
        OptionKind::OnlyMatch => only_match_effect(o, n, input),
        OptionKind::ExitIfEmpty => exit_if_empty_effect(o, n, input),
        OptionKind::Select => select_effect(o, n, input),
        OptionKind::SelectIndex => select_index_effect(o, n, input),
        OptionKind::AutoSelect => auto_select_effect(o, n, input),
        OptionKind::PromptOnly => prompt_only_effect(o, n, input),
        OptionKind::HideBeforeTyping => hide_before_typing_effect(o, n, input),
        OptionKind::FilterDesktop => filter_desktop_effect(o, n, input),
        OptionKind::FilterActions => filter_actions_effect(o, n, input),
        OptionKind::AutoHideDuplicates => auto_hide_duplicates_effect(o, n, input),
        OptionKind::ListExecutablesInPath => list_executables_in_path_effect(o, n, input),
        OptionKind::DesktopIcons => desktop_icons_effect(o, n, input),
        OptionKind::IconPosition => icon_position_effect(o, n, input),
        OptionKind::IconPreviewWidth => icon_preview_width_effect(o, n, input),
        OptionKind::IconListWidth => icon_list_width_effect(o, n, input),
        OptionKind::IconListHeight => icon_list_height_effect(o, n, input),
        OptionKind::IconListGap => icon_list_gap_effect(o, n, input),
        OptionKind::IconListVerticalAlign => icon_list_vertical_align_effect(o, n, input),
        OptionKind::IconArrowBefore => icon_arrow_before_effect(o, n, input),
        OptionKind::IconSize => icon_size_effect(o, n, input),
        OptionKind::IconHorizontalAlign => icon_horizontal_align_effect(o, n, input),
        OptionKind::IconVerticalAlign => icon_vertical_align_effect(o, n, input),
        OptionKind::IconTheme => icon_theme_effect(o, n, input),
        OptionKind::MatchModeOption => match_mode_option_effect(o, n, input),
        OptionKind::PrefixDepth => prefix_depth_effect(o, n, input),
        OptionKind::Test => test_effect(o, n, input),
        OptionKind::WithNth => with_nth_effect(o, n, input),
        OptionKind::Delimiter => delimiter_effect(o, n, input),
        OptionKind::Program => program_effect(o, n, input),
        OptionKind::Verbose => verbose_effect(o, n, input),
        _ => n == o,
    }
}

/// The options that choose a launch method.
pub open spec fn is_launch_option(k: OptionKind) -> bool {
    k == OptionKind::LaunchPrefix || k == OptionKind::SystemdRun || k == OptionKind::Uwsm
}

/// Applies one option with what was read after it. Help and version
/// options stop parsing with their command.
pub fn apply_option(opts: &mut Opts, option: CliOption, input: Fetched, program_name: &str) -> (r:
    Result<Outcome, CliError>)
    requires
        input_fits(wants(option_view(option)), input),
    ensures
        match option_failure(option_view(option), input) {
            Some(m) => r matches Err(CliError::Message(e)) && e@ == m && *final(opts) == *old(opts),
            None => match option_view(option) {
                OptionKind::ShortHelp => r matches Ok(
                    Outcome::Command(CliCommand::PrintShortHelp { program_name: p }),
                ) && p@ == program_name@ && *final(opts) == *old(opts),
                OptionKind::LongHelp => r matches Ok(
                    Outcome::Command(CliCommand::PrintLongHelp { program_name: p }),
                ) && p@ == program_name@ && *final(opts) == *old(opts),
                OptionKind::Version => r matches Ok(Outcome::Command(CliCommand::PrintVersion))
                    && *final(opts) == *old(opts),
                k => r matches Ok(Outcome::Applied) && option_effect(
                    k,
                    *old(opts),
                    *final(opts),
                    input,
                ),
            },
        },
{
    match option {
        CliOption::PanelEdit => match apply_panel_edit(opts, input) {
            Ok(()) => Ok(Outcome::Applied),
            Err(e) => Err(e),
        },
        CliOption::Panel => match apply_panel(opts, input) {
            Ok(()) => Ok(Outcome::Applied),
            Err(e) => Err(e),
        },
        CliOption::InfoPosition => match apply_info_position(opts, input) {
            Ok(()) => Ok(Outcome::Applied),
            Err(e) => Err(e),
        },
        CliOption::InputPosition => match apply_input_position(opts, input) {
            Ok(()) => Ok(Outcome::Applied),
            Err(e) => Err(e),
        },
        CliOption::InfoSize => match apply_info_size(opts, input) {
            Ok(()) => Ok(Outcome::Applied),
            Err(e) => Err(e),
        },
        CliOption::InputSize => match apply_input_size(opts, input) {
            Ok(()) => Ok(Outcome::Applied),
            Err(e) => Err(e),
        },
        CliOption::LayoutRotation => match apply_layout_rotation(opts, input) {
            Ok(()) => Ok(Outcome::Applied),
            Err(e) => Err(e),
        },
        CliOption::ItemWidth => match apply_item_width(opts, input) {
            Ok(()) => Ok(Outcome::Applied),
            Err(e) => Err(e),
        },
        CliOption::Tty => match apply_tty(opts, input) {
            Ok(()) => Ok(Outcome::Applied),
            Err(e) => Err(e),
        },
        CliOption::Replace => match apply_replace(opts, input) {
            Ok(()) => Ok(Outcome::Applied),
            Err(e) => Err(e),
        },
        CliOption::Config => match apply_config(opts, input) {
            Ok(()) => Ok(Outcome::Applied),
            Err(e) => Err(e),
        },
        CliOption::ClearHistory => match apply_clear_history(opts, input) {
            Ok(()) => Ok(Outcome::Applied),
            Err(e) => Err(e),
        },
        CliOption::ClearCache => match apply_clear_cache(opts, input) {
            Ok(()) => Ok(Outcome::Applied),
            Err(e) => Err(e),
        },
        CliOption::RefreshCache => match apply_refresh_cache(opts, input) {
            Ok(()) => Ok(Outcome::Applied),
            Err(e) => Err(e),
        },
        CliOption::ListHidden => match apply_list_hidden(opts, input) {
            Ok(()) => Ok(Outcome::Applied),
            Err(e) => Err(e),
        },
        CliOption::Unhide => match apply_unhide(opts, input) {
            Ok(()) => Ok(Outcome::Applied),
            Err(e) => Err(e),
        },
        CliOption::UnhideAll => match apply_unhide_all(opts, input) {
            Ok(()) => Ok(Outcome::Applied),
            Err(e) => Err(e),
        },
        CliOption::NoExec => match apply_no_exec(opts, input) {
            Ok(()) => Ok(Outcome::Applied),
            Err(e) => Err(e),
        },
        CliOption::Stdout => match apply_stdout(opts, input) {
            Ok(()) => Ok(Outcome::Applied),
            Err(e) => Err(e),
        },
        CliOption::LaunchPrefix => match apply_launch_prefix(opts, input) {
            Ok(()) => Ok(Outcome::Applied),
            Err(e) => Err(e),
        },
        CliOption::SystemdRun => match apply_systemd_run(opts, input) {
            Ok(()) => Ok(Outcome::Applied),
            Err(e) => Err(e),
        },
        CliOption::Uwsm => match apply_uwsm(opts, input) {
            Ok(()) => Ok(Outcome::Applied),
            Err(e) => Err(e),
        },
        CliOption::Detach => match apply_detach(opts, input) {
            Ok(()) => Ok(Outcome::Applied),
            Err(e) => Err(e),
        },
        CliOption::Dmenu => match apply_dmenu(opts, input) {
            Ok(()) => Ok(Outcome::Applied),
            Err(e) => Err(e),
        },
        CliOption::Cclip => match apply_cclip(opts, input) {
            Ok(()) => Ok(Outcome::Applied),
            Err(e) => Err(e),
        },
        CliOption::Tag => match apply_tag(opts, input) {
            Ok(()) => Ok(Outcome::Applied),
            Err(e) => Err(e),
        },
        CliOption::CclipShowTagColorNames => match apply_cclip_show_tag_color_names(opts, input) {
            Ok(()) => Ok(Outcome::Applied),
            Err(e) => Err(e),
        },
        CliOption::Dmenu0 => match apply_dmenu0(opts, input) {
            Ok(()) => Ok(Outcome::Applied),
            Err(e) => Err(e),
        },
        CliOption::Preview => match apply_preview(opts, input) {
            Ok(()) => Ok(Outcome::Applied),
            Err(e) => Err(e),
        },
        CliOption::Password => match apply_password(opts, input) {
            Ok(()) => Ok(Outcome::Applied),
            Err(e) => Err(e),
        },
        CliOption::Index => match apply_index(opts, input) {
            Ok(()) => Ok(Outcome::Applied),
            Err(e) => Err(e),
        },
        CliOption::IndexOriginal => match apply_index_original(opts, input) {
            Ok(()) => Ok(Outcome::Applied),
            Err(e) => Err(e),
        },
        CliOption::AcceptNth => match apply_accept_nth(opts, input) {
            Ok(()) => Ok(Outcome::Applied),
            Err(e) => Err(e),
        },
        CliOption::MatchNth => match apply_match_nth(opts, input) {
            Ok(()) => Ok(Outcome::Applied),
            Err(e) => Err(e),
        },
        CliOption::OnlyMatch => match apply_only_match(opts, input) {
            Ok(()) => Ok(Outcome::Applied),
            Err(e) => Err(e),
        },
        CliOption::ExitIfEmpty => match apply_exit_if_empty(opts, input) {
            Ok(()) => Ok(Outcome::Applied),
            Err(e) => Err(e),
        },
        CliOption::Select => match apply_select(opts, input) {
            Ok(()) => Ok(Outcome::Applied),
            Err(e) => Err(e),
        },
        CliOption::SelectIndex => match apply_select_index(opts, input) {
            Ok(()) => Ok(Outcome::Applied),
            Err(e) => Err(e),
        },
        CliOption::AutoSelect => match apply_auto_select(opts, input) {
            Ok(()) => Ok(Outcome::Applied),
            Err(e) => Err(e),
        },
        CliOption::PromptOnly => match apply_prompt_only(opts, input) {
            Ok(()) => Ok(Outcome::Applied),
            Err(e) => Err(e),
        },
        CliOption::HideBeforeTyping => match apply_hide_before_typing(opts, input) {
            Ok(()) => Ok(Outcome::Applied),
            Err(e) => Err(e),
        },
        CliOption::FilterDesktop => match apply_filter_desktop(opts, input) {
            Ok(()) => Ok(Outcome::Applied),
            Err(e) => Err(e),
        },
        CliOption::FilterActions => match apply_filter_actions(opts, input) {
            Ok(()) => Ok(Outcome::Applied),
            Err(e) => Err(e),
        },
        CliOption::AutoHideDuplicates => match apply_auto_hide_duplicates(opts, input) {
            Ok(()) => Ok(Outcome::Applied),
            Err(e) => Err(e),
        },
        CliOption::ListExecutablesInPath => match apply_list_executables_in_path(opts, input) {
            Ok(()) => Ok(Outcome::Applied),
            Err(e) => Err(e),
        },
        CliOption::DesktopIcons => match apply_desktop_icons(opts, input) {
            Ok(()) => Ok(Outcome::Applied),
            Err(e) => Err(e),
        },
        CliOption::IconPosition => match apply_icon_position(opts, input) {
            Ok(()) => Ok(Outcome::Applied),
            Err(e) => Err(e),
        },
        CliOption::IconPreviewWidth => match apply_icon_preview_width(opts, input) {
            Ok(()) => Ok(Outcome::Applied),
            Err(e) => Err(e),
        },
        CliOption::IconListWidth => match apply_icon_list_width(opts, input) {
            Ok(()) => Ok(Outcome::Applied),
            Err(e) => Err(e),
        },
        CliOption::IconListHeight => match apply_icon_list_height(opts, input) {
            Ok(()) => Ok(Outcome::Applied),
            Err(e) => Err(e),
        },
        CliOption::IconListGap => match apply_icon_list_gap(opts, input) {
            Ok(()) => Ok(Outcome::Applied),
            Err(e) => Err(e),
        },
        CliOption::IconListVerticalAlign => match apply_icon_list_vertical_align(opts, input) {
            Ok(()) => Ok(Outcome::Applied),
            Err(e) => Err(e),
        },
        CliOption::IconArrowBefore => match apply_icon_arrow_before(opts, input) {
            Ok(()) => Ok(Outcome::Applied),
            Err(e) => Err(e),
        },
        CliOption::IconSize => match apply_icon_size(opts, input) {
            Ok(()) => Ok(Outcome::Applied),
            Err(e) => Err(e),
        },
        CliOption::IconHorizontalAlign => match apply_icon_horizontal_align(opts, input) {
            Ok(()) => Ok(Outcome::Applied),
            Err(e) => Err(e),
        },
        CliOption::IconVerticalAlign => match apply_icon_vertical_align(opts, input) {
            Ok(()) => Ok(Outcome::Applied),
            Err(e) => Err(e),
        },
        CliOption::IconTheme => match apply_icon_theme(opts, input) {
            Ok(()) => Ok(Outcome::Applied),
            Err(e) => Err(e),
        },
        CliOption::MatchModeOption => match apply_match_mode_option(opts, input) {
            Ok(()) => Ok(Outcome::Applied),
            Err(e) => Err(e),
        },
        CliOption::PrefixDepth => match apply_prefix_depth(opts, input) {
            Ok(()) => Ok(Outcome::Applied),
            Err(e) => Err(e),
        },
        CliOption::Test => match apply_test(opts, input) {
            Ok(()) => Ok(Outcome::Applied),
            Err(e) => Err(e),
        },
        CliOption::WithNth => match apply_with_nth(opts, input) {
            Ok(()) => Ok(Outcome::Applied),
            Err(e) => Err(e),
        },
        CliOption::Delimiter => match apply_delimiter(opts, input) {
            Ok(()) => Ok(Outcome::Applied),
            Err(e) => Err(e),
        },
        CliOption::Program => match apply_program(opts, input) {
            Ok(()) => Ok(Outcome::Applied),
            Err(e) => Err(e),
        },
        CliOption::Verbose => match apply_verbose(opts, input) {
            Ok(()) => Ok(Outcome::Applied),
            Err(e) => Err(e),
        },
        CliOption::ShortHelp => Ok(
            Outcome::Command(CliCommand::PrintShortHelp { program_name: program_name.to_owned() }),
        ),
        CliOption::LongHelp => Ok(
            Outcome::Command(CliCommand::PrintLongHelp { program_name: program_name.to_owned() }),
        ),
        CliOption::Version => Ok(Outcome::Command(CliCommand::PrintVersion)),
        CliOption::Unexpected(m) => Err(CliError::Message(m)),
        CliOption::UnknownLong(n) => Err(unknown_long(n)),
        CliOption::UnknownShort(c) => Err(unknown_short(c)),
    }
}

/// Whether the option chooses a launch method.
pub fn launch_option(o: &CliOption) -> (b: bool)
    ensures
        b == is_launch_option(option_view(*o)),
{
    match o {
        CliOption::LaunchPrefix | CliOption::SystemdRun | CliOption::Uwsm => true,
        _ => false,
    }
}

} // verus!
