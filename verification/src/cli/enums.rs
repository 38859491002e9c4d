//! The named modes that options and configuration files select.
use crate::text::{
    all_ascii, ascii_lower_seq, lemma_ascii_lower_keeps, lemma_trim_keeps, lower_trimmed, trim,
    vec_is,
};
use vstd::prelude::*;

verus! {

/// How a query is matched against candidates.
#[derive(Clone, Copy, Debug, PartialEq, Eq, Structural)]
pub enum MatchMode {
    Exact,
    Fuzzy,
}

/// How launcher entries are ranked.
#[derive(Clone, Copy, Debug, PartialEq, Eq, Structural)]
pub enum RankingMode {
    Frecency,
    Recency,
    Frequency,
}

/// How pinned entries are ordered among themselves.
#[derive(Clone, Copy, Debug, PartialEq, Eq, Structural)]
pub enum PinnedOrderMode {
    Ranking,
    Alphabetical,
    OldestPinned,
    NewestPinned,
}

/// Where the launcher shows application icons.
#[derive(Clone, Copy, Debug, PartialEq, Eq, Structural)]
pub enum DesktopIconMode {
    Off,
    Preview,
    List,
    Both,
}

/// `"Invalid <what>: '<value>'"`.
pub open spec fn invalid_message(what: Seq<char>, value: Seq<char>) -> Seq<char> {
    "Invalid "@ + what + ": '"@ + value + "'"@
}

fn invalid(what: &str, value: &str) -> (s: String)
    ensures
        s@ == invalid_message(what@, value@),
{
    let mut s = String::from_str("Invalid ");
    s.append(what);
    s.append(": '");
    s.append(value);
    s.append("'");
    s
}

/// The match mode named by `l`, the lowered and trimmed input.
pub open spec fn match_mode_named(l: Seq<char>) -> Option<MatchMode> {
    if l == "exact"@ {
        Some(MatchMode::Exact)
    } else if l == "fuzzy"@ {
        Some(MatchMode::Fuzzy)
    } else {
        None
    }
}

pub open spec fn ranking_mode_named(l: Seq<char>) -> Option<RankingMode> {
    if l == "frecency"@ {
        Some(RankingMode::Frecency)
    } else if l == "recency"@ {
        Some(RankingMode::Recency)
    } else if l == "frequency"@ {
        Some(RankingMode::Frequency)
    } else {
        None
    }
}

pub open spec fn pinned_order_named(l: Seq<char>) -> Option<PinnedOrderMode> {
    if l == "ranking"@ {
        Some(PinnedOrderMode::Ranking)
    } else if l == "alphabetical"@ {
        Some(PinnedOrderMode::Alphabetical)
    } else if l == "oldest_pinned"@ || l == "oldest"@ {
        Some(PinnedOrderMode::OldestPinned)
    } else if l == "newest_pinned"@ || l == "newest"@ || l == "last_pinned"@ {
        Some(PinnedOrderMode::NewestPinned)
    } else {
        None
    }
}

pub open spec fn desktop_icon_named(l: Seq<char>) -> Option<DesktopIconMode> {
    if l == "none"@ || l == "no"@ || l == "off"@ || l == "false"@ {
        Some(DesktopIconMode::Off)
    } else if l == "preview"@ || l == "yes"@ || l == "on"@ || l == "true"@ {
        Some(DesktopIconMode::Preview)
    } else if l == "list"@ {
        Some(DesktopIconMode::List)
    } else if l == "both"@ {
        Some(DesktopIconMode::Both)
    } else {
        None
    }
}

/// The result of parsing `value` with the names matched by `named`.
pub open spec fn parsed<T>(named: Option<T>, err: Seq<char>) -> Result<T, Seq<char>> {
    match named {
        Some(m) => Ok(m),
        None => Err(err),
    }
}

/// The result of a parse: `Ok` with the mode, or the error message.
pub open spec fn result_view<T>(r: Result<T, String>) -> Result<T, Seq<char>> {
    match r {
        Ok(m) => Ok(m),
        Err(e) => Err(e@),
    }
}

impl MatchMode {
    /// Parses a match mode, ignoring case and surrounding whitespace.
    pub fn parse(value: &str) -> (r: Result<MatchMode, String>)
        ensures
            result_view(r) == parsed(
                match_mode_named(crate::text::lowercase(trim(value@))),
                invalid_message("match mode"@, value@),
            ),
            all_ascii(trim(value@)) ==> result_view(r) == parsed(
                match_mode_named(ascii_lower_seq(trim(value@))),
                invalid_message("match mode"@, value@),
            ),
    {
        let l = lower_trimmed(value);
        if vec_is(&l, "exact") {
            Ok(MatchMode::Exact)
        } else if vec_is(&l, "fuzzy") {
            Ok(MatchMode::Fuzzy)
        } else {
            Err(invalid("match mode", value))
        }
    }

    /// The lower-case name of the mode.
    pub fn as_str(self) -> (s: &'static str)
        ensures
            s@ == self.name(),
    {
        match self {
            MatchMode::Exact => "exact",
            MatchMode::Fuzzy => "fuzzy",
        }
    }

    pub open spec fn name(self) -> Seq<char> {
        match self {
            MatchMode::Exact => "exact"@,
            MatchMode::Fuzzy => "fuzzy"@,
        }
    }
}

impl RankingMode {
    /// Parses a ranking mode, ignoring case and surrounding whitespace.
    pub fn parse(value: &str) -> (r: Result<RankingMode, String>)
        ensures
            result_view(r) == parsed(
                ranking_mode_named(crate::text::lowercase(trim(value@))),
                invalid_message("ranking mode"@, value@),
            ),
            all_ascii(trim(value@)) ==> result_view(r) == parsed(
                ranking_mode_named(ascii_lower_seq(trim(value@))),
                invalid_message("ranking mode"@, value@),
            ),
    {
        let l = lower_trimmed(value);
        if vec_is(&l, "frecency") {
            Ok(RankingMode::Frecency)
        } else if vec_is(&l, "recency") {
            Ok(RankingMode::Recency)
        } else if vec_is(&l, "frequency") {
            Ok(RankingMode::Frequency)
        } else {
            Err(invalid("ranking mode", value))
        }
    }

    /// The lower-case name of the mode.
    pub fn as_str(self) -> (s: &'static str)
        ensures
            s@ == self.name(),
    {
        match self {
            RankingMode::Frecency => "frecency",
            RankingMode::Recency => "recency",
            RankingMode::Frequency => "frequency",
        }
    }

    pub open spec fn name(self) -> Seq<char> {
        match self {
            RankingMode::Frecency => "frecency"@,
            RankingMode::Recency => "recency"@,
            RankingMode::Frequency => "frequency"@,
        }
    }
}

impl PinnedOrderMode {
    /// Parses a pinned order, ignoring case and surrounding whitespace;
    /// `oldest`, `newest` and `last_pinned` are accepted as aliases.
    pub fn parse(value: &str) -> (r: Result<PinnedOrderMode, String>)
        ensures
            result_view(r) == parsed(
                pinned_order_named(crate::text::lowercase(trim(value@))),
                invalid_message("pinned order mode"@, value@),
            ),
            all_ascii(trim(value@)) ==> result_view(r) == parsed(
                pinned_order_named(ascii_lower_seq(trim(value@))),
                invalid_message("pinned order mode"@, value@),
            ),
    {
        let l = lower_trimmed(value);
        if vec_is(&l, "ranking") {
            Ok(PinnedOrderMode::Ranking)
        } else if vec_is(&l, "alphabetical") {
            Ok(PinnedOrderMode::Alphabetical)
        } else if vec_is(&l, "oldest_pinned") || vec_is(&l, "oldest") {
            Ok(PinnedOrderMode::OldestPinned)
        } else if vec_is(&l, "newest_pinned") || vec_is(&l, "newest") || vec_is(&l, "last_pinned") {
            Ok(PinnedOrderMode::NewestPinned)
        } else {
            Err(invalid("pinned order mode", value))
        }
    }

    /// The snake-case name of the order.
    pub fn as_str(self) -> (s: &'static str)
        ensures
            s@ == self.name(),
    {
        match self {
            PinnedOrderMode::Ranking => "ranking",
            PinnedOrderMode::Alphabetical => "alphabetical",
            PinnedOrderMode::OldestPinned => "oldest_pinned",
            PinnedOrderMode::NewestPinned => "newest_pinned",
        }
    }

    pub open spec fn name(self) -> Seq<char> {
        match self {
            PinnedOrderMode::Ranking => "ranking"@,
            PinnedOrderMode::Alphabetical => "alphabetical"@,
            PinnedOrderMode::OldestPinned => "oldest_pinned"@,
            PinnedOrderMode::NewestPinned => "newest_pinned"@,
        }
    }
}

/// The error message for an unknown desktop icon mode.
pub open spec fn invalid_icon_mode_message(value: Seq<char>) -> Seq<char> {
    "Invalid desktop icon mode: '"@ + value + "'. Valid options: none, preview, list, both"@
}

impl DesktopIconMode {
    /// Parses an icon mode; `no`/`off`/`false` mean `none` and
    /// `yes`/`on`/`true` mean `preview`.
    pub fn parse(value: &str) -> (r: Result<DesktopIconMode, String>)
        ensures
            result_view(r) == parsed(
                desktop_icon_named(crate::text::lowercase(trim(value@))),
                invalid_icon_mode_message(value@),
            ),
            all_ascii(trim(value@)) ==> result_view(r) == parsed(
                desktop_icon_named(ascii_lower_seq(trim(value@))),
                invalid_icon_mode_message(value@),
            ),
    {
        let l = lower_trimmed(value);
        if vec_is(&l, "none") || vec_is(&l, "no") || vec_is(&l, "off") || vec_is(&l, "false") {
            Ok(DesktopIconMode::Off)
        } else if vec_is(&l, "preview") || vec_is(&l, "yes") || vec_is(&l, "on") || vec_is(
            &l,
            "true",
        ) {
            Ok(DesktopIconMode::Preview)
        } else if vec_is(&l, "list") {
            Ok(DesktopIconMode::List)
        } else if vec_is(&l, "both") {
            Ok(DesktopIconMode::Both)
        } else {
            let mut s = String::from_str("Invalid desktop icon mode: '");
            s.append(value);
            s.append("'. Valid options: none, preview, list, both");
            Err(s)
        }
    }

    /// Whether icons are drawn in the preview panel.
    pub fn shows_preview(self) -> (b: bool)
        ensures
            b == (self == DesktopIconMode::Preview || self == DesktopIconMode::Both),
    {
        match self {
            DesktopIconMode::Preview | DesktopIconMode::Both => true,
            _ => false,
        }
    }

    /// Whether icons are drawn beside list rows.
    pub fn shows_list(self) -> (b: bool)
        ensures
            b == (self == DesktopIconMode::List || self == DesktopIconMode::Both),
    {
        match self {
            DesktopIconMode::List | DesktopIconMode::Both => true,
            _ => false,
        }
    }
}

impl Default for MatchMode {
    fn default() -> (m: MatchMode)
        ensures
            m == MatchMode::Fuzzy,
    {
        MatchMode::Fuzzy
    }
}

impl Default for RankingMode {
    fn default() -> (m: RankingMode)
        ensures
            m == RankingMode::Frecency,
    {
        RankingMode::Frecency
    }
}

impl Default for PinnedOrderMode {
    fn default() -> (m: PinnedOrderMode)
        ensures
            m == PinnedOrderMode::Ranking,
    {
        PinnedOrderMode::Ranking
    }
}

impl Default for DesktopIconMode {
    fn default() -> (m: DesktopIconMode)
        ensures
            m == DesktopIconMode::Preview,
    {
        DesktopIconMode::Preview
    }
}

/// A name made of lower-case ASCII letters and `_` parses back to itself:
/// it is already trimmed and lowered.
proof fn lemma_plain_name(s: Seq<char>)
    requires
        s.len() > 0,
        forall|i: int| 0 <= i < s.len() ==> ('a' <= #[trigger] s[i] <= 'z' || s[i] == '_'),
    ensures
        all_ascii(trim(s)),
        ascii_lower_seq(trim(s)) == s,
{
    lemma_trim_keeps(s);
    lemma_ascii_lower_keeps(s);
}

/// The name of every match mode parses back to that mode.
pub proof fn lemma_match_mode_name_round_trip(m: MatchMode)
    ensures
        all_ascii(trim(m.name())),
        match_mode_named(ascii_lower_seq(trim(m.name()))) == Some(m),
{
    reveal_strlit("exact");
    reveal_strlit("fuzzy");
    lemma_plain_name(m.name());
}

/// The name of every ranking mode parses back to that mode.
pub proof fn lemma_ranking_mode_name_round_trip(m: RankingMode)
    ensures
        all_ascii(trim(m.name())),
        ranking_mode_named(ascii_lower_seq(trim(m.name()))) == Some(m),
{
    reveal_strlit("frecency");
    reveal_strlit("recency");
    reveal_strlit("frequency");
    lemma_plain_name(m.name());
}

/// The name of every pinned order parses back to that order.
pub proof fn lemma_pinned_order_name_round_trip(m: PinnedOrderMode)
    ensures
        all_ascii(trim(m.name())),
        pinned_order_named(ascii_lower_seq(trim(m.name()))) == Some(m),
{
    reveal_strlit("ranking");
    reveal_strlit("alphabetical");
    reveal_strlit("oldest_pinned");
    reveal_strlit("oldest");
    reveal_strlit("newest_pinned");
    reveal_strlit("newest");
    reveal_strlit("last_pinned");
    lemma_plain_name(m.name());
}

/// Where the title panel sits.
#[derive(Clone, Copy, Debug, PartialEq, Eq, Structural)]
pub enum PanelPosition {
    Top,
    Middle,
    Bottom,
}

/// A horizontal side (of the launcher's icon column).
#[derive(Clone, Copy, Debug, PartialEq, Eq, Structural)]
pub enum HorizontalPosition {
    Left,
    Right,
}

/// The edge that a panel docks to.
#[derive(Clone, Copy, Debug, PartialEq, Eq, Structural)]
pub enum PanelSide {
    Top,
    Right,
    Bottom,
    Left,
}

/// How the input panel is drawn.
#[derive(Clone, Copy, Debug, PartialEq, Eq, Structural)]
pub enum InputPanelStyle {
    Classic,
    Command,
}

pub open spec fn panel_position_named(l: Seq<char>) -> Option<PanelPosition> {
    if l == "top"@ {
        Some(PanelPosition::Top)
    } else if l == "middle"@ {
        Some(PanelPosition::Middle)
    } else if l == "bottom"@ {
        Some(PanelPosition::Bottom)
    } else {
        None
    }
}

pub open spec fn horizontal_position_named(l: Seq<char>) -> Option<HorizontalPosition> {
    if l == "left"@ {
        Some(HorizontalPosition::Left)
    } else if l == "right"@ {
        Some(HorizontalPosition::Right)
    } else {
        None
    }
}

pub open spec fn panel_side_named(l: Seq<char>) -> Option<PanelSide> {
    if l == "top"@ {
        Some(PanelSide::Top)
    } else if l == "right"@ {
        Some(PanelSide::Right)
    } else if l == "bottom"@ {
        Some(PanelSide::Bottom)
    } else if l == "left"@ {
        Some(PanelSide::Left)
    } else {
        None
    }
}

pub open spec fn input_panel_style_named(l: Seq<char>) -> Option<InputPanelStyle> {
    if l == "classic"@ {
        Some(InputPanelStyle::Classic)
    } else if l == "command"@ {
        Some(InputPanelStyle::Command)
    } else {
        None
    }
}

impl PanelPosition {
    /// Parses a title panel position, ignoring case and surrounding whitespace.
    pub fn parse(value: &str) -> (r: Result<PanelPosition, String>)
        ensures
            result_view(r) == parsed(
                panel_position_named(crate::text::lowercase(trim(value@))),
                invalid_message("panel position"@, value@),
            ),
            all_ascii(trim(value@)) ==> result_view(r) == parsed(
                panel_position_named(ascii_lower_seq(trim(value@))),
                invalid_message("panel position"@, value@),
            ),
    {
        let l = lower_trimmed(value);
        if vec_is(&l, "top") {
            Ok(PanelPosition::Top)
        } else if vec_is(&l, "middle") {
            Ok(PanelPosition::Middle)
        } else if vec_is(&l, "bottom") {
            Ok(PanelPosition::Bottom)
        } else {
            Err(invalid("panel position", value))
        }
    }
}

impl HorizontalPosition {
    /// Parses `left` or `right`, ignoring case and surrounding whitespace.
    pub fn parse(value: &str) -> (r: Result<HorizontalPosition, String>)
        ensures
            result_view(r) == parsed(
                horizontal_position_named(crate::text::lowercase(trim(value@))),
                invalid_message("horizontal position"@, value@),
            ),
            all_ascii(trim(value@)) ==> result_view(r) == parsed(
                horizontal_position_named(ascii_lower_seq(trim(value@))),
                invalid_message("horizontal position"@, value@),
            ),
    {
        let l = lower_trimmed(value);
        if vec_is(&l, "left") {
            Ok(HorizontalPosition::Left)
        } else if vec_is(&l, "right") {
            Ok(HorizontalPosition::Right)
        } else {
            Err(invalid("horizontal position", value))
        }
    }
}

impl PanelSide {
    /// Parses a panel edge, ignoring case and surrounding whitespace.
    pub fn parse(value: &str) -> (r: Result<PanelSide, String>)
        ensures
            result_view(r) == parsed(
                panel_side_named(crate::text::lowercase(trim(value@))),
                invalid_message("panel side"@, value@),
            ),
            all_ascii(trim(value@)) ==> result_view(r) == parsed(
                panel_side_named(ascii_lower_seq(trim(value@))),
                invalid_message("panel side"@, value@),
            ),
    {
        let l = lower_trimmed(value);
        if vec_is(&l, "top") {
            Ok(PanelSide::Top)
        } else if vec_is(&l, "right") {
            Ok(PanelSide::Right)
        } else if vec_is(&l, "bottom") {
            Ok(PanelSide::Bottom)
        } else if vec_is(&l, "left") {
            Ok(PanelSide::Left)
        } else {
            Err(invalid("panel side", value))
        }
    }
}

impl InputPanelStyle {
    /// Parses `classic` or `command`, ignoring case and surrounding whitespace.
    pub fn parse(value: &str) -> (r: Result<InputPanelStyle, String>)
        ensures
            result_view(r) == parsed(
                input_panel_style_named(crate::text::lowercase(trim(value@))),
                invalid_message("input panel style"@, value@),
            ),
            all_ascii(trim(value@)) ==> result_view(r) == parsed(
                input_panel_style_named(ascii_lower_seq(trim(value@))),
                invalid_message("input panel style"@, value@),
            ),
    {
        let l = lower_trimmed(value);
        if vec_is(&l, "classic") {
            Ok(InputPanelStyle::Classic)
        } else if vec_is(&l, "command") {
            Ok(InputPanelStyle::Command)
        } else {
            Err(invalid("input panel style", value))
        }
    }
}

impl Default for PanelPosition {
    fn default() -> (m: PanelPosition)
        ensures
            m == PanelPosition::Top,
    {
        PanelPosition::Top
    }
}

impl Default for InputPanelStyle {
    fn default() -> (m: InputPanelStyle)
        ensures
            m == InputPanelStyle::Classic,
    {
        InputPanelStyle::Classic
    }
}

impl std::str::FromStr for MatchMode {
    type Err = String;

    fn from_str(value: &str) -> Result<Self, Self::Err> {
        MatchMode::parse(value)
    }
}

impl std::str::FromStr for RankingMode {
    type Err = String;

    fn from_str(value: &str) -> Result<Self, Self::Err> {
        RankingMode::parse(value)
    }
}

impl std::str::FromStr for PinnedOrderMode {
    type Err = String;

    fn from_str(value: &str) -> Result<Self, Self::Err> {
        PinnedOrderMode::parse(value)
    }
}

impl std::str::FromStr for DesktopIconMode {
    type Err = String;

    fn from_str(value: &str) -> Result<Self, Self::Err> {
        DesktopIconMode::parse(value)
    }
}

impl std::str::FromStr for PanelPosition {
    type Err = String;

    fn from_str(value: &str) -> Result<Self, Self::Err> {
        PanelPosition::parse(value)
    }
}

impl std::str::FromStr for HorizontalPosition {
    type Err = String;

    fn from_str(value: &str) -> Result<Self, Self::Err> {
        HorizontalPosition::parse(value)
    }
}

impl std::str::FromStr for PanelSide {
    type Err = String;

    fn from_str(value: &str) -> Result<Self, Self::Err> {
        PanelSide::parse(value)
    }
}

impl std::str::FromStr for InputPanelStyle {
    type Err = String;

    fn from_str(value: &str) -> Result<Self, Self::Err> {
        InputPanelStyle::parse(value)
    }
}

} // verus!
