//! The text of the clipboard picker's input panel: the filter line, or the
//! prompt of the tag step in progress.
use crate::cclip::tags::{actions_of, command_actions, prompt_input, TagMode, TagStep};
use crate::text::{decimal, u64_to_decimal};
use vstd::prelude::*;

verus! {

/// How a piece of the input line is coloured.
#[derive(Clone, Copy, Debug, PartialEq, Eq, Structural)]
pub enum SpanRole {
    /// The highlight colour.
    Highlight,
    /// The input text colour.
    Text,
    /// The input text colour, dimmed.
    Hint,
}

/// A piece of the input line.
pub struct StyledSpan {
    pub text: String,
    pub role: SpanRole,
}

pub open spec fn spans_view(v: Seq<StyledSpan>) -> Seq<(Seq<char>, SpanRole)> {
    v.map_values(|s: StyledSpan| (s.text@, s.role))
}

/// The lines of the input panel, its title, and the names of its confirm
/// and leave actions.
pub struct InputLines {
    /// The line with the match count, for the classic panel.
    pub classic: Vec<StyledSpan>,
    /// The line for the command-style panel.
    pub command: Vec<StyledSpan>,
    pub title: &'static str,
    pub primary_action: &'static str,
    pub exit_action: &'static str,
}

/// What the input panel shows (the parts of the picker state it reads).
pub struct InputSettings {
    pub show_input_count: bool,
    pub show_input_prompt: bool,
    /// Drawn after the text as the cursor.
    pub cursor: String,
}

/// The label, hint and title of each tag prompt.
pub open spec fn prompt_texts(m: TagStep) -> (Seq<char>, Option<Seq<char>>, Seq<char>) {
    match m {
        TagStep::Name { .. } => ("Tag: "@, None, " Tag Name "@),
        TagStep::Emoji { .. } => ("Emoji: "@, Some(" (or blank)"@), " Tag Emoji "@),
        TagStep::Color { .. } => ("Color: "@, Some(" (hex/name or blank)"@), " Tag Color "@),
        _ => ("Remove: "@, Some(" (blank = all)"@), " Remove Tag "@),
    }
}

/// A prompt line: the label, the typed input, the cursor, then the hint.
pub open spec fn prompt_spans(
    label: Seq<char>,
    input: Seq<char>,
    cursor: Seq<char>,
    hint: Option<Seq<char>>,
) -> Seq<(Seq<char>, SpanRole)> {
    let base = seq![(label, SpanRole::Highlight), (input, SpanRole::Text), (cursor, SpanRole::Highlight)];
    match hint {
        Some(h) => base.push((h, SpanRole::Hint)),
        None => base,
    }
}

/// The filter line: `(selected/shown) ` when counting, the `>> ` prompt
/// when shown, then the query and the cursor. The selected row counts
/// from 1; 0 means none.
pub open spec fn filter_spans(
    selected: Option<usize>,
    shown_len: nat,
    query: Seq<char>,
    cursor: Seq<char>,
    show_count: bool,
    show_prompt: bool,
) -> Seq<(Seq<char>, SpanRole)> {
    let position: nat = match selected {
        Some(s) => (s + 1) as nat,
        None => 0,
    };
    let count = if show_count {
        seq![
            ("("@, SpanRole::Text),
            (decimal(position), SpanRole::Highlight),
            ("/"@, SpanRole::Text),
            (decimal(shown_len), SpanRole::Text),
            (") "@, SpanRole::Text),
        ]
    } else {
        seq![]
    };
    let prompt = if show_prompt {
        seq![(">"@, SpanRole::Highlight), ("> "@, SpanRole::Text)]
    } else {
        seq![]
    };
    count + prompt + seq![(query, SpanRole::Text), (cursor, SpanRole::Highlight)]
}

fn span(text: String, role: SpanRole) -> (s: StyledSpan)
    ensures
        s.text@ == text@,
        s.role == role,
{
    StyledSpan { text, role }
}

/// A prompt line (see [`prompt_spans`]).
pub fn prompt_line(label: &str, input: &str, cursor: &str, hint: Option<&str>) -> (r: Vec<
    StyledSpan,
>)
    ensures
        spans_view(r@) == prompt_spans(
            label@,
            input@,
            cursor@,
            match hint {
                Some(h) => Some(h@),
                None => None,
            },
        ),
{
    let mut spans: Vec<StyledSpan> = Vec::new();
    spans.push(span(label.to_owned(), SpanRole::Highlight));
    spans.push(span(input.to_owned(), SpanRole::Text));
    spans.push(span(cursor.to_owned(), SpanRole::Highlight));
    match hint {
        Some(h) => {
            spans.push(span(h.to_owned(), SpanRole::Hint));
        },
        None => {},
    }
    assert(spans_view(spans@) =~= prompt_spans(
        label@,
        input@,
        cursor@,
        match hint {
            Some(h) => Some(h@),
            None => None,
        },
    ));
    spans
}

/// The filter line (see [`filter_spans`]); `include_count` is false for the
/// command-style panel, which has no count.
pub fn filter_line(
    selected: Option<usize>,
    shown_len: usize,
    query: &str,
    settings: &InputSettings,
    include_count: bool,
) -> (r: Vec<StyledSpan>)
    requires
        match selected {
            Some(s) => s < shown_len,
            None => true,
        },
    ensures
        spans_view(r@) == filter_spans(
            selected,
            shown_len as nat,
            query@,
            settings.cursor@,
            include_count && settings.show_input_count,
            settings.show_input_prompt,
        ),
{
    let mut spans: Vec<StyledSpan> = Vec::new();
    let position: u64 = match selected {
        Some(s) => (s + 1) as u64,
        None => 0,
    };
    if include_count && settings.show_input_count {
        spans.push(span(String::from_str("("), SpanRole::Text));
        spans.push(span(u64_to_decimal(position), SpanRole::Highlight));
        spans.push(span(String::from_str("/"), SpanRole::Text));
        spans.push(span(u64_to_decimal(shown_len as u64), SpanRole::Text));
        spans.push(span(String::from_str(") "), SpanRole::Text));
    }
    let ghost after_count = spans_view(spans@);
    if settings.show_input_prompt {
        spans.push(span(String::from_str(">"), SpanRole::Highlight));
        spans.push(span(String::from_str("> "), SpanRole::Text));
    }
    spans.push(span(query.to_owned(), SpanRole::Text));
    spans.push(span(settings.cursor.clone(), SpanRole::Highlight));
    assert(spans_view(spans@) =~= filter_spans(
        selected,
        shown_len as nat,
        query@,
        settings.cursor@,
        include_count && settings.show_input_count,
        settings.show_input_prompt,
    ));
    spans
}

/// The input panel for the picker's state: the active tag prompt, or the
/// filter line with the query.
pub fn input_lines(
    tag_mode: &TagMode,
    query: &str,
    selected: Option<usize>,
    shown_len: usize,
    settings: &InputSettings,
) -> (r: InputLines)
    requires
        match selected {
            Some(s) => s < shown_len,
            None => true,
        },
    ensures
        (r.primary_action@, r.exit_action@) == actions_of(tag_mode@),
        match prompt_input(tag_mode@) {
            Some(input) => {
                let (label, hint, title) = prompt_texts(tag_mode@);
                &&& spans_view(r.classic@) == prompt_spans(label, input, settings.cursor@, hint)
                &&& spans_view(r.command@) == prompt_spans(label, input, settings.cursor@, hint)
                &&& r.title@ == title
            },
            None => {
                &&& spans_view(r.classic@) == filter_spans(
                    selected,
                    shown_len as nat,
                    query@,
                    settings.cursor@,
                    settings.show_input_count,
                    settings.show_input_prompt,
                )
                &&& spans_view(r.command@) == filter_spans(
                    selected,
                    shown_len as nat,
                    query@,
                    settings.cursor@,
                    false,
                    settings.show_input_prompt,
                )
                &&& r.title@ == " Filter "@
            },
        },
{
    let (primary_action, exit_action) = command_actions(tag_mode);
    let (label, input, hint, title): (&str, &str, Option<&str>, &'static str) = match tag_mode {
        TagMode::PromptingTagName { input, .. } => ("Tag: ", input.as_str(), None, " Tag Name "),
        TagMode::PromptingTagEmoji { input, .. } => (
            "Emoji: ",
            input.as_str(),
            Some(" (or blank)"),
            " Tag Emoji ",
        ),
        TagMode::PromptingTagColor { input, .. } => (
            "Color: ",
            input.as_str(),
            Some(" (hex/name or blank)"),
            " Tag Color ",
        ),
        TagMode::RemovingTag { input, .. } => (
            "Remove: ",
            input.as_str(),
            Some(" (blank = all)"),
            " Remove Tag ",
        ),
        TagMode::Normal => {
            return InputLines {
                classic: filter_line(selected, shown_len, query, settings, true),
                command: filter_line(selected, shown_len, query, settings, false),
                title: " Filter ",
                primary_action,
                exit_action,
            };
        },
    };
    InputLines {
        classic: prompt_line(label, input, settings.cursor.as_str(), hint),
        command: prompt_line(label, input, settings.cursor.as_str(), hint),
        title,
        primary_action,
        exit_action,
    }
}

} // verus!
