//! The tag prompts of the clipboard mode: which prompt is active, what its
//! keys do, and what submitting each prompt leads to.
use crate::cclip::content::{line_rowid, rowid_from_item_line};
use crate::cclip::model::{item_from_line, CclipItem};
use crate::desktop::entry::opt_string_view;
use crate::text::{chars_of, slice_vec, string_from_chars, string_from_range, strings_view, trim, trim_bounds};
use vstd::prelude::*;

verus! {

/// The prompt that input goes to.
pub enum TagMode {
    /// No prompt: input filters the list.
    Normal,
    /// Asking for the name of a tag to add.
    PromptingTagName {
        input: String,
        selected_item: Option<String>,
        available_tags: Vec<String>,
        selected_tag: Option<usize>,
    },
    /// Asking for the emoji of the tag being added.
    PromptingTagEmoji { tag_name: String, input: String, selected_item: Option<String> },
    /// Asking for the color of the tag being added.
    PromptingTagColor {
        tag_name: String,
        emoji: Option<String>,
        input: String,
        selected_item: Option<String>,
    },
    /// Asking which tag to remove (blank removes all).
    RemovingTag {
        input: String,
        tags: Vec<String>,
        selected: Option<usize>,
        selected_item: Option<String>,
    },
}

/// The prompts as plain values.
pub enum TagStep {
    Normal,
    Name {
        input: Seq<char>,
        selected_item: Option<Seq<char>>,
        available_tags: Seq<Seq<char>>,
        selected_tag: Option<usize>,
    },
    Emoji { tag_name: Seq<char>, input: Seq<char>, selected_item: Option<Seq<char>> },
    Color {
        tag_name: Seq<char>,
        emoji: Option<Seq<char>>,
        input: Seq<char>,
        selected_item: Option<Seq<char>>,
    },
    Removing {
        input: Seq<char>,
        tags: Seq<Seq<char>>,
        selected: Option<usize>,
        selected_item: Option<Seq<char>>,
    },
}

impl View for TagMode {
    type V = TagStep;

    open spec fn view(&self) -> TagStep {
        match self {
            TagMode::Normal => TagStep::Normal,
            TagMode::PromptingTagName { input, selected_item, available_tags, selected_tag } =>
                TagStep::Name {
                input: input@,
                selected_item: opt_string_view(*selected_item),
                available_tags: strings_view(available_tags@),
                selected_tag: *selected_tag,
            },
            TagMode::PromptingTagEmoji { tag_name, input, selected_item } => TagStep::Emoji {
                tag_name: tag_name@,
                input: input@,
                selected_item: opt_string_view(*selected_item),
            },
            TagMode::PromptingTagColor { tag_name, emoji, input, selected_item } =>
                TagStep::Color {
                tag_name: tag_name@,
                emoji: opt_string_view(*emoji),
                input: input@,
                selected_item: opt_string_view(*selected_item),
            },
            TagMode::RemovingTag { input, tags, selected, selected_item } => TagStep::Removing {
                input: input@,
                tags: strings_view(tags@),
                selected: *selected,
                selected_item: opt_string_view(*selected_item),
            },
        }
    }
}

/// The names of the confirm and leave actions shown for a prompt.
pub open spec fn actions_of(m: TagStep) -> (Seq<char>, Seq<char>) {
    match m {
        TagStep::Normal => ("copy"@, "close"@),
        TagStep::Name { .. } => ("continue"@, "cancel"@),
        TagStep::Emoji { .. } => ("continue"@, "cancel"@),
        TagStep::Color { .. } => ("apply"@, "cancel"@),
        TagStep::Removing { .. } => ("remove"@, "cancel"@),
    }
}

/// The confirm and leave actions of the active prompt.
pub fn command_actions(tag_mode: &TagMode) -> (r: (&'static str, &'static str))
    ensures
        (r.0@, r.1@) == actions_of(tag_mode@),
{
    let primary = match tag_mode {
        TagMode::Normal => "copy",
        TagMode::PromptingTagName { .. } | TagMode::PromptingTagEmoji { .. } => "continue",
        TagMode::PromptingTagColor { .. } => "apply",
        TagMode::RemovingTag { .. } => "remove",
    };
    let exit = match tag_mode {
        TagMode::Normal => "close",
        _ => "cancel",
    };
    (primary, exit)
}

/// The input of the active prompt, `None` without one.
pub open spec fn prompt_input(m: TagStep) -> Option<Seq<char>> {
    match m {
        TagStep::Normal => None,
        TagStep::Name { input, .. } => Some(input),
        TagStep::Emoji { input, .. } => Some(input),
        TagStep::Color { input, .. } => Some(input),
        TagStep::Removing { input, .. } => Some(input),
    }
}

/// `m` with the input of its prompt replaced.
pub open spec fn with_input(m: TagStep, s: Seq<char>) -> TagStep {
    match m {
        TagStep::Normal => TagStep::Normal,
        TagStep::Name { selected_item, available_tags, selected_tag, .. } => TagStep::Name {
            input: s,
            selected_item,
            available_tags,
            selected_tag,
        },
        TagStep::Emoji { tag_name, selected_item, .. } => TagStep::Emoji {
            tag_name,
            input: s,
            selected_item,
        },
        TagStep::Color { tag_name, emoji, selected_item, .. } => TagStep::Color {
            tag_name,
            emoji,
            input: s,
            selected_item,
        },
        TagStep::Removing { tags, selected, selected_item, .. } => TagStep::Removing {
            input: s,
            tags,
            selected,
            selected_item,
        },
    }
}

/// `s` without its last character (unchanged when empty).
pub open spec fn drop_last_char(s: Seq<char>) -> Seq<char> {
    if s.len() == 0 {
        s
    } else {
        s.drop_last()
    }
}

fn pop_last(s: &mut String)
    ensures
        final(s)@ == drop_last_char(old(s)@),
{
    let c = chars_of(s.as_str());
    if c.len() > 0 {
        let v = slice_vec(&c, 0, c.len() - 1);
        *s = string_from_chars(v.as_slice());
    }
}

/// Types a character: into the active prompt, or into the filter query.
/// Returns whether the query changed (so the list must be filtered again).
pub fn push_char(tag_mode: &mut TagMode, query: &mut String, character: char) -> (filter: bool)
    ensures
        filter == (old(tag_mode)@ is Normal),
        match prompt_input(old(tag_mode)@) {
            Some(i) => final(tag_mode)@ == with_input(old(tag_mode)@, i.push(character))
                && final(query)@ == old(query)@,
            None => final(tag_mode)@ == old(tag_mode)@ && final(query)@ == old(query)@.push(
                character,
            ),
        },
{
    match tag_mode {
        TagMode::PromptingTagName { input, .. } => {
            crate::text::push_char(input, character);
            false
        },
        TagMode::PromptingTagColor { input, .. } => {
            crate::text::push_char(input, character);
            false
        },
        TagMode::PromptingTagEmoji { input, .. } => {
            crate::text::push_char(input, character);
            false
        },
        TagMode::RemovingTag { input, .. } => {
            crate::text::push_char(input, character);
            false
        },
        TagMode::Normal => {
            crate::text::push_char(query, character);
            true
        },
    }
}

/// Deletes the last character of the active prompt or of the query.
/// Returns whether the query changed hands (the list must be filtered again).
pub fn pop_char(tag_mode: &mut TagMode, query: &mut String) -> (filter: bool)
    ensures
        filter == (old(tag_mode)@ is Normal),
        match prompt_input(old(tag_mode)@) {
            Some(i) => final(tag_mode)@ == with_input(old(tag_mode)@, drop_last_char(i))
                && final(query)@ == old(query)@,
            None => final(tag_mode)@ == old(tag_mode)@ && final(query)@ == drop_last_char(
                old(query)@,
            ),
        },
{
    match tag_mode {
        TagMode::PromptingTagName { input, .. } => {
            pop_last(input);
            false
        },
        TagMode::PromptingTagColor { input, .. } => {
            pop_last(input);
            false
        },
        TagMode::PromptingTagEmoji { input, .. } => {
            pop_last(input);
            false
        },
        TagMode::RemovingTag { input, .. } => {
            pop_last(input);
            false
        },
        TagMode::Normal => {
            pop_last(query);
            true
        },
    }
}

/// What starting tag removal on the selected line leads to: the removal
/// prompt, filled with the line's first tag, or a message.
pub open spec fn removal_start(selected_line: Option<Seq<char>>) -> Result<TagStep, Seq<char>> {
    match selected_line {
        None => Err("No item selected - cannot remove tag"@),
        Some(l) => match item_from_line(l) {
            None => Err(
                "Failed to parse item: "@
                    + crate::cclip::model::invalid_line_message(),
            ),
            Some(item) => Ok(
                TagStep::Removing {
                    input: if item.tags.len() > 0 {
                        item.tags[0]
                    } else {
                        seq![]
                    },
                    tags: item.tags,
                    selected: if item.tags.len() > 0 {
                        Some(0usize)
                    } else {
                        None
                    },
                    selected_item: Some(l),
                },
            ),
        },
    }
}

/// Starts naming a new tag for the selected history line, offering the
/// tags that exist; without a selection, the message to show instead.
pub fn begin_tag_creation(selected_line: Option<&str>, available_tags: Vec<String>) -> (r: Result<
    TagMode,
    String,
>)
    ensures
        match selected_line {
            Some(l) => r is Ok && r->Ok_0@ == (TagStep::Name {
                input: seq![],
                selected_item: Some(l@),
                available_tags: strings_view(available_tags@),
                selected_tag: None,
            }),
            None => r is Err && r->Err_0@ == "No item selected - cannot create tag"@,
        },
{
    match selected_line {
        Some(line) => Ok(
            TagMode::PromptingTagName {
                input: String::new(),
                selected_item: Some(line.to_owned()),
                available_tags,
                selected_tag: None,
            },
        ),
        None => Err(String::from_str("No item selected - cannot create tag")),
    }
}

/// Starts tag removal for the selected history line.
pub fn begin_tag_removal(selected_line: Option<&str>) -> (r: Result<TagMode, String>)
    ensures
        match removal_start(
            match selected_line {
                Some(l) => Some(l@),
                None => None,
            },
        ) {
            Ok(m) => r is Ok && r->Ok_0@ == m,
            Err(e) => r is Err && r->Err_0@ == e,
        },
{
    match selected_line {
        None => Err(String::from_str("No item selected - cannot remove tag")),
        Some(line) => match CclipItem::from_line(line.to_owned()) {
            Err(e) => {
                let mut msg = String::from_str("Failed to parse item: ");
                msg.append(e.as_str());
                Err(msg)
            },
            Ok(item) => {
                let has = item.tags.len() > 0;
                let input = if has {
                    item.tags[0].clone()
                } else {
                    String::new()
                };
                Ok(
                    TagMode::RemovingTag {
                        input,
                        tags: item.tags,
                        selected: if has {
                            Some(0)
                        } else {
                            None
                        },
                        selected_item: Some(line.to_owned()),
                    },
                )
            },
        },
    }
}

/// After the name prompt: the emoji prompt for the trimmed name, and a
/// note when the selected line already carries that tag.
pub open spec fn after_name(input: Seq<char>, selected_item: Option<Seq<char>>) -> (
    TagStep,
    Option<Seq<char>>,
) {
    let name = trim(input);
    let step = TagStep::Emoji { tag_name: name, input: seq![], selected_item };
    if name.len() == 0 {
        (step, None)
    } else {
        let editing = match selected_item {
            Some(l) => match item_from_line(l) {
                Some(item) => item.tags.contains(name),
                None => false,
            },
            None => false,
        };
        if editing {
            (step, Some("Tag '"@ + name + "' already applied (editing)"@))
        } else {
            (step, None)
        }
    }
}

/// Whether the tags of the history line `line` include `name`.
fn line_has_tag(line: &str, name: &str) -> (b: bool)
    ensures
        b == match item_from_line(line@) {
            Some(item) => item.tags.contains(name@),
            None => false,
        },
{
    match CclipItem::from_line(line.to_owned()) {
        Err(_) => false,
        Ok(item) => {
            let n = chars_of(name);
            let mut i: usize = 0;
            while i < item.tags.len()
                invariant
                    i <= item.tags@.len(),
                    n@ == name@,
                    item_from_line(line@) == Some(item@),
                    forall|j: int| 0 <= j < i ==> item.tags@[j]@ != name@,
                decreases item.tags@.len() - i,
            {
                let t = chars_of(item.tags[i].as_str());
                if crate::text::chars_eq(&t, &n) {
                    assert(strings_view(item.tags@)[i as int] == name@);
                    assert(strings_view(item.tags@).contains(name@));
                    return true;
                }
                i += 1;
            }
            assert(!strings_view(item.tags@).contains(name@)) by {
                if strings_view(item.tags@).contains(name@) {
                    let j = choose|j: int|
                        0 <= j < strings_view(item.tags@).len() && strings_view(item.tags@)[j]
                            == name@;
                    assert(item.tags@[j]@ == name@);
                }
            }
            false
        },
    }
}

fn trimmed(s: &str) -> (r: String)
    ensures
        r@ == trim(s@),
{
    let c = chars_of(s);
    let (a, b) = trim_bounds(&c, 0, c.len());
    assert(c@.subrange(0, c@.len() as int) =~= c@);
    string_from_range(&c, a, b)
}

/// Submits the name prompt (see [`after_name`]).
pub fn submit_tag_name(input: &str, selected_item: Option<String>) -> (r: (TagMode, Option<String>))
    ensures
        r.0@ == after_name(input@, opt_string_view(selected_item)).0,
        opt_string_view(r.1) == after_name(input@, opt_string_view(selected_item)).1,
{
    let name = trimmed(input);
    if name.as_str().unicode_len() == 0 {
        return (
            TagMode::PromptingTagEmoji { tag_name: name, input: String::new(), selected_item },
            None,
        );
    }
    let editing = match &selected_item {
        Some(l) => line_has_tag(l.as_str(), name.as_str()),
        None => false,
    };
    let note = if editing {
        let mut m = String::from_str("Tag '");
        m.append(name.as_str());
        m.append("' already applied (editing)");
        Some(m)
    } else {
        None
    };
    (TagMode::PromptingTagEmoji { tag_name: name, input: String::new(), selected_item }, note)
}

/// After the emoji prompt: the color prompt, whose tag is named by the
/// emoji when no name was given; without both, back to no prompt with a
/// message.
pub open spec fn after_emoji(
    tag_name: Seq<char>,
    input: Seq<char>,
    selected_item: Option<Seq<char>>,
) -> (TagStep, Option<Seq<char>>) {
    let e = trim(input);
    let emoji = if e.len() == 0 {
        None
    } else {
        Some(e)
    };
    if tag_name.len() == 0 && emoji is None {
        (TagStep::Normal, Some("Tag requires either a name or an emoji"@))
    } else {
        (
            TagStep::Color {
                tag_name: if tag_name.len() == 0 {
                    e
                } else {
                    tag_name
                },
                emoji,
                input: seq![],
                selected_item,
            },
            None,
        )
    }
}

/// Submits the emoji prompt (see [`after_emoji`]).
pub fn submit_tag_emoji(tag_name: String, input: &str, selected_item: Option<String>) -> (r: (
    TagMode,
    Option<String>,
))
    ensures
        r.0@ == after_emoji(tag_name@, input@, opt_string_view(selected_item)).0,
        opt_string_view(r.1) == after_emoji(tag_name@, input@, opt_string_view(selected_item)).1,
{
    let e = trimmed(input);
    let has_emoji = e.as_str().unicode_len() > 0;
    let no_name = tag_name.as_str().unicode_len() == 0;
    if no_name && !has_emoji {
        return (TagMode::Normal, Some(String::from_str("Tag requires either a name or an emoji")));
    }
    let final_name = if no_name {
        e.clone()
    } else {
        tag_name
    };
    let emoji = if has_emoji {
        Some(e)
    } else {
        None
    };
    (
        TagMode::PromptingTagColor {
            tag_name: final_name,
            emoji,
            input: String::new(),
            selected_item,
        },
        None,
    )
}

/// What submitting the color prompt does.
pub enum ColorSubmit {
    /// Nothing to tag: back to no prompt with this message.
    Abort(String),
    /// Tag the row (unless it already has the tag) and store the tag's
    /// name, color and emoji.
    Apply {
        rowid: String,
        tag_name: String,
        add_tag: bool,
        color: Option<String>,
        emoji: Option<String>,
    },
}

/// The color-prompt outcome as plain values.
pub enum ColorPlan {
    Abort(Seq<char>),
    Apply {
        rowid: Seq<char>,
        tag_name: Seq<char>,
        add_tag: bool,
        color: Option<Seq<char>>,
        emoji: Option<Seq<char>>,
    },
}

impl View for ColorSubmit {
    type V = ColorPlan;

    open spec fn view(&self) -> ColorPlan {
        match self {
            ColorSubmit::Abort(m) => ColorPlan::Abort(m@),
            ColorSubmit::Apply { rowid, tag_name, add_tag, color, emoji } => ColorPlan::Apply {
                rowid: rowid@,
                tag_name: tag_name@,
                add_tag: *add_tag,
                color: opt_string_view(*color),
                emoji: opt_string_view(*emoji),
            },
        }
    }
}

/// The outcome of the color prompt: the trimmed color (none when blank),
/// and whether the row must still get the tag.
pub open spec fn color_plan(
    tag_name: Seq<char>,
    emoji: Option<Seq<char>>,
    input: Seq<char>,
    selected_item: Option<Seq<char>>,
) -> ColorPlan {
    let c = trim(input);
    match selected_item {
        None => ColorPlan::Abort("No item selected"@),
        Some(l) => match line_rowid(l) {
            None => ColorPlan::Abort("Unable to determine item id"@),
            Some(rowid) => ColorPlan::Apply {
                rowid,
                tag_name,
                add_tag: !match item_from_line(l) {
                    Some(item) => item.tags.contains(tag_name),
                    None => false,
                },
                color: if c.len() == 0 {
                    None
                } else {
                    Some(c)
                },
                emoji,
            },
        },
    }
}

/// Submits the color prompt (see [`color_plan`]).
pub fn submit_tag_color(
    tag_name: String,
    emoji: Option<String>,
    input: &str,
    selected_item: Option<String>,
) -> (r: ColorSubmit)
    ensures
        r@ == color_plan(tag_name@, opt_string_view(emoji), input@, opt_string_view(selected_item)),
{
    let c = trimmed(input);
    let color = if c.as_str().unicode_len() == 0 {
        None
    } else {
        Some(c)
    };
    match selected_item {
        None => ColorSubmit::Abort(String::from_str("No item selected")),
        Some(line) => match rowid_from_item_line(line.as_str()) {
            None => ColorSubmit::Abort(String::from_str("Unable to determine item id")),
            Some(rowid) => {
                let editing = line_has_tag(line.as_str(), tag_name.as_str());
                ColorSubmit::Apply { rowid, tag_name, add_tag: !editing, color, emoji }
            },
        },
    }
}

/// What submitting the removal prompt does.
pub enum RemovalSubmit {
    Abort(String),
    /// Remove this tag from the row, or all its tags when `None`.
    Untag { rowid: String, tag: Option<String> },
}

/// The outcome of the removal prompt: the trimmed input names the tag to
/// remove; a blank input removes all tags.
pub open spec fn removal_plan(input: Seq<char>, selected_item: Option<Seq<char>>) -> Result<
    (Seq<char>, Option<Seq<char>>),
    Seq<char>,
> {
    match selected_item {
        None => Err("No item selected"@),
        Some(l) => match line_rowid(l) {
            None => Err("Unable to determine item id"@),
            Some(rowid) => Ok(
                (
                    rowid,
                    if trim(input).len() == 0 {
                        None
                    } else {
                        Some(trim(input))
                    },
                ),
            ),
        },
    }
}

/// Submits the removal prompt (see [`removal_plan`]).
pub fn submit_tag_removal(input: &str, selected_item: Option<String>) -> (r: RemovalSubmit)
    ensures
        match removal_plan(input@, opt_string_view(selected_item)) {
            Ok((rowid, tag)) => r matches RemovalSubmit::Untag { rowid: rr, tag: t } && rr@
                == rowid && opt_string_view(t) == tag,
            Err(m) => r matches RemovalSubmit::Abort(a) && a@ == m,
        },
{
    match selected_item {
        None => RemovalSubmit::Abort(String::from_str("No item selected")),
        Some(line) => match rowid_from_item_line(line.as_str()) {
            None => RemovalSubmit::Abort(String::from_str("Unable to determine item id")),
            Some(rowid) => {
                let t = trimmed(input);
                let tag = if t.as_str().unicode_len() == 0 {
                    None
                } else {
                    Some(t)
                };
                RemovalSubmit::Untag { rowid, tag }
            },
        },
    }
}

/// The message after tags were removed.
pub fn removal_message(tag: Option<&str>) -> (m: String)
    ensures
        m@ == match tag {
            Some(t) => "Removed tag '"@ + t@ + "'"@,
            None => "Removed all tags"@,
        },
{
    match tag {
        Some(t) => {
            let mut m = String::from_str("Removed tag '");
            m.append(t);
            m.append("'");
            m
        },
        None => String::from_str("Removed all tags"),
    }
}

} // verus!
