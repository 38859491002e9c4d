//! The state of a preview panel: which selection its content belongs to,
//! and what each finished command or image decode does to it. Results of
//! superseded requests are recognised by their generation and dropped.
use crate::preview::expand::{expand_error_message, expand_preview_command, expand_spec};
use crate::preview::output::{
    ansi_stripped, append_truncation_notice, is_image_signature, output_text,
    oversized_image_message, recognizes_image_bytes, should_report_command_failure,
    signature_query, truncated_image_message, truncation_notice, CommandOutput,
};
use crate::text::{chars_of, decimal, trim, trim_bounds, trim_end, u64_to_decimal, utf8_lossy};
use vstd::prelude::*;

verus! {

/// What a preview panel shows.
pub enum PreviewContent {
    Empty,
    Loading,
    Text(String),
    /// The image stored under this key.
    Image(String),
}

pub enum ContentModel {
    Empty,
    Loading,
    Text(Seq<char>),
    Image(Seq<char>),
}

impl View for PreviewContent {
    type V = ContentModel;

    open spec fn view(&self) -> ContentModel {
        match self {
            PreviewContent::Empty => ContentModel::Empty,
            PreviewContent::Loading => ContentModel::Loading,
            PreviewContent::Text(t) => ContentModel::Text(t@),
            PreviewContent::Image(k) => ContentModel::Image(k@),
        }
    }
}

/// What a preview was asked for: the selected row, its input line number
/// from zero, its text, and the query when it is exposed.
pub struct PreviewSignature {
    pub selected: usize,
    pub input_ordinal: usize,
    pub item: String,
    pub query: String,
}

pub struct SignatureModel {
    pub selected: usize,
    pub input_ordinal: usize,
    pub item: Seq<char>,
    pub query: Seq<char>,
}

impl View for PreviewSignature {
    type V = SignatureModel;

    open spec fn view(&self) -> SignatureModel {
        SignatureModel {
            selected: self.selected,
            input_ordinal: self.input_ordinal,
            item: self.item@,
            query: self.query@,
        }
    }
}

/// The state of one preview panel.
pub struct PreviewState {
    /// The command template; no previews without one.
    pub command_template: Option<String>,
    /// Whether the query is passed to the command (not in password mode).
    pub expose_query: bool,
    pub content: PreviewContent,
    pub current_signature: Option<PreviewSignature>,
    /// Counts requests; results carry the one they were made for.
    pub generation: u64,
}

pub struct PreviewModel {
    pub command_template: Option<Seq<char>>,
    pub expose_query: bool,
    pub content: ContentModel,
    pub current_signature: Option<SignatureModel>,
    pub generation: u64,
}

impl View for PreviewState {
    type V = PreviewModel;

    open spec fn view(&self) -> PreviewModel {
        PreviewModel {
            command_template: match self.command_template {
                Some(t) => Some(t@),
                None => None,
            },
            expose_query: self.expose_query,
            content: self.content@,
            current_signature: match self.current_signature {
                Some(s) => Some(s@),
                None => None,
            },
            generation: self.generation,
        }
    }
}

/// The next generation, wrapping at the end of `u64`.
pub open spec fn next_generation(g: u64) -> u64 {
    if g == u64::MAX {
        0
    } else {
        (g + 1) as u64
    }
}

/// A command to start for the preview.
pub struct PreviewLaunch {
    pub generation: u64,
    pub command: String,
    pub item: String,
    /// The query, when it is exposed to the command.
    pub query: Option<String>,
    pub input_ordinal: usize,
}

/// What a request asks of the caller.
pub enum RequestStep {
    /// Nothing changed; keep any running command.
    Unchanged,
    /// The preview was cleared: stop any running command and pending decode.
    Cleared,
    /// The template could not be expanded; stop any running command.
    Failed,
    /// Stop any running command and start this one.
    Launch(PreviewLaunch),
}

/// The row the preview is for: its position, input line number (from 1)
/// and text.
pub struct ShownRow {
    pub selected: usize,
    pub line_number: usize,
    pub original_line: String,
}

/// The state after clearing: a new generation, no signature, no content.
pub open spec fn cleared(s: PreviewModel) -> PreviewModel {
    PreviewModel {
        content: ContentModel::Empty,
        current_signature: None,
        generation: next_generation(s.generation),
        ..s
    }
}

/// The signature of a preview of `row` for `query`.
pub open spec fn signature_of(
    selected: usize,
    line_number: usize,
    item: Seq<char>,
    query: Seq<char>,
    expose_query: bool,
) -> SignatureModel {
    SignatureModel {
        selected,
        input_ordinal: if line_number > 0 {
            (line_number - 1) as usize
        } else {
            0
        },
        item,
        query: if expose_query {
            query
        } else {
            seq![]
        },
    }
}

/// The state after asking for a preview of `row` (None: no row is
/// selected): unchanged without a template or for the same signature;
/// cleared without a row; otherwise a new generation, `Loading` unless an
/// image is shown (it stays until the new result), and the expanded
/// command, or the expansion error as text.
pub open spec fn requested(s: PreviewModel, row: Option<(usize, usize, Seq<char>)>, query: Seq<char>) -> PreviewModel {
    match s.command_template {
        None => s,
        Some(t) => match row {
            None => cleared(s),
            Some((sel, line, item)) => {
                let sig = signature_of(sel, line, item, query, s.expose_query);
                if s.current_signature == Some(sig) {
                    s
                } else {
                    let content = match expand_spec(t) {
                        Err(e) => ContentModel::Text(expand_error_message(e)),
                        Ok(_) => match s.content {
                            ContentModel::Image(k) => ContentModel::Image(k),
                            _ => ContentModel::Loading,
                        },
                    };
                    PreviewModel {
                        content,
                        current_signature: Some(sig),
                        generation: next_generation(s.generation),
                        ..s
                    }
                }
            },
        },
    }
}

fn same_signature(a: &Option<PreviewSignature>, b: &PreviewSignature) -> (r: bool)
    ensures
        r == (match a {
            Some(s) => Some(s@),
            None => None,
        } == Some(b@)),
{
    match a {
        Some(s) => {
            let x = chars_of(s.item.as_str());
            let y = chars_of(b.item.as_str());
            let q1 = chars_of(s.query.as_str());
            let q2 = chars_of(b.query.as_str());
            s.selected == b.selected && s.input_ordinal == b.input_ordinal
                && crate::text::chars_eq(&x, &y) && crate::text::chars_eq(&q1, &q2)
        },
        None => false,
    }
}

fn bump(g: u64) -> (r: u64)
    ensures
        r == next_generation(g),
{
    if g == u64::MAX {
        0
    } else {
        g + 1
    }
}

impl PreviewState {
    /// A panel with nothing shown yet.
    pub fn new(command_template: Option<String>, expose_query: bool) -> (s: PreviewState)
        ensures
            s@ == (PreviewModel {
                command_template: match command_template {
                    Some(t) => Some(t@),
                    None => None,
                },
                expose_query,
                content: ContentModel::Empty,
                current_signature: None,
                generation: 0,
            }),
    {
        PreviewState {
            command_template,
            expose_query,
            content: PreviewContent::Empty,
            current_signature: None,
            generation: 0,
        }
    }

    /// Whether the panel previews anything.
    pub fn is_enabled(&self) -> (b: bool)
        ensures
            b == self.command_template is Some,
    {
        self.command_template.is_some()
    }

    /// The panel title: `Preview` with a command, `Content` without.
    pub fn title(&self) -> (t: &'static str)
        ensures
            t@ == (if self.command_template is Some {
                " Preview "@
            } else {
                " Content "@
            }),
    {
        if self.command_template.is_some() {
            " Preview "
        } else {
            " Content "
        }
    }

    /// Clears the preview (see [`cleared`]).
    pub fn clear_request(&mut self)
        ensures
            final(self)@ == cleared(old(self)@),
    {
        self.generation = bump(self.generation);
        self.current_signature = None;
        self.content = PreviewContent::Empty;
    }

    /// Asks for a preview of `row` (see [`requested`]).
    pub fn request_if_changed(&mut self, row: Option<&ShownRow>, query: &str) -> (step: RequestStep)
        ensures
            final(self)@ == requested(
                old(self)@,
                match row {
                    Some(r) => Some((r.selected, r.line_number, r.original_line@)),
                    None => None,
                },
                query@,
            ),
            match step {
                RequestStep::Unchanged => final(self)@ == old(self)@,
                RequestStep::Cleared => old(self)@.command_template is Some && row is None,
                RequestStep::Failed => {
                    &&& old(self)@.command_template matches Some(t) && expand_spec(t) is Err
                    &&& final(self)@.content is Text
                },
                RequestStep::Launch(l) => {
                    &&& old(self)@.command_template matches Some(t) && expand_spec(t) == Ok::<
                        Seq<char>,
                        crate::preview::expand::ExpandError,
                    >(l.command@)
                    &&& l.generation == final(self)@.generation
                    &&& row matches Some(r) && l.item@ == r.original_line@
                    &&& l.input_ordinal == final(self)@.current_signature.unwrap().input_ordinal
                    &&& match l.query {
                        Some(q) => old(self)@.expose_query && q@ == query@,
                        None => !old(self)@.expose_query,
                    }
                },
            },
    {
        let template = match &self.command_template {
            Some(t) => t.clone(),
            None => {
                return RequestStep::Unchanged;
            },
        };
        let r = match row {
            Some(r) => r,
            None => {
                self.clear_request();
                return RequestStep::Cleared;
            },
        };
        let signature = PreviewSignature {
            selected: r.selected,
            input_ordinal: r.line_number.saturating_sub(1),
            item: r.original_line.clone(),
            query: signature_query(self.expose_query, query),
        };
        if same_signature(&self.current_signature, &signature) {
            return RequestStep::Unchanged;
        }
        self.generation = bump(self.generation);
        let keep_image = match &self.content {
            PreviewContent::Image(_) => true,
            _ => false,
        };
        if !keep_image {
            self.content = PreviewContent::Loading;
        }
        let generation = self.generation;
        match expand_preview_command(template.as_str()) {
            Err(error) => {
                self.content = PreviewContent::Text(error);
                self.current_signature = Some(signature);
                RequestStep::Failed
            },
            Ok(command) => {
                let item = signature.item.clone();
                let q = if self.expose_query {
                    Some(signature.query.clone())
                } else {
                    None
                };
                let input_ordinal = signature.input_ordinal;
                self.current_signature = Some(signature);
                RequestStep::Launch(PreviewLaunch { generation, command, item, query: q, input_ordinal })
            },
        }
    }
}

/// The text shown for a command that failed without output: its stderr,
/// or the exit status when stderr is blank; then the truncation notice.
pub open spec fn failure_text(stderr: Seq<u8>, status: Seq<char>, truncated: bool) -> Seq<char> {
    let err = trim_end(utf8_lossy(ansi_stripped(stderr)));
    let base = if trim(err).len() == 0 {
        "Preview command exited with "@ + status
    } else {
        err
    };
    if truncated {
        base + truncation_notice()
    } else {
        base
    }
}

/// The key an image result is stored under.
pub open spec fn image_key(generation: u64) -> Seq<char> {
    "dmenu-preview-"@ + decimal(generation as nat)
}

/// Whether a preview panel of `size` percent runs its command: it must be
/// shown, and with hide-before-typing only once something is typed.
pub open spec fn panel_wants_preview(size: u16, hide_before_typing: bool, query: Seq<char>) -> bool {
    size > 0 && (!hide_before_typing || query.len() > 0)
}

/// The size of the main preview panel: the configured preview size, else
/// the share of the height given to the title panel.
pub fn primary_panel_size(info_size: Option<u16>, content_panel_height_percent: u16) -> (r: u16)
    ensures
        r == match info_size {
            Some(s) => s,
            None => content_panel_height_percent,
        },
{
    match info_size {
        Some(s) => s,
        None => content_panel_height_percent,
    }
}

/// Asks for a preview of `row` in a panel of `size` percent when the
/// panel wants one (see [`panel_wants_preview`]); otherwise clears it.
pub fn request_for_panel(
    state: &mut PreviewState,
    size: u16,
    hide_before_typing: bool,
    row: Option<&ShownRow>,
    query: &str,
) -> (step: RequestStep)
    ensures
        panel_wants_preview(size, hide_before_typing, query@) ==> final(state)@ == requested(
            old(state)@,
            match row {
                Some(r) => Some((r.selected, r.line_number, r.original_line@)),
                None => None,
            },
            query@,
        ),
        !panel_wants_preview(size, hide_before_typing, query@) ==> final(state)@ == cleared(
            old(state)@,
        ) && step is Cleared,
{
    if size > 0 && (!hide_before_typing || query.unicode_len() > 0) {
        state.request_if_changed(row, query)
    } else {
        state.clear_request();
        RequestStep::Cleared
    }
}

/// What a finished command asks of the caller.
pub enum CommandStep {
    /// The result belonged to an older request.
    Ignored,
    /// The content now shows the result (or its error).
    Shown,
    /// The output is an image: decode these bytes and report them under
    /// this generation and key.
    Decode { generation: u64, key: String, bytes: Vec<u8> },
}

/// The content for a command result of the current generation.
pub open spec fn command_content(output: Result<(Seq<u8>, Seq<u8>, Seq<char>, bool, bool, bool), Seq<char>>) -> Option<ContentModel> {
    match output {
        Err(e) => Some(ContentModel::Text(e)),
        Ok((stdout, stderr, status, success, out_cut, err_cut)) => {
            if !success && stdout.len() == 0 {
                Some(ContentModel::Text(failure_text(stderr, status, out_cut || err_cut)))
            } else if out_cut && is_image_signature(stdout) {
                Some(ContentModel::Text(oversized_image_message()))
            } else if is_image_signature(stdout) {
                None
            } else {
                let text = trim_end(utf8_lossy(ansi_stripped(stdout)));
                Some(
                    ContentModel::Text(
                        if out_cut || err_cut {
                            text + truncation_notice()
                        } else {
                            text
                        },
                    ),
                )
            }
        },
    }
}

pub open spec fn output_view(o: Result<CommandOutput, String>) -> Result<(Seq<u8>, Seq<u8>, Seq<char>, bool, bool, bool), Seq<char>> {
    match o {
        Ok(c) => Ok((c.stdout@, c.stderr@, c.status@, c.success, c.stdout_truncated, c.stderr_truncated)),
        Err(e) => Err(e@),
    }
}

/// Applies a finished preview command: results of other generations are
/// dropped; an image is handed on for decoding with the content unchanged;
/// anything else becomes the shown text (see [`command_content`]).
pub fn apply_command_result(state: &mut PreviewState, generation: u64, output: Result<CommandOutput, String>) -> (step: CommandStep)
    ensures
        generation != old(state).generation ==> final(state)@ == old(state)@ && step is Ignored,
        generation == old(state).generation ==> match command_content(output_view(output)) {
            Some(c) => final(state)@ == (PreviewModel { content: c, ..old(state)@ }) && step is Shown,
            None => final(state)@ == old(state)@ && match step {
                CommandStep::Decode { generation: g, key, bytes } => {
                    &&& output matches Ok(o) && bytes@ == o.stdout@
                    &&& g == generation
                    &&& key@ == image_key(generation)
                },
                _ => false,
            },
        },
{
    if generation != state.generation {
        return CommandStep::Ignored;
    }
    let output = match output {
        Ok(o) => o,
        Err(error) => {
            state.content = PreviewContent::Text(error);
            return CommandStep::Shown;
        },
    };
    if should_report_command_failure(&output) {
        let stderr = output_text(output.stderr.as_slice());
        let c = chars_of(stderr.as_str());
        let (a, b) = trim_bounds(&c, 0, c.len());
        assert(c@.subrange(0, c@.len() as int) =~= c@);
        let mut text = if a == b {
            let mut t = String::from_str("Preview command exited with ");
            t.append(output.status.as_str());
            t
        } else {
            stderr
        };
        append_truncation_notice(&mut text, output.truncated());
        state.content = PreviewContent::Text(text);
        return CommandStep::Shown;
    }
    match truncated_image_message(&output) {
        Some(message) => {
            state.content = PreviewContent::Text(message);
            return CommandStep::Shown;
        },
        None => {},
    }
    if recognizes_image_bytes(output.stdout.as_slice()) {
        let mut key = String::from_str("dmenu-preview-");
        let number = u64_to_decimal(generation);
        key.append(number.as_str());
        return CommandStep::Decode { generation, key, bytes: output.stdout };
    }
    let mut text = output_text(output.stdout.as_slice());
    append_truncation_notice(&mut text, output.truncated());
    state.content = PreviewContent::Text(text);
    CommandStep::Shown
}

/// Applies a finished image decode: results of other generations are
/// dropped; a decoded image is shown under its key (the caller stores it,
/// replacing any earlier one, when this returns true); an error is shown
/// as text.
pub fn apply_image_result(state: &mut PreviewState, generation: u64, key: String, decoded: Result<(), String>) -> (store: bool)
    ensures
        generation != old(state).generation ==> final(state)@ == old(state)@ && !store,
        generation == old(state).generation ==> match decoded {
            Ok(()) => store && final(state)@ == (PreviewModel { content: ContentModel::Image(key@), ..old(state)@ }),
            Err(e) => !store && final(state)@ == (PreviewModel { content: ContentModel::Text(e@), ..old(state)@ }),
        },
{
    if generation != state.generation {
        return false;
    }
    match decoded {
        Ok(()) => {
            state.content = PreviewContent::Image(key);
            true
        },
        Err(error) => {
            state.content = PreviewContent::Text(error);
            false
        },
    }
}

/// An image that could not be drawn is replaced by a message.
pub fn image_render_failed(state: &mut PreviewState)
    ensures
        final(state)@ == (match old(state)@.content {
            ContentModel::Image(_) => PreviewModel {
                content: ContentModel::Text("Failed to render preview image"@),
                ..old(state)@
            },
            _ => old(state)@,
        }),
{
    let is_image = match &state.content {
        PreviewContent::Image(_) => true,
        _ => false,
    };
    if is_image {
        state.content = PreviewContent::Text(String::from_str("Failed to render preview image"));
    }
}

/// The lines of `s` from `pos`, as `str::lines` gives them: split at each
/// `\n`, a `\r` before it dropped, no empty line after a final `\n`.
pub open spec fn lines_from(s: Seq<char>, pos: int) -> Seq<Seq<char>>
    decreases s.len() - pos,
{
    if pos < 0 || pos >= s.len() {
        seq![]
    } else {
        let e = crate::text::first_from(s, pos, '\n');
        proof {
            crate::text::lemma_first_from_bounds(s, pos, '\n');
        }
        if e < s.len() {
            let raw = s.subrange(pos, e);
            let line = if raw.len() > 0 && raw.last() == '\r' {
                raw.drop_last()
            } else {
                raw
            };
            seq![line] + lines_from(s, e + 1)
        } else {
            seq![s.subrange(pos, s.len() as int)]
        }
    }
}

/// The text lines of the panel: none for an image, one loading line while
/// waiting, otherwise the lines of the text.
pub open spec fn text_lines_of(c: ContentModel) -> Option<Seq<Seq<char>>> {
    match c {
        ContentModel::Empty => Some(seq![]),
        ContentModel::Loading => Some(seq!["Loading preview\u{2026}"@]),
        ContentModel::Text(t) => Some(lines_from(t, 0)),
        ContentModel::Image(_) => None,
    }
}

fn split_lines(text: &str) -> (r: Vec<String>)
    ensures
        crate::text::strings_view(r@) == lines_from(text@, 0),
{
    let c = chars_of(text);
    let n = c.len();
    let mut out: Vec<String> = Vec::new();
    let mut pos: usize = 0;
    assert(c@.take(n as int) =~= c@);
    while pos < n
        invariant
            pos <= n,
            n == c@.len(),
            c@ == text@,
            c@.take(n as int) == c@,
            crate::text::strings_view(out@) + lines_from(text@, pos as int) == lines_from(text@, 0),
        decreases n - pos,
    {
        let e = crate::text::find_char(&c, pos, n, '\n');
        let ghost before = crate::text::strings_view(out@);
        if e < n {
            let end = if e > pos && c[e - 1] == '\r' {
                e - 1
            } else {
                e
            };
            let line = crate::text::string_from_range(&c, pos, end);
            assert(line@ =~= (if c@.subrange(pos as int, e as int).len() > 0 && c@.subrange(
                pos as int,
                e as int,
            ).last() == '\r' {
                c@.subrange(pos as int, e as int).drop_last()
            } else {
                c@.subrange(pos as int, e as int)
            }));
            out.push(line);
            assert(crate::text::strings_view(out@) + lines_from(text@, e + 1) =~= before + lines_from(
                text@,
                pos as int,
            ));
            pos = e + 1;
        } else {
            let line = crate::text::string_from_range(&c, pos, n);
            out.push(line);
            assert(crate::text::strings_view(out@) =~= before + lines_from(text@, pos as int));
            assert(lines_from(text@, n as int) =~= Seq::<Seq<char>>::empty());
            pos = n;
        }
    }
    assert(lines_from(text@, pos as int) =~= Seq::<Seq<char>>::empty());
    assert(crate::text::strings_view(out@) =~= lines_from(text@, 0));
    out
}

impl PreviewState {
    /// The text lines to draw (see [`text_lines_of`]).
    pub fn text_lines(&self) -> (r: Option<Vec<String>>)
        ensures
            match r {
                Some(v) => text_lines_of(self.content@) == Some(crate::text::strings_view(v@)),
                None => text_lines_of(self.content@) is None,
            },
    {
        match &self.content {
            PreviewContent::Empty => {
                let v: Vec<String> = Vec::new();
                assert(crate::text::strings_view(v@) =~= Seq::<Seq<char>>::empty());
                Some(v)
            },
            PreviewContent::Loading => {
                let mut v: Vec<String> = Vec::new();
                v.push(String::from_str("Loading preview\u{2026}"));
                assert(crate::text::strings_view(v@) =~= seq!["Loading preview\u{2026}"@]);
                Some(v)
            },
            PreviewContent::Text(t) => Some(split_lines(t.as_str())),
            PreviewContent::Image(_) => None,
        }
    }
}

/// Asking again for the same selection and query changes nothing; asking
/// for another one starts a new generation, so that every result of the
/// earlier request is dropped.
pub proof fn lemma_new_request_supersedes_old_results(
    s: PreviewModel,
    row: (usize, usize, Seq<char>),
    query: Seq<char>,
)
    requires
        s.command_template is Some,
    ensures
        ({
            let sig = signature_of(row.0, row.1, row.2, query, s.expose_query);
            let n = requested(s, Some(row), query);
            &&& s.current_signature == Some(sig) ==> n == s
            &&& s.current_signature != Some(sig) ==> n.generation != s.generation
                && n.current_signature == Some(sig)
            &&& requested(n, Some(row), query) == n
        }),
{
}

} // verus!
