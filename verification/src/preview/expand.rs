//! Shell-aware expansion of the placeholders of a trusted preview command.
//!
//! `{}`, `{q}` and `{n}` become references to the environment variables that
//! carry the selected row, the query and the row's ordinal, quoted so that the
//! shell never reparses the values as source text.
use crate::text::{
    chars_of, extend_chars, has_prefix_at, is_whitespace, is_ws, prefix_at, string_from_chars,
};
use vstd::prelude::*;

verus! {

/// Quoting context of the shell text being scanned.
#[derive(Clone, Copy, Debug, PartialEq, Eq, Structural)]
pub enum ShellQuote {
    Unquoted,
    Single,
    Double,
}

/// How a command substitution was opened.
#[derive(Clone, Copy, Debug, PartialEq, Eq, Structural)]
pub enum SubstitutionDelimiter {
    Parenthesis,
    Backtick,
}

/// Why a preview command cannot be expanded.
#[derive(Clone, Copy, Debug, PartialEq, Eq, Structural)]
pub enum ExpandError {
    Heredoc,
    SingleQuotedPlaceholder,
}

/// Mathematical model of one open command substitution.
pub struct SubstModel {
    pub outer_quote: ShellQuote,
    pub nested: nat,
    pub case_patterns: Seq<bool>,
    pub arithmetic: bool,
    pub command_position: bool,
    pub delimiter: SubstitutionDelimiter,
}

/// Mathematical model of the scanner between two steps.
pub struct ExpandModel {
    pub quote: ShellQuote,
    pub escaped: bool,
    pub subs: Seq<SubstModel>,
    pub out: Seq<char>,
    pub pos: nat,
}

/// One open command substitution (`$(...)`, `$((...))` or a backtick pair).
pub struct CommandSubstitution {
    pub outer_quote: ShellQuote,
    pub nested_parentheses: usize,
    pub case_patterns: Vec<bool>,
    pub arithmetic: bool,
    pub command_position: bool,
    pub delimiter: SubstitutionDelimiter,
}

impl View for CommandSubstitution {
    type V = SubstModel;

    open spec fn view(&self) -> SubstModel {
        SubstModel {
            outer_quote: self.outer_quote,
            nested: self.nested_parentheses as nat,
            case_patterns: self.case_patterns@,
            arithmetic: self.arithmetic,
            command_position: self.command_position,
            delimiter: self.delimiter,
        }
    }
}

pub open spec fn subs_view(v: Seq<CommandSubstitution>) -> Seq<SubstModel> {
    v.map_values(|s: CommandSubstitution| s@)
}

/// The text that the error message of an expansion failure holds.
pub open spec fn expand_error_message(e: ExpandError) -> Seq<char> {
    match e {
        ExpandError::Heredoc => "Preview command heredocs are not supported"@,
        ExpandError::SingleQuotedPlaceholder => "Preview placeholders must not appear inside single quotes"@,
    }
}

pub open spec fn item_var() -> Seq<char> {
    "FSEL_PREVIEW_ITEM"@
}

pub open spec fn query_var() -> Seq<char> {
    "FSEL_PREVIEW_QUERY"@
}

pub open spec fn ordinal_var() -> Seq<char> {
    "FSEL_PREVIEW_ORDINAL"@
}

/// The shell text that stands for variable `var` in quoting context `quote`.
pub open spec fn placeholder_text(quote: ShellQuote, var: Seq<char>) -> Option<Seq<char>> {
    match quote {
        ShellQuote::Unquoted => Some(seq!['"', '$'] + var + seq!['"']),
        ShellQuote::Double => Some(seq!['$'] + var + seq!['"', '"']),
        ShellQuote::Single => None,
    }
}

/// The result of `char::is_alphanumeric` (Unicode `Alphabetic` or `Numeric`).
pub uninterp spec fn unicode_alphanumeric(c: char) -> bool;

/// `char::is_alphanumeric`.
#[verifier::external_body]
fn is_alphanumeric(c: char) -> (b: bool)
    ensures
        b == unicode_alphanumeric(c),
{
    c.is_alphanumeric()
}

pub open spec fn is_word_boundary(c: char) -> bool {
    !unicode_alphanumeric(c) && c != '_'
}

fn is_shell_word_boundary(character: char) -> (b: bool)
    ensures
        b == is_word_boundary(character),
{
    !is_alphanumeric(character) && character != '_'
}

/// `keyword` starts at `pos` and is delimited by word boundaries on both sides.
pub open spec fn keyword_starts(t: Seq<char>, pos: int, keyword: Seq<char>) -> bool {
    &&& has_prefix_at(t, pos, keyword)
    &&& (pos == 0 || is_word_boundary(t[pos - 1]))
    &&& (pos + keyword.len() == t.len() || is_word_boundary(t[pos + keyword.len()]))
}

pub open spec fn kw_case() -> Seq<char> {
    seq!['c', 'a', 's', 'e']
}

pub open spec fn kw_esac() -> Seq<char> {
    seq!['e', 's', 'a', 'c']
}

pub open spec fn kw_then() -> Seq<char> {
    seq!['t', 'h', 'e', 'n']
}

pub open spec fn kw_do() -> Seq<char> {
    seq!['d', 'o']
}

pub open spec fn kw_else() -> Seq<char> {
    seq!['e', 'l', 's', 'e']
}

pub open spec fn kw_elif() -> Seq<char> {
    seq!['e', 'l', 'i', 'f']
}

/// The shell control keywords that change the command position of a
/// substitution.
#[derive(Clone, Copy, Debug, PartialEq, Eq, Structural)]
pub enum ControlKeyword {
    Case,
    Esac,
    Then,
    Do,
    Else,
    Elif,
}

pub open spec fn keyword_text(k: ControlKeyword) -> Seq<char> {
    match k {
        ControlKeyword::Case => kw_case(),
        ControlKeyword::Esac => kw_esac(),
        ControlKeyword::Then => kw_then(),
        ControlKeyword::Do => kw_do(),
        ControlKeyword::Else => kw_else(),
        ControlKeyword::Elif => kw_elif(),
    }
}

/// The first shell control keyword (in the order case, esac, then, do, else,
/// elif) that starts at `pos`.
pub open spec fn keyword_at(t: Seq<char>, pos: int) -> Option<ControlKeyword> {
    if keyword_starts(t, pos, kw_case()) {
        Some(ControlKeyword::Case)
    } else if keyword_starts(t, pos, kw_esac()) {
        Some(ControlKeyword::Esac)
    } else if keyword_starts(t, pos, kw_then()) {
        Some(ControlKeyword::Then)
    } else if keyword_starts(t, pos, kw_do()) {
        Some(ControlKeyword::Do)
    } else if keyword_starts(t, pos, kw_else()) {
        Some(ControlKeyword::Else)
    } else if keyword_starts(t, pos, kw_elif()) {
        Some(ControlKeyword::Elif)
    } else {
        None
    }
}

pub open spec fn initial_model() -> ExpandModel {
    ExpandModel {
        quote: ShellQuote::Unquoted,
        escaped: false,
        subs: Seq::empty(),
        out: Seq::empty(),
        pos: 0,
    }
}

pub open spec fn in_arithmetic(s: ExpandModel) -> bool {
    s.subs.len() > 0 && s.subs.last().arithmetic
}

pub open spec fn set_last(subs: Seq<SubstModel>, v: SubstModel) -> Seq<SubstModel> {
    subs.update(subs.len() - 1, v)
}

/// Replaces placeholder text of length `n` with a reference to `var`.
pub open spec fn placeholder_step(s: ExpandModel, var: Seq<char>, n: nat) -> Result<
    ExpandModel,
    ExpandError,
> {
    match placeholder_text(s.quote, var) {
        Some(text) => Ok(ExpandModel { out: s.out + text, pos: s.pos + n, ..s }),
        None => Err(ExpandError::SingleQuotedPlaceholder),
    }
}

/// Opens a command substitution whose opening text is `text`.
pub open spec fn open_step(
    s: ExpandModel,
    text: Seq<char>,
    arithmetic: bool,
    delimiter: SubstitutionDelimiter,
) -> ExpandModel {
    let parents = if s.subs.len() > 0 {
        set_last(s.subs, SubstModel { command_position: false, ..s.subs.last() })
    } else {
        s.subs
    };
    let opened = SubstModel {
        outer_quote: s.quote,
        nested: 0,
        case_patterns: Seq::empty(),
        arithmetic,
        command_position: true,
        delimiter,
    };
    ExpandModel {
        quote: ShellQuote::Unquoted,
        escaped: s.escaped,
        subs: parents.push(opened),
        out: s.out + text,
        pos: s.pos + text.len(),
    }
}

/// Consumes a control keyword inside a command substitution.
pub open spec fn keyword_step(s: ExpandModel, kw: ControlKeyword) -> ExpandModel {
    let k = keyword_text(kw);
    let last = s.subs.last();
    let updated = if kw == ControlKeyword::Case {
        SubstModel { case_patterns: last.case_patterns.push(true), command_position: false, ..last }
    } else if kw == ControlKeyword::Esac {
        SubstModel {
            case_patterns: if last.case_patterns.len() > 0 {
                last.case_patterns.drop_last()
            } else {
                last.case_patterns
            },
            command_position: false,
            ..last
        }
    } else {
        SubstModel { command_position: true, ..last }
    };
    ExpandModel { subs: set_last(s.subs, updated), out: s.out + k, pos: s.pos + k.len(), ..s }
}

/// The state after an ordinary character `c`, before the command-position
/// update: (quote, escaped, substitutions, whether the update is skipped).
pub open spec fn char_core(s: ExpandModel, c: char) -> (ShellQuote, bool, Seq<SubstModel>, bool) {
    let subs = s.subs;
    if (s.quote == ShellQuote::Unquoted || s.quote == ShellQuote::Double) && c == '\\' {
        (s.quote, true, subs, false)
    } else if s.quote == ShellQuote::Unquoted && c == '\'' {
        (ShellQuote::Single, false, subs, false)
    } else if s.quote == ShellQuote::Unquoted && c == '"' {
        (ShellQuote::Double, false, subs, false)
    } else if (s.quote == ShellQuote::Single && c == '\'') || (s.quote == ShellQuote::Double && c
        == '"') {
        (ShellQuote::Unquoted, false, subs, false)
    } else if s.quote == ShellQuote::Unquoted && c == '(' && subs.len() > 0 {
        let last = subs.last();
        let starts_case_pattern = s.out.len() == 0 || is_ws(s.out.last()) || s.out.last() == '|';
        let in_pattern = last.case_patterns.len() > 0 && last.case_patterns.last();
        if !in_pattern || !starts_case_pattern {
            (s.quote, false, set_last(subs, SubstModel { nested: last.nested + 1, ..last }), false)
        } else {
            (s.quote, false, subs, false)
        }
    } else if s.quote == ShellQuote::Unquoted && c == ')' && subs.len() > 0 {
        let last = subs.last();
        if last.case_patterns.len() > 0 && last.case_patterns.last() {
            let closed = SubstModel {
                case_patterns: last.case_patterns.update(last.case_patterns.len() - 1, false),
                command_position: true,
                ..last
            };
            (s.quote, false, set_last(subs, closed), true)
        } else if last.nested == 0 && last.delimiter == SubstitutionDelimiter::Parenthesis {
            (last.outer_quote, false, subs.drop_last(), false)
        } else if last.nested > 0 {
            (
                s.quote,
                false,
                set_last(subs, SubstModel { nested: (last.nested - 1) as nat, ..last }),
                false,
            )
        } else {
            (s.quote, false, subs, false)
        }
    } else {
        (s.quote, false, subs, false)
    }
}

/// Tracks whether the next word of the innermost substitution is in command
/// position, after ordinary character `c`; `next` is the index after `c`.
pub open spec fn command_position_after(
    t: Seq<char>,
    next: int,
    quote: ShellQuote,
    subs: Seq<SubstModel>,
    c: char,
) -> Seq<SubstModel> {
    if quote == ShellQuote::Unquoted && subs.len() > 0 {
        let last = subs.last();
        if c == ';' || c == '|' || c == '&' || c == '\n' {
            let patterns = if c == ';' && has_prefix_at(t, next, seq![';'])
                && last.case_patterns.len() > 0 {
                last.case_patterns.update(last.case_patterns.len() - 1, true)
            } else {
                last.case_patterns
            };
            set_last(subs, SubstModel { command_position: true, case_patterns: patterns, ..last })
        } else if (c == '(' || c == '{') && last.command_position {
            subs
        } else if is_ws(c) {
            subs
        } else {
            set_last(subs, SubstModel { command_position: false, ..last })
        }
    } else {
        subs
    }
}

/// Consumes one ordinary character.
pub open spec fn char_step(t: Seq<char>, s: ExpandModel) -> ExpandModel {
    let c = t[s.pos as int];
    let out = s.out.push(c);
    let pos = s.pos + 1;
    if s.escaped {
        ExpandModel { escaped: false, out, pos, ..s }
    } else {
        let (quote, escaped, subs, skip) = char_core(s, c);
        let subs = if skip {
            subs
        } else {
            command_position_after(t, pos as int, quote, subs, c)
        };
        ExpandModel { quote, escaped, subs, out, pos }
    }
}

/// One step of the scanner at position `s.pos < t.len()`.
pub open spec fn step(t: Seq<char>, s: ExpandModel) -> Result<ExpandModel, ExpandError> {
    let pos = s.pos as int;
    if !s.escaped && s.quote == ShellQuote::Unquoted && !in_arithmetic(s) && has_prefix_at(
        t,
        pos,
        seq!['<', '<'],
    ) {
        Err(ExpandError::Heredoc)
    } else if !s.escaped && has_prefix_at(t, pos, seq!['{', '}']) {
        placeholder_step(s, item_var(), 2)
    } else if !s.escaped && has_prefix_at(t, pos, seq!['{', 'q', '}']) {
        placeholder_step(s, query_var(), 3)
    } else if !s.escaped && has_prefix_at(t, pos, seq!['{', 'n', '}']) {
        if in_arithmetic(s) {
            Ok(ExpandModel { out: s.out + ordinal_var(), pos: s.pos + 3, ..s })
        } else {
            placeholder_step(s, ordinal_var(), 3)
        }
    } else if !s.escaped && s.quote != ShellQuote::Single && has_prefix_at(t, pos, seq!['$', '('])
    {
        Ok(
            open_step(
                s,
                seq!['$', '('],
                has_prefix_at(t, pos, seq!['$', '(', '(']),
                SubstitutionDelimiter::Parenthesis,
            ),
        )
    } else if !s.escaped && s.quote != ShellQuote::Single && t[pos] == '`' {
        if s.subs.len() > 0 && s.subs.last().delimiter == SubstitutionDelimiter::Backtick {
            Ok(
                ExpandModel {
                    quote: s.subs.last().outer_quote,
                    subs: s.subs.drop_last(),
                    out: s.out.push('`'),
                    pos: s.pos + 1,
                    ..s
                },
            )
        } else {
            Ok(open_step(s, seq!['`'], false, SubstitutionDelimiter::Backtick))
        }
    } else if !s.escaped && s.quote == ShellQuote::Unquoted && s.subs.len() > 0
        && s.subs.last().command_position && !s.subs.last().arithmetic && keyword_at(
        t,
        pos,
    ) is Some {
        Ok(keyword_step(s, keyword_at(t, pos)->0))
    } else {
        Ok(char_step(t, s))
    }
}

/// Runs the scanner from state `s` to the end of `t`.
pub open spec fn run(t: Seq<char>, s: ExpandModel) -> Result<Seq<char>, ExpandError>
    decreases t.len() - s.pos,
{
    if s.pos >= t.len() {
        Ok(s.out)
    } else {
        match step(t, s) {
            Err(e) => Err(e),
            Ok(next) => if next.pos > s.pos {
                run(t, next)
            } else {
                Ok(next.out)
            },
        }
    }
}

/// The expansion of preview command template `t`.
pub open spec fn expand_spec(t: Seq<char>) -> Result<Seq<char>, ExpandError> {
    run(t, initial_model())
}

} // verus!

verus! {

pub open spec fn model_wf(t: Seq<char>, s: ExpandModel) -> bool {
    &&& s.pos <= t.len()
    &&& forall|i: int| 0 <= i < s.subs.len() ==> #[trigger] s.subs[i].nested <= s.pos
}

proof fn lemma_subs_push(v: Seq<CommandSubstitution>, x: CommandSubstitution)
    ensures
        subs_view(v.push(x)) == subs_view(v).push(x@),
{
    assert(subs_view(v.push(x)) =~= subs_view(v).push(x@));
}

proof fn lemma_subs_drop_last(v: Seq<CommandSubstitution>)
    requires
        v.len() > 0,
    ensures
        subs_view(v.drop_last()) == subs_view(v).drop_last(),
        subs_view(v).last() == v.last()@,
        subs_view(v).len() == v.len(),
{
    assert(subs_view(v.drop_last()) =~= subs_view(v).drop_last());
}

proof fn lemma_subs_replace_last(v: Seq<CommandSubstitution>, x: CommandSubstitution)
    requires
        v.len() > 0,
    ensures
        subs_view(v.drop_last().push(x)) == set_last(subs_view(v), x@),
{
    assert(subs_view(v.drop_last().push(x)) =~= set_last(subs_view(v), x@));
}

/// Every step of the scanner consumes input and keeps the nesting counters
/// bounded by the number of characters consumed.
proof fn lemma_step_wf(t: Seq<char>, s: ExpandModel)
    requires
        model_wf(t, s),
        s.pos < t.len(),
    ensures
        step(t, s) matches Ok(next) ==> next.pos > s.pos && model_wf(t, next),
{
    let pos = s.pos as int;
    if let Ok(next) = step(t, s) {
        assert(next.pos > s.pos);
        assert(next.pos <= t.len());
        assert forall|i: int| 0 <= i < next.subs.len() implies #[trigger] next.subs[i].nested
            <= next.pos by {
            if i < s.subs.len() {
                assert(s.subs[i].nested <= s.pos);
            }
        }
    }
}

struct Scanner {
    quote: ShellQuote,
    escaped: bool,
    subs: Vec<CommandSubstitution>,
    out: Vec<char>,
    pos: usize,
}

impl Scanner {
    spec fn model(&self) -> ExpandModel {
        ExpandModel {
            quote: self.quote,
            escaped: self.escaped,
            subs: subs_view(self.subs@),
            out: self.out@,
            pos: self.pos as nat,
        }
    }

    /// Sets whether the innermost substitution is in command position.
    fn set_last_command_position(&mut self, value: bool)
        requires
            old(self).subs.len() > 0,
        ensures
            final(self).model() == (ExpandModel {
                subs: set_last(
                    old(self).model().subs,
                    SubstModel { command_position: value, ..old(self).model().subs.last() },
                ),
                ..old(self).model()
            }),
    {
        proof {
            lemma_subs_drop_last(self.subs@);
        }
        let mut last = self.subs.pop().unwrap();
        last.command_position = value;
        proof {
            lemma_subs_replace_last(old(self).subs@, last);
        }
        self.subs.push(last);
    }

    fn placeholder(&mut self, variable: &str, n: usize) -> (r: Result<(), ExpandError>)
        requires
            old(self).pos + n <= usize::MAX,
        ensures
            match placeholder_step(old(self).model(), variable@, n as nat) {
                Ok(m) => r is Ok && final(self).model() == m,
                Err(e) => r == Err::<(), ExpandError>(e),
            },
    {
        match self.quote {
            ShellQuote::Unquoted => {
                self.out.push('"');
                self.out.push('$');
                extend_chars(&mut self.out, variable);
                self.out.push('"');
                assert(self.out@ == old(self).out@ + (seq!['"', '$'] + variable@ + seq!['"']));
            },
            ShellQuote::Double => {
                self.out.push('$');
                extend_chars(&mut self.out, variable);
                self.out.push('"');
                self.out.push('"');
                assert(self.out@ == old(self).out@ + (seq!['$'] + variable@ + seq!['"', '"']));
            },
            ShellQuote::Single => {
                return Err(ExpandError::SingleQuotedPlaceholder);
            },
        }
        self.pos = self.pos + n;
        Ok(())
    }

    fn open(&mut self, text: &str, arithmetic: bool, delimiter: SubstitutionDelimiter)
        requires
            old(self).pos + text@.len() <= usize::MAX,
        ensures
            final(self).model() == open_step(old(self).model(), text@, arithmetic, delimiter),
    {
        if self.subs.len() > 0 {
            self.set_last_command_position(false);
        }
        let opened = CommandSubstitution {
            outer_quote: self.quote,
            nested_parentheses: 0,
            case_patterns: Vec::new(),
            arithmetic,
            command_position: true,
            delimiter,
        };
        proof {
            lemma_subs_push(self.subs@, opened);
        }
        self.subs.push(opened);
        self.quote = ShellQuote::Unquoted;
        let n = text.unicode_len();
        extend_chars(&mut self.out, text);
        self.pos = self.pos + n;
    }
}


/// Whether `keyword` starts at `pos` with word boundaries on both sides.
fn starts_shell_keyword(t: &Vec<char>, pos: usize, keyword: &Vec<char>) -> (b: bool)
    requires
        pos <= t@.len(),
    ensures
        b == keyword_starts(t@, pos as int, keyword@),
{
    let t_len = t.len();
    if !prefix_at(t, pos, keyword) {
        return false;
    }
    let previous_ok = pos == 0 || is_shell_word_boundary(t[pos - 1]);
    let end = pos + keyword.len();
    let next_ok = end == t.len() || is_shell_word_boundary(t[end]);
    previous_ok && next_ok
}

/// The first control keyword that starts at `pos`.
fn shell_control_keyword(t: &Vec<char>, pos: usize) -> (k: Option<ControlKeyword>)
    requires
        pos <= t@.len(),
    ensures
        k == keyword_at(t@, pos as int),
{
    if starts_shell_keyword(t, pos, &vec!['c', 'a', 's', 'e']) {
        Some(ControlKeyword::Case)
    } else if starts_shell_keyword(t, pos, &vec!['e', 's', 'a', 'c']) {
        Some(ControlKeyword::Esac)
    } else if starts_shell_keyword(t, pos, &vec!['t', 'h', 'e', 'n']) {
        Some(ControlKeyword::Then)
    } else if starts_shell_keyword(t, pos, &vec!['d', 'o']) {
        Some(ControlKeyword::Do)
    } else if starts_shell_keyword(t, pos, &vec!['e', 'l', 's', 'e']) {
        Some(ControlKeyword::Else)
    } else if starts_shell_keyword(t, pos, &vec!['e', 'l', 'i', 'f']) {
        Some(ControlKeyword::Elif)
    } else {
        None
    }
}

/// The text of a control keyword.
fn keyword_str(k: ControlKeyword) -> (s: &'static str)
    ensures
        s@ == keyword_text(k),
{
    proof {
        reveal_strlit("case");
        reveal_strlit("esac");
        reveal_strlit("then");
        reveal_strlit("do");
        reveal_strlit("else");
        reveal_strlit("elif");
    }
    match k {
        ControlKeyword::Case => "case",
        ControlKeyword::Esac => "esac",
        ControlKeyword::Then => "then",
        ControlKeyword::Do => "do",
        ControlKeyword::Else => "else",
        ControlKeyword::Elif => "elif",
    }
}

impl Scanner {
    fn keyword(&mut self, kw: ControlKeyword)
        requires
            old(self).subs.len() > 0,
            old(self).pos + keyword_text(kw).len() <= usize::MAX,
        ensures
            final(self).model() == keyword_step(old(self).model(), kw),
    {
        proof {
            lemma_subs_drop_last(self.subs@);
        }
        let text = keyword_str(kw);
        let mut last = self.subs.pop().unwrap();
        match kw {
            ControlKeyword::Case => {
                last.case_patterns.push(true);
                last.command_position = false;
            },
            ControlKeyword::Esac => {
                last.case_patterns.pop();
                last.command_position = false;
            },
            _ => {
                last.command_position = true;
            },
        }
        proof {
            lemma_subs_replace_last(old(self).subs@, last);
        }
        self.subs.push(last);
        let n = text.unicode_len();
        extend_chars(&mut self.out, text);
        self.pos = self.pos + n;
    }

    /// Whether the innermost substitution is inside a case pattern.
    fn last_in_case_pattern(&self) -> (b: bool)
        requires
            self.subs.len() > 0,
        ensures
            b == (self.model().subs.last().case_patterns.len() > 0
                && self.model().subs.last().case_patterns.last()),
    {
        proof {
            lemma_subs_drop_last(self.subs@);
        }
        let last = &self.subs[self.subs.len() - 1];
        let n = last.case_patterns.len();
        n > 0 && last.case_patterns[n - 1]
    }

    /// The command-position bookkeeping after ordinary character `c`.
    fn update_command_position(&mut self, t: &Vec<char>, c: char)
        requires
            old(self).pos <= t@.len(),
        ensures
            final(self).model() == (ExpandModel {
                subs: command_position_after(
                    t@,
                    old(self).pos as int,
                    old(self).quote,
                    old(self).model().subs,
                    c,
                ),
                ..old(self).model()
            }),
    {
        if self.quote != ShellQuote::Unquoted || self.subs.len() == 0 {
            return;
        }
        proof {
            lemma_subs_drop_last(self.subs@);
        }
        if c == ';' || c == '|' || c == '&' || c == '\n' {
            let next_is_semicolon = self.pos < t.len() && t[self.pos] == ';';
            proof {
                if self.pos < t@.len() {
                    let one = t@.subrange(self.pos as int, self.pos + 1);
                    assert(one =~= seq![t@[self.pos as int]]);
                    if one == seq![';'] {
                        assert(one[0] == ';');
                    }
                }
            }
            assert(next_is_semicolon == has_prefix_at(t@, self.pos as int, seq![';']));
            let mut last = self.subs.pop().unwrap();
            last.command_position = true;
            let n = last.case_patterns.len();
            if c == ';' && next_is_semicolon && n > 0 {
                last.case_patterns.set(n - 1, true);
            }
            proof {
                lemma_subs_replace_last(old(self).subs@, last);
            }
            self.subs.push(last);
        } else if (c == '(' || c == '{') && self.subs[self.subs.len() - 1].command_position {
        } else if is_whitespace(c) {
        } else {
            self.set_last_command_position(false);
        }
    }

    /// Consumes one ordinary character.
    fn char(&mut self, t: &Vec<char>)
        requires
            old(self).pos < t@.len(),
            model_wf(t@, old(self).model()),
        ensures
            final(self).model() == char_step(t@, old(self).model()),
    {
        let ghost s0 = self.model();
        let t_len = t.len();
        let c = t[self.pos];
        let out_len = self.out.len();
        let starts_case_pattern = out_len == 0 || is_whitespace(self.out[out_len - 1])
            || self.out[out_len - 1] == '|';
        assert(starts_case_pattern == (s0.out.len() == 0 || is_ws(s0.out.last()) || s0.out.last()
            == '|'));
        self.out.push(c);
        self.pos = self.pos + 1;
        if self.escaped {
            self.escaped = false;
            return;
        }
        let mut skip = false;
        if (self.quote == ShellQuote::Unquoted || self.quote == ShellQuote::Double) && c == '\\' {
            self.escaped = true;
        } else if self.quote == ShellQuote::Unquoted && c == '\'' {
            self.quote = ShellQuote::Single;
        } else if self.quote == ShellQuote::Unquoted && c == '"' {
            self.quote = ShellQuote::Double;
        } else if (self.quote == ShellQuote::Single && c == '\'') || (self.quote
            == ShellQuote::Double && c == '"') {
            self.quote = ShellQuote::Unquoted;
        } else if self.quote == ShellQuote::Unquoted && c == '(' && self.subs.len() > 0 {
            let in_pattern = self.last_in_case_pattern();
            if !in_pattern || !starts_case_pattern {
                proof {
                    lemma_subs_drop_last(self.subs@);
                    assert(s0.subs[s0.subs.len() - 1].nested <= s0.pos);
                }
                let mut last = self.subs.pop().unwrap();
                last.nested_parentheses = last.nested_parentheses + 1;
                proof {
                    lemma_subs_replace_last(s0_subs(old(self)), last);
                }
                self.subs.push(last);
            }
        } else if self.quote == ShellQuote::Unquoted && c == ')' && self.subs.len() > 0 {
            let in_pattern = self.last_in_case_pattern();
            proof {
                lemma_subs_drop_last(self.subs@);
            }
            if in_pattern {
                let mut last = self.subs.pop().unwrap();
                let n = last.case_patterns.len();
                last.case_patterns.set(n - 1, false);
                last.command_position = true;
                proof {
                    lemma_subs_replace_last(s0_subs(old(self)), last);
                }
                self.subs.push(last);
                skip = true;
            } else {
                let nested = self.subs[self.subs.len() - 1].nested_parentheses;
                let delimiter = self.subs[self.subs.len() - 1].delimiter;
                if nested == 0 && delimiter == SubstitutionDelimiter::Parenthesis {
                    let last = self.subs.pop().unwrap();
                    self.quote = last.outer_quote;
                } else if nested > 0 {
                    let mut last = self.subs.pop().unwrap();
                    last.nested_parentheses = nested - 1;
                    proof {
                        lemma_subs_replace_last(s0_subs(old(self)), last);
                    }
                    self.subs.push(last);
                }
            }
        }
        if !skip {
            self.update_command_position(t, c);
        }
    }
}

spec fn s0_subs(s: &Scanner) -> Seq<CommandSubstitution> {
    s.subs@
}

impl Scanner {
    fn ordinal_in_arithmetic(&mut self)
        requires
            old(self).pos + 3 <= usize::MAX,
        ensures
            final(self).model() == (ExpandModel {
                out: old(self).model().out + ordinal_var(),
                pos: old(self).model().pos + 3,
                ..old(self).model()
            }),
    {
        extend_chars(&mut self.out, "FSEL_PREVIEW_ORDINAL");
        self.pos = self.pos + 3;
    }

    fn close_backtick(&mut self)
        requires
            old(self).subs.len() > 0,
            old(self).pos + 1 <= usize::MAX,
        ensures
            final(self).model() == (ExpandModel {
                quote: old(self).model().subs.last().outer_quote,
                subs: old(self).model().subs.drop_last(),
                out: old(self).model().out.push('`'),
                pos: old(self).model().pos + 1,
                ..old(self).model()
            }),
    {
        proof {
            lemma_subs_drop_last(self.subs@);
        }
        let last = self.subs.pop().unwrap();
        self.quote = last.outer_quote;
        self.out.push('`');
        self.pos = self.pos + 1;
    }

    /// One step of the scanner.
    fn step(&mut self, t: &Vec<char>) -> (r: Result<(), ExpandError>)
        requires
            old(self).pos < t@.len(),
            model_wf(t@, old(self).model()),
        ensures
            match step(t@, old(self).model()) {
                Ok(m) => r is Ok && final(self).model() == m,
                Err(e) => r == Err::<(), ExpandError>(e),
            },
    {
        let t_len = t.len();
        let ghost s0 = self.model();
        let pos = self.pos;
        let n_subs = self.subs.len();
        proof {
            if n_subs > 0 {
                lemma_subs_drop_last(self.subs@);
            }
        }
        let arithmetic = n_subs > 0 && self.subs[n_subs - 1].arithmetic;
        assert(arithmetic == in_arithmetic(s0));
        if !self.escaped && self.quote == ShellQuote::Unquoted && !arithmetic && prefix_at(
            t,
            pos,
            &vec!['<', '<'],
        ) {
            return Err(ExpandError::Heredoc);
        }
        if !self.escaped && prefix_at(t, pos, &vec!['{', '}']) {
            proof {
                reveal_strlit("FSEL_PREVIEW_ITEM");
            }
            return self.placeholder("FSEL_PREVIEW_ITEM", 2);
        }
        if !self.escaped && prefix_at(t, pos, &vec!['{', 'q', '}']) {
            return self.placeholder("FSEL_PREVIEW_QUERY", 3);
        }
        if !self.escaped && prefix_at(t, pos, &vec!['{', 'n', '}']) {
            if arithmetic {
                self.ordinal_in_arithmetic();
                return Ok(());
            }
            return self.placeholder("FSEL_PREVIEW_ORDINAL", 3);
        }
        if !self.escaped && self.quote != ShellQuote::Single && prefix_at(t, pos, &vec!['$', '('])
        {
            let arithmetic_open = prefix_at(t, pos, &vec!['$', '(', '(']);
            proof {
                reveal_strlit("$(");
                assert("$("@ =~= seq!['$', '(']);
            }
            self.open("$(", arithmetic_open, SubstitutionDelimiter::Parenthesis);
            return Ok(());
        }
        if !self.escaped && self.quote != ShellQuote::Single && t[pos] == '`' {
            if n_subs > 0 && self.subs[n_subs - 1].delimiter == SubstitutionDelimiter::Backtick {
                self.close_backtick();
                return Ok(());
            }
            proof {
                reveal_strlit("`");
                assert("`"@ =~= seq!['`']);
            }
            self.open("`", false, SubstitutionDelimiter::Backtick);
            return Ok(());
        }
        if !self.escaped && self.quote == ShellQuote::Unquoted && n_subs > 0
            && self.subs[n_subs - 1].command_position && !self.subs[n_subs - 1].arithmetic {
            if let Some(keyword) = shell_control_keyword(t, pos) {
                self.keyword(keyword);
                return Ok(());
            }
        }
        self.char(t);
        Ok(())
    }
}

fn expand_error_text(e: ExpandError) -> (s: String)
    ensures
        s@ == expand_error_message(e),
{
    match e {
        ExpandError::Heredoc => String::from_str("Preview command heredocs are not supported"),
        ExpandError::SingleQuotedPlaceholder => String::from_str(
            "Preview placeholders must not appear inside single quotes",
        ),
    }
}

/// Rewrites the placeholders `{}`, `{q}` and `{n}` of a preview command into
/// references to `FSEL_PREVIEW_ITEM`, `FSEL_PREVIEW_QUERY` and
/// `FSEL_PREVIEW_ORDINAL`, quoted for the shell context in which each
/// placeholder stands. Heredocs and placeholders inside single quotes are
/// rejected.
pub fn expand_preview_command(template: &str) -> (r: Result<String, String>)
    ensures
        match expand_spec(template@) {
            Ok(command) => r is Ok && r->Ok_0@ == command,
            Err(e) => r is Err && r->Err_0@ == expand_error_message(e),
        },
{
    let t = chars_of(template);
    let t_len = t.len();
    let mut scanner = Scanner {
        quote: ShellQuote::Unquoted,
        escaped: false,
        subs: Vec::new(),
        out: Vec::new(),
        pos: 0,
    };
    assert(subs_view(scanner.subs@) =~= Seq::<SubstModel>::empty());
    while scanner.pos < t_len
        invariant
            t_len == t@.len(),
            t@ == template@,
            model_wf(t@, scanner.model()),
            run(t@, scanner.model()) == run(t@, initial_model()),
        decreases t@.len() - scanner.pos,
    {
        let ghost before = scanner.model();
        proof {
            lemma_step_wf(t@, before);
        }
        match scanner.step(&t) {
            Err(e) => {
                assert(run(t@, before) == Err::<Seq<char>, ExpandError>(e));
                return Err(expand_error_text(e));
            },
            Ok(()) => {},
        }
    }
    Ok(string_from_chars(scanner.out.as_slice()))
}

/// `t` holds none of the placeholders `{}`, `{q}`, `{n}` and no heredoc
/// marker `<<`.
pub open spec fn free_of_placeholders(t: Seq<char>) -> bool {
    forall|i: int| !#[trigger] placeholder_at(t, i)
}

/// A placeholder or a heredoc marker starts at `i`.
pub open spec fn placeholder_at(t: Seq<char>, i: int) -> bool {
    ||| has_prefix_at(t, i, seq!['{', '}'])
    ||| has_prefix_at(t, i, seq!['{', 'q', '}'])
    ||| has_prefix_at(t, i, seq!['{', 'n', '}'])
    ||| has_prefix_at(t, i, seq!['<', '<'])
}

proof fn lemma_run_copies(t: Seq<char>, s: ExpandModel)
    requires
        free_of_placeholders(t),
        s.pos <= t.len(),
        s.out == t.take(s.pos as int),
    ensures
        run(t, s) == Ok::<Seq<char>, ExpandError>(t),
    decreases t.len() - s.pos,
{
    let pos = s.pos as int;
    if s.pos >= t.len() {
        assert(t.take(pos) =~= t);
    } else {
        assert(!placeholder_at(t, pos));
        let r = step(t, s);
        assert(r is Ok);
        let next = r->Ok_0;
        if !s.escaped && s.quote != ShellQuote::Single && has_prefix_at(t, pos, seq!['$', '(']) {
            assert(next.out =~= t.take(pos + 2)) by {
                assert(t.subrange(pos, pos + 2) =~= seq!['$', '(']);
            }
        } else if !s.escaped && s.quote != ShellQuote::Single && t[pos] == '`' {
            assert(next.out =~= t.take(pos + 1));
        } else if !s.escaped && s.quote == ShellQuote::Unquoted && s.subs.len() > 0
            && s.subs.last().command_position && !s.subs.last().arithmetic && keyword_at(t, pos)
            is Some {
            let k = keyword_text(keyword_at(t, pos)->0);
            assert(has_prefix_at(t, pos, k));
            assert(next.out =~= t.take(pos + k.len()));
        } else {
            assert(next == char_step(t, s));
            assert(next.out =~= t.take(pos + 1));
        }
        assert(next.pos > s.pos);
        lemma_run_copies(t, next);
    }
}

/// Law: a preview command that holds no placeholder (`{}`, `{q}`, `{n}`)
/// and no heredoc marker (`<<`) is passed to the shell unchanged, quotes,
/// substitutions and keywords included.
pub proof fn lemma_commands_without_placeholders_pass_through(t: Seq<char>)
    requires
        free_of_placeholders(t),
    ensures
        expand_spec(t) == Ok::<Seq<char>, ExpandError>(t),
{
    assert(t.take(0) =~= Seq::<char>::empty());
    lemma_run_copies(t, initial_model());
}
} // verus!
