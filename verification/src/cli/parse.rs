//! Reading the command line: the argument loop over the parser, the
//! search shortcut `-ss`, and the configuration defaults.
use crate::cli::arguments::{
    apply_option, classify, input_fits, is_launch_option, launch_option, option_effect,
    arg_view, option_failure, option_of, option_view, value_view, wants, wants_of, fetched_view,
    joined_view, ArgView, CliArg, CliCommand, CliOption, Fetched, FetchedModel, OptionKind,
    Outcome, ValueModel, ValueRead, Wants,
};
use crate::cli::options::{opts_defaults, Opts};
use crate::cli::validate::{validate, validated, validation_error, CliError};
use crate::config::schema::{
    AppLauncherConfig, CclipConfig, DmenuConfig, FselConfig, GeneralConfig, PanelsConfig,
};
use crate::text::{
    chars_of, first_from, join_with, lemma_first_from_bounds, starts_with, str_starts_with, strings_view, vec_is,
};
use vstd::prelude::*;

verus! {

#[verifier::external_type_specification]
#[verifier::external_body]
pub struct ExParser(lexopt::Parser);

/// Where the parser is inside the arguments it has taken.
pub enum LexState {
    /// Between arguments.
    Plain,
    /// A value is left over from `--option=value`.
    Pending(Seq<char>),
    /// Inside the short options of an argument `-abc`, at this position.
    Shorts(Seq<char>, int),
    /// After `--`: every argument left is positional.
    Finished,
}

/// The state of the argument parser as plain values: the arguments not
/// yet taken, where it is inside the last one, and the last option it
/// handed out as written (`--name` or `-c`).
pub struct LexModel {
    pub rest: Seq<Seq<char>>,
    pub state: LexState,
    pub last: Option<Seq<char>>,
}

/// A parser that has taken nothing of `args` yet.
pub open spec fn initial_lex(args: Seq<Seq<char>>) -> LexModel {
    LexModel { rest: args, state: LexState::Plain, last: None }
}

/// How an `OsString` holding `value` prints with `{:?}`.
pub uninterp spec fn os_debug_text(value: Seq<char>) -> Seq<char>;

/// The last option as written, empty when there was none.
pub open spec fn last_text(m: LexModel) -> Seq<char> {
    match m.last {
        Some(o) => o,
        None => seq![],
    }
}

/// The parser's message for a value left over after `option`.
pub open spec fn unexpected_value_message(option: Seq<char>, value: Seq<char>) -> Seq<char> {
    "unexpected argument for option '"@ + option + "': "@ + os_debug_text(value)
}

/// The parser's message for a missing value.
pub open spec fn missing_value_message(last: Option<Seq<char>>) -> Seq<char> {
    match last {
        Some(o) => "missing argument for option '"@ + o + "'"@,
        None => "missing argument"@,
    }
}

/// The next argument after `--`, or the end.
pub open spec fn lex_finished(m: LexModel) -> (Result<Option<ArgView>, Seq<char>>, LexModel) {
    if m.rest.len() == 0 {
        (Ok(None), m)
    } else {
        (Ok(Some(ArgView::Positional(m.rest[0]))), LexModel { rest: m.rest.drop_first(), ..m })
    }
}

/// The next argument when the parser is between arguments: the end,
/// everything after `--` as positional, `--name` (leaving the value of
/// `--name=value` pending), the first of the short options `-abc`, or a
/// positional argument.
pub open spec fn lex_plain(m: LexModel) -> (Result<Option<ArgView>, Seq<char>>, LexModel) {
    if m.rest.len() == 0 {
        (Ok(None), m)
    } else {
        let a = m.rest[0];
        let taken = LexModel { rest: m.rest.drop_first(), ..m };
        if a == "--"@ {
            lex_finished(LexModel { state: LexState::Finished, ..taken })
        } else if a.len() >= 2 && a[0] == '-' && a[1] == '-' {
            let eq = first_from(a, 0, '=');
            if eq < a.len() {
                (
                    Ok(Some(ArgView::Long(a.subrange(2, eq)))),
                    LexModel {
                        state: LexState::Pending(a.subrange(eq + 1, a.len() as int)),
                        last: Some(a.subrange(0, eq)),
                        ..taken
                    },
                )
            } else {
                (Ok(Some(ArgView::Long(a.subrange(2, a.len() as int)))), LexModel { last: Some(a), ..taken })
            }
        } else if a.len() > 1 && a[0] == '-' {
            (
                Ok(Some(ArgView::Short(a[1]))),
                LexModel { state: LexState::Shorts(a, 2), last: Some(seq!['-', a[1]]), ..taken },
            )
        } else {
            (Ok(Some(ArgView::Positional(a))), taken)
        }
    }
}

/// What `lexopt::Parser::next` hands out next, and the parser after it.
pub open spec fn lex_next(m: LexModel) -> (Result<Option<ArgView>, Seq<char>>, LexModel) {
    match m.state {
        LexState::Pending(v) => (
            Err(unexpected_value_message(last_text(m), v)),
            LexModel { state: LexState::Plain, ..m },
        ),
        LexState::Shorts(a, pos) => if pos < 0 || pos >= a.len() {
            lex_plain(LexModel { state: LexState::Plain, ..m })
        } else if a[pos] == '=' && pos > 1 {
            (
                Err(unexpected_value_message(last_text(m), a.subrange(pos + 1, a.len() as int))),
                LexModel { state: LexState::Plain, ..m },
            )
        } else {
            (
                Ok(Some(ArgView::Short(a[pos]))),
                LexModel { state: LexState::Shorts(a, pos + 1), last: Some(seq!['-', a[pos]]), ..m },
            )
        },
        LexState::Finished => lex_finished(m),
        LexState::Plain => lex_plain(m),
    }
}

/// What `lexopt::Parser::optional_value` hands out: a value joined to the
/// last option (`--opt=value`, `-ovalue`, `-o=value`), and the parser
/// after it.
pub open spec fn lex_optional(m: LexModel) -> (Option<Seq<char>>, LexModel) {
    match m.state {
        LexState::Pending(v) => (Some(v), LexModel { state: LexState::Plain, ..m }),
        LexState::Shorts(a, pos) => if pos < 0 || pos >= a.len() {
            (None, LexModel { state: LexState::Plain, ..m })
        } else if a[pos] == '=' {
            (Some(a.subrange(pos + 1, a.len() as int)), LexModel { state: LexState::Plain, ..m })
        } else {
            (Some(a.subrange(pos, a.len() as int)), LexModel { state: LexState::Plain, ..m })
        },
        _ => (None, m),
    }
}

/// What `lexopt::Parser::value` hands out: the joined value, else the next
/// argument as it is, else the message for a missing value.
pub open spec fn lex_value(m: LexModel) -> (ValueModel, LexModel) {
    let (joined, m1) = lex_optional(m);
    match joined {
        Some(v) => (ValueModel::Text(v), m1),
        None => if m1.rest.len() > 0 {
            (ValueModel::Text(m1.rest[0]), LexModel { rest: m1.rest.drop_first(), ..m1 })
        } else {
            (ValueModel::Missing(missing_value_message(m1.last)), m1)
        },
    }
}

pub open spec fn joined_of(o: Option<Seq<char>>) -> Option<Option<Seq<char>>> {
    match o {
        Some(v) => Some(Some(v)),
        None => None,
    }
}

/// The next argument as it is, when the parser is between arguments:
/// `lexopt::Parser::try_raw_args` and `RawArgs::peek`.
pub open spec fn lex_peek(m: LexModel) -> Option<Seq<char>> {
    let pending = match m.state {
        LexState::Pending(_) => true,
        LexState::Shorts(a, pos) => 0 <= pos < a.len(),
        _ => false,
    };
    if pending || m.rest.len() == 0 {
        None
    } else {
        Some(m.rest[0])
    }
}

/// What an option that wants `w` reads after itself, and the parser after
/// it; `--tag list` also reads a tag name: one joined to `list`, else the
/// next argument unless it starts with `-`.
pub open spec fn lex_fetch(m: LexModel, w: Wants) -> (FetchedModel, LexModel) {
    match w {
        Wants::Nothing => (FetchedModel::Nothing, m),
        Wants::Value => {
            let (v, m1) = lex_value(m);
            (FetchedModel::Value(v), m1)
        },
        Wants::OptionalValue => {
            let (o, m1) = lex_optional(m);
            (FetchedModel::Optional(joined_of(o)), m1)
        },
        Wants::TagValue => {
            let (v, m1) = lex_value(m);
            if v == ValueModel::Text("list"@) {
                let (o, m2) = lex_optional(m1);
                match o {
                    Some(name) => (FetchedModel::Tag(v, Some(Some(Some(name)))), m2),
                    None => match lex_peek(m2) {
                        Some(word) => if word.len() > 0 && word[0] == '-' {
                            (FetchedModel::Tag(v, Some(None)), m2)
                        } else {
                            (
                                FetchedModel::Tag(v, Some(Some(Some(word)))),
                                LexModel { rest: m2.rest.drop_first(), ..m2 },
                            )
                        },
                        None => (FetchedModel::Tag(v, Some(None)), m2),
                    },
                }
            } else {
                (FetchedModel::Tag(v, None), m1)
            }
        },
    }
}

/// How reading the options ends: the arguments ran out, the parser
/// rejected one (with its message), or the bound on the steps was reached.
pub enum LexEnd {
    Done,
    Failed(Seq<char>),
    OutOfSteps,
}

/// The options the arguments hold, in order, each with what it reads
/// after itself, for at most `fuel` options; and how that ends.
pub open spec fn planned(m: LexModel, fuel: nat) -> (Seq<(OptionKind, FetchedModel)>, LexEnd)
    decreases fuel,
{
    if fuel == 0 {
        (seq![], LexEnd::OutOfSteps)
    } else {
        let (next, m1) = lex_next(m);
        match next {
            Err(msg) => (seq![], LexEnd::Failed(msg)),
            Ok(None) => (seq![], LexEnd::Done),
            Ok(Some(a)) => {
                let k = option_of(a);
                let (f, m2) = lex_fetch(m1, wants(k));
                let (tail, end) = planned(m2, (fuel - 1) as nat);
                (seq![(k, f)] + tail, end)
            },
        }
    }
}

/// A parser over `args` (without the program name) that may hand out
/// `remaining` more options: `lexopt::Parser::from_args`.
#[verifier::external_body]
fn new_parser(args: Vec<String>, remaining: usize) -> (p: ArgParser)
    ensures
        p.lex() == initial_lex(strings_view(args@)),
        p.budget() == remaining,
{
    let ghost model = initial_lex(strings_view(args@));
    ArgParser { parser: lexopt::Parser::from_args(args), remaining, model: Ghost(model) }
}

/// A parser over a list of arguments, with a bound on how many more
/// arguments it can hand out: each one consumes at least one byte of an
/// argument or a whole (possibly empty) argument, so the UTF-8 length of
/// all arguments plus their number is never reached.
pub struct ArgParser {
    parser: lexopt::Parser,
    remaining: usize,
    model: Ghost<LexModel>,
}

/// `a + b`, capped at `usize::MAX`.
pub open spec fn capped_sum(a: int, b: int) -> int {
    if a + b > usize::MAX {
        usize::MAX as int
    } else {
        a + b
    }
}

/// The length of `s` in bytes, as `str::len` gives it.
pub open spec fn byte_length(s: Seq<char>) -> int {
    (vstd::utf8::encode_utf8(s).len() as usize) as int
}

/// The UTF-8 length of all of `args` plus their number, capped at
/// `usize::MAX` step by step.
pub open spec fn args_bound(args: Seq<Seq<char>>) -> int
    decreases args.len(),
{
    if args.len() == 0 {
        0
    } else {
        capped_sum(capped_sum(args_bound(args.drop_last()), byte_length(args.last())), 1)
    }
}

/// Each argument adds at least one to the bound, which stays within
/// `usize`.
pub proof fn lemma_args_bound_counts(args: Seq<Seq<char>>)
    ensures
        0 <= args_bound(args) <= usize::MAX,
        args_bound(args) >= args.len() || args_bound(args) == usize::MAX,
    decreases args.len(),
{
    if args.len() > 0 {
        lemma_args_bound_counts(args.drop_last());
    }
}

/// How many characters and separators of the arguments `args` are left to
/// read: each argument counts its length and one more.
pub open spec fn args_cost(args: Seq<Seq<char>>) -> int
    decreases args.len(),
{
    if args.len() == 0 {
        0
    } else {
        args[0].len() + 1 + args_cost(args.drop_first())
    }
}

/// How much the parser `m` has left to read: the arguments not taken, the
/// short options left in the current argument, and one for a pending value.
pub open spec fn lex_cost(m: LexModel) -> int {
    args_cost(m.rest) + match m.state {
        LexState::Pending(_) => 1,
        LexState::Shorts(a, pos) => if 0 <= pos < a.len() {
            a.len() - pos
        } else {
            0
        },
        _ => 0,
    }
}

proof fn lemma_args_cost_nonneg(args: Seq<Seq<char>>)
    ensures
        args_cost(args) >= 0,
    decreases args.len(),
{
    if args.len() > 0 {
        lemma_args_cost_nonneg(args.drop_first());
    }
}

proof fn lemma_args_cost_last(args: Seq<Seq<char>>)
    requires
        args.len() > 0,
    ensures
        args_cost(args) == args_cost(args.drop_last()) + args.last().len() + 1,
    decreases args.len(),
{
    if args.len() > 1 {
        lemma_args_cost_last(args.drop_first());
        assert(args.drop_first().drop_last() =~= args.drop_last().drop_first());
    } else {
        assert(args.drop_first() =~= Seq::<Seq<char>>::empty());
        assert(args.drop_last() =~= Seq::<Seq<char>>::empty());
    }
}

/// Each option the parser hands out leaves it less to read.
proof fn lemma_lex_next_cost(m: LexModel)
    requires
        lex_next(m).0 matches Ok(Some(_)),
    ensures
        lex_cost(lex_next(m).1) < lex_cost(m),
{
    lemma_args_cost_nonneg(m.rest);
    if m.rest.len() > 0 {
        lemma_args_cost_nonneg(m.rest.drop_first());
    }
    if m.rest.len() > 1 {
        lemma_args_cost_nonneg(m.rest.drop_first().drop_first());
    }
    match m.state {
        LexState::Plain => {
            let a = m.rest[0];
            if a.len() >= 2 && a[0] == '-' && a[1] == '-' && a != "--"@ {
                lemma_first_from_bounds(a, 0, '=');
            }
        },
        _ => {},
    }
}

/// Reading what an option wants never leaves the parser more to read.
proof fn lemma_lex_fetch_cost(m: LexModel, w: Wants)
    ensures
        lex_cost(lex_fetch(m, w).1) <= lex_cost(m),
{
    lemma_args_cost_nonneg(m.rest);
    if m.rest.len() > 0 {
        lemma_args_cost_nonneg(m.rest.drop_first());
    }
    if m.rest.len() > 1 {
        lemma_args_cost_nonneg(m.rest.drop_first().drop_first());
    }
}

/// With more steps than the parser has left to read, reading the options
/// never stops for want of steps: it ends when the arguments run out or
/// when the parser rejects one.
pub proof fn lemma_enough_steps(m: LexModel, fuel: nat)
    requires
        fuel > lex_cost(m),
    ensures
        !(planned(m, fuel).1 is OutOfSteps),
    decreases fuel,
{
    lemma_args_cost_nonneg(m.rest);
    assert(fuel > 0);
    let (next, m1) = lex_next(m);
    if let Ok(Some(a)) = next {
        lemma_lex_next_cost(m);
        let k = option_of(a);
        lemma_lex_fetch_cost(m1, wants(k));
        let (f, m2) = lex_fetch(m1, wants(k));
        lemma_enough_steps(m2, (fuel - 1) as nat);
    }
}

proof fn lemma_byte_length_counts(s: Seq<char>)
    ensures
        vstd::utf8::encode_utf8(s).len() >= s.len(),
    decreases s.len(),
{
    if s.len() > 0 {
        lemma_byte_length_counts(s.drop_first());
    }
}

proof fn lemma_args_bound_covers_cost(args: Seq<Seq<char>>)
    requires
        forall|i: int| 0 <= i < args.len() ==> vstd::utf8::encode_utf8(#[trigger] args[i]).len()
            <= usize::MAX,
    ensures
        args_bound(args) >= args_cost(args) || args_bound(args) == usize::MAX,
    decreases args.len(),
{
    lemma_args_bound_counts(args);
    if args.len() > 0 {
        let rest = args.drop_last();
        assert forall|i: int| 0 <= i < rest.len() implies vstd::utf8::encode_utf8(#[trigger] rest[i]).len()
            <= usize::MAX by {
            assert(rest[i] == args[i]);
        }
        lemma_args_bound_covers_cost(rest);
        lemma_args_bound_counts(rest);
        lemma_args_cost_last(args);
        lemma_byte_length_counts(args.last());
        assert(vstd::utf8::encode_utf8(args[args.len() - 1]).len() <= usize::MAX);
    }
}

/// The step budget of a parser over `args` suffices: reading their options
/// never stops for want of steps, as long as the arguments' characters and
/// their number fit in `usize`, and each one's UTF-8 form does.
pub proof fn lemma_parser_budget_suffices(args: Seq<Seq<char>>)
    requires
        args_cost(args) < usize::MAX,
        forall|i: int| 0 <= i < args.len() ==> vstd::utf8::encode_utf8(#[trigger] args[i]).len()
            <= usize::MAX,
    ensures
        !(planned(initial_lex(args), capped_sum(args_bound(args), 1) as nat).1 is OutOfSteps),
{
    lemma_args_bound_covers_cost(args);
    lemma_args_bound_counts(args);
    lemma_enough_steps(initial_lex(args), capped_sum(args_bound(args), 1) as nat);
}

impl ArgParser {
    /// How many more arguments the parser may hand out.
    pub closed spec fn budget(self) -> int {
        self.remaining as int
    }

    /// Where the parser is in its arguments.
    pub closed spec fn lex(self) -> LexModel {
        self.model@
    }

    /// A parser over `args`, which do not include the program name; it may
    /// hand out one argument more than the UTF-8 length of all arguments
    /// plus their number (capped at `usize::MAX`).
    pub fn new(args: Vec<String>) -> (p: ArgParser)
        ensures
            p.lex() == initial_lex(strings_view(args@)),
            p.budget() == capped_sum(args_bound(strings_view(args@)), 1),
            p.budget() >= 1,
            p.budget() > args@.len() || p.budget() == usize::MAX,
    {
        let ghost a = strings_view(args@);
        proof {
            lemma_args_bound_counts(a);
        }
        let mut bound: usize = 0;
        let mut i: usize = 0;
        assert(a.take(0) =~= Seq::<Seq<char>>::empty());
        while i < args.len()
            invariant
                i <= args@.len(),
                a == strings_view(args@),
                bound == args_bound(a.take(i as int)),
            decreases args@.len() - i,
        {
            let text = args[i].as_str();
            let n = text.len();
            assert(text@ == a[i as int]);
            assert(n == byte_length(a[i as int]));
            assert(a.take(i + 1).drop_last() =~= a.take(i as int));
            assert(a.take(i + 1).last() == a[i as int]);
            bound = bound.saturating_add(n).saturating_add(1);
            i += 1;
        }
        assert(a.take(args@.len() as int) =~= a);
        new_parser(args, bound.saturating_add(1))
    }
}

pub open spec fn arg_result_view(r: Result<Option<CliArg>, String>) -> Result<Option<ArgView>, Seq<char>> {
    match r {
        Ok(Some(a)) => Ok(Some(arg_view(a))),
        Ok(None) => Ok(None),
        Err(m) => Err(m@),
    }
}

/// `lexopt::Parser::next`: the next option or positional argument
/// (positional ones as text), `Ok(None)` at the end, or the parser's
/// message for a value left over after the last option (see
/// [`lex_next`]).
#[verifier::external_body]
fn next_arg(parser: &mut ArgParser) -> (r: Result<Option<CliArg>, String>)
    ensures
        (arg_result_view(r), final(parser).lex()) == lex_next(old(parser).lex()),
        old(parser).lex().state matches LexState::Pending(v) ==> r matches Err(m) && m@
            == "unexpected argument for option '"@ + last_text(old(parser).lex()) + "': "@
            + os_debug_text(v),
        final(parser).budget() == old(parser).budget(),
{
    match parser.parser.next() {
        Ok(Some(lexopt::Arg::Short(c))) => Ok(Some(CliArg::Short(c))),
        Ok(Some(lexopt::Arg::Long(name))) => Ok(Some(CliArg::Long(name.to_owned()))),
        Ok(Some(lexopt::Arg::Value(v))) => Ok(Some(CliArg::Positional(v.to_string_lossy().into_owned()))),
        Ok(None) => Ok(None),
        Err(e) => Err(e.to_string()),
    }
}

/// `lexopt::Parser::value`: the value of the last option, which may be the
/// next argument (see [`lex_value`]).
#[verifier::external_body]
fn take_value(parser: &mut ArgParser) -> (v: ValueRead)
    ensures
        (value_view(v), final(parser).lex()) == lex_value(old(parser).lex()),
        final(parser).budget() == old(parser).budget(),
{
    match parser.parser.value() {
        Ok(v) => match v.into_string() {
            Ok(s) => ValueRead::Text(s),
            Err(_) => ValueRead::NotUnicode,
        },
        Err(e) => ValueRead::Missing(e.to_string()),
    }
}

/// `lexopt::Parser::optional_value`: a value joined to the last option
/// (see [`lex_optional`]).
#[verifier::external_body]
fn take_optional_value(parser: &mut ArgParser) -> (o: Option<Option<String>>)
    ensures
        (joined_view(o), final(parser).lex()) == ({
            let (j, m) = lex_optional(old(parser).lex());
            (joined_of(j), m)
        }),
        final(parser).budget() == old(parser).budget(),
{
    match parser.parser.optional_value() {
        Some(v) => Some(v.into_string().ok()),
        None => None,
    }
}

/// `lexopt::Parser::try_raw_args` and `RawArgs::peek`: the next argument,
/// without taking it, when the last one has been read whole (see
/// [`lex_peek`]).
#[verifier::external_body]
fn peek_next(parser: &mut ArgParser) -> (r: Option<String>)
    ensures
        match r {
            Some(s) => lex_peek(old(parser).lex()) == Some(s@),
            None => lex_peek(old(parser).lex()) is None,
        },
        final(parser).lex() == old(parser).lex(),
        final(parser).budget() == old(parser).budget(),
{
    match parser.parser.try_raw_args() {
        Some(raw) => match raw.peek() {
            Some(arg) => Some(arg.to_string_lossy().into_owned()),
            None => None,
        },
        None => None,
    }
}

/// Reads what `option` takes after itself (see [`lex_fetch`]).
fn fetch(parser: &mut ArgParser, option: &CliOption) -> (input: Fetched)
    ensures
        input_fits(wants(option_view(*option)), input),
        (fetched_view(input), final(parser).lex()) == lex_fetch(
            old(parser).lex(),
            wants(option_view(*option)),
        ),
        final(parser).budget() == old(parser).budget(),
{
    match wants_of(option) {
        Wants::Nothing => Fetched::Nothing,
        Wants::Value => Fetched::Value(take_value(parser)),
        Wants::OptionalValue => Fetched::Optional(take_optional_value(parser)),
        Wants::TagValue => {
            let v = take_value(parser);
            let is_list = match &v {
                ValueRead::Text(s) => vec_is(&chars_of(s.as_str()), "list"),
                _ => false,
            };
            proof {
                reveal_strlit("list");
            }
            if is_list {
                let joined = take_optional_value(parser);
                match joined {
                    Some(name) => Fetched::Tag(v, Some(Some(name))),
                    None => {
                        let next = peek_next(parser);
                        let is_name = match &next {
                            Some(word) => !str_starts_with(word.as_str(), "-"),
                            None => false,
                        };
                        proof {
                            reveal_strlit("-");
                            match &next {
                                Some(word) => {
                                    if word@.len() > 0 && word@[0] == '-' {
                                        assert(word@.take(1) =~= "-"@);
                                    }
                                    if starts_with(word@, "-"@) {
                                        assert(word@.take(1)[0] == word@[0]);
                                    }
                                },
                                None => {},
                            }
                        }
                        if is_name {
                            match take_value(parser) {
                                ValueRead::Text(name) => Fetched::Tag(v, Some(Some(Some(name)))),
                                _ => Fetched::Tag(v, Some(None)),
                            }
                        } else {
                            Fetched::Tag(v, Some(None))
                        }
                    },
                }
            } else {
                Fetched::Tag(v, None)
            }
        },
    }
}

/// How parsing the options ended.
pub enum OverridesResult {
    /// All arguments were read; how many launch methods they chose.
    Continue(usize),
    /// An option asked for this command instead.
    Command(CliCommand),
}

/// The options that stop parsing with a command.
pub open spec fn is_command_option(k: OptionKind) -> bool {
    k == OptionKind::ShortHelp || k == OptionKind::LongHelp || k == OptionKind::Version
}

/// `states` are the options before and after each step of `steps`: every
/// step is an option that was read with its input and applied without
/// failure (see [`option_effect`]).
pub open spec fn steps_applied(states: Seq<Opts>, steps: Seq<(OptionKind, Fetched)>) -> bool {
    &&& states.len() == steps.len() + 1
    &&& forall|i: int|
        0 <= i < steps.len() ==> {
            &&& option_failure((#[trigger] steps[i]).0, steps[i].1) is None
            &&& !is_command_option(steps[i].0)
            &&& option_effect(steps[i].0, states[i], states[i + 1], steps[i].1)
        }
}

/// How many of the steps choose a launch method, at most `usize::MAX`.
pub open spec fn launch_steps(steps: Seq<(OptionKind, Fetched)>) -> int
    decreases steps.len(),
{
    if steps.len() == 0 {
        0
    } else {
        let before = launch_steps(steps.drop_last());
        if is_launch_option(steps.last().0) && before < usize::MAX {
            before + 1
        } else {
            before
        }
    }
}

/// The steps as plain values.
pub open spec fn steps_view(steps: Seq<(OptionKind, Fetched)>) -> Seq<(OptionKind, FetchedModel)> {
    steps.map_values(|s: (OptionKind, Fetched)| (s.0, fetched_view(s.1)))
}

/// `stop` is the option `token`, read as it says.
pub open spec fn read_as(token: (OptionKind, FetchedModel), stop: (OptionKind, Fetched)) -> bool {
    stop.0 == token.0 && fetched_view(stop.1) == token.1
}

/// The command that the help or version option `k` stands for.
pub open spec fn command_of(k: OptionKind, c: CliCommand, program_name: Seq<char>) -> bool {
    match k {
        OptionKind::ShortHelp => c matches CliCommand::PrintShortHelp { program_name: p } && p@
            == program_name,
        OptionKind::LongHelp => c matches CliCommand::PrintLongHelp { program_name: p } && p@
            == program_name,
        OptionKind::Version => c is PrintVersion,
        _ => false,
    }
}

/// How the options `tokens` (ending as `end`) were applied: `steps` are
/// the first of them, applied one after another from `states[0]` to the
/// last state without failure (see [`steps_applied`]), and `r` says how
/// it stopped:
/// - all of them were applied and the parser did not reject an argument:
///   `Continue` with the number of launch methods chosen;
/// - the next one is a help or version option (`stop`): its command;
/// - the next one fails (`stop`): its message;
/// - all of them were applied and the parser rejected an argument: the
///   parser's message.
#[verifier::opaque]
pub open spec fn overrides_read(
    tokens: Seq<(OptionKind, FetchedModel)>,
    end: LexEnd,
    states: Seq<Opts>,
    steps: Seq<(OptionKind, Fetched)>,
    stop: (OptionKind, Fetched),
    r: Result<OverridesResult, CliError>,
    program_name: Seq<char>,
) -> bool {
    &&& steps_applied(states, steps)
    &&& steps.len() <= tokens.len()
    &&& steps_view(steps) == tokens.take(steps.len() as int)
    &&& match r {
        Ok(OverridesResult::Continue(n)) => steps.len() == tokens.len() && !(end is Failed) && n
            == launch_steps(steps),
        Ok(OverridesResult::Command(c)) => {
            &&& steps.len() < tokens.len()
            &&& read_as(tokens[steps.len() as int], stop)
            &&& option_failure(stop.0, stop.1) is None
            &&& command_of(stop.0, c, program_name)
        },
        Err(CliError::Message(m)) => {
            ||| {
                &&& steps.len() < tokens.len()
                &&& read_as(tokens[steps.len() as int], stop)
                &&& option_failure(stop.0, stop.1) == Some(m@)
            }
            ||| steps.len() == tokens.len() && end == LexEnd::Failed(m@)
        },
    }
}

/// Applies every option that `parser` hands out to `opts` in order (see
/// [`apply_option`]), counting the launch methods chosen: the options are
/// those the arguments hold (see [`planned`]), read and applied as
/// [`overrides_read`] says; parsing stops at the first failing option
/// (with its message, the options as they were before it), at a help or
/// version option (with its command), or at an argument the parser
/// rejects (with the parser's message).
pub fn parse_cli_overrides(parser: &mut ArgParser, opts: &mut Opts, program_name: &str) -> (r:
    Result<OverridesResult, CliError>)
    ensures
        exists|states: Seq<Opts>, steps: Seq<(OptionKind, Fetched)>, stop: (OptionKind, Fetched)|
            {
                &&& #[trigger] overrides_read(
                    planned(old(parser).lex(), old(parser).budget() as nat).0,
                    planned(old(parser).lex(), old(parser).budget() as nat).1,
                    states,
                    steps,
                    stop,
                    r,
                    program_name@,
                )
                &&& states[0] == *old(opts)
                &&& states.last() == *final(opts)
            },
{
    proof {
        reveal(overrides_read);
    }
    let ghost start = parser.lex();
    let ghost fuel0: nat = parser.remaining as nat;
    let ghost tokens = planned(start, fuel0).0;
    let ghost end = planned(start, fuel0).1;
    assert(start == old(parser).lex());
    assert(fuel0 == old(parser).budget() as nat);
    let ghost mut states: Seq<Opts> = seq![*opts];
    let ghost mut steps: Seq<(OptionKind, Fetched)> = seq![];
    let mut launch_methods: usize = 0;
    assert(steps_view(steps) =~= Seq::<(OptionKind, FetchedModel)>::empty());
    assert(tokens =~= steps_view(steps) + planned(parser.lex(), parser.remaining as nat).0);
    while parser.remaining > 0
        invariant
            steps_applied(states, steps),
            states[0] == *old(opts),
            states.last() == *opts,
            launch_methods == launch_steps(steps),
            tokens == planned(start, fuel0).0,
            end == planned(start, fuel0).1,
            start == old(parser).lex(),
            fuel0 == old(parser).budget() as nat,
            tokens == steps_view(steps) + planned(parser.lex(), parser.remaining as nat).0,
            end == planned(parser.lex(), parser.remaining as nat).1,
            steps.len() <= tokens.len(),
        decreases parser.remaining,
    {
        let ghost m0 = parser.lex();
        let ghost f0: nat = parser.remaining as nat;
        parser.remaining = parser.remaining - 1;
        assert(parser.lex() == m0);
        let arg = match next_arg(parser) {
            Ok(Some(a)) => a,
            Ok(None) => {
                proof {
                    reveal(overrides_read);
                    assert(planned(m0, f0).0 =~= Seq::<(OptionKind, FetchedModel)>::empty());
                    assert(planned(m0, f0).1 == LexEnd::Done);
                    assert(tokens =~= steps_view(steps));
                    assert(steps_view(steps).len() == steps.len());
                    assert(tokens.take(steps.len() as int) =~= tokens);
                    assert(steps_view(steps) == tokens.take(steps.len() as int));
                    assert(overrides_read(tokens, end, states, steps, (OptionKind::Tty, Fetched::Nothing), Ok(OverridesResult::Continue(launch_methods)), program_name@));
                }
                return Ok(OverridesResult::Continue(launch_methods));
            },
            Err(m) => {
                proof {
                    reveal(overrides_read);
                    assert(planned(m0, f0).0 =~= Seq::<(OptionKind, FetchedModel)>::empty());
                    assert(tokens =~= steps_view(steps));
                    assert(steps_view(steps).len() == steps.len());
                    assert(tokens.take(steps.len() as int) =~= tokens);
                    assert(overrides_read(tokens, end, states, steps, (OptionKind::Tty, Fetched::Nothing), Err(CliError::Message(m)), program_name@));
                }
                return Err(CliError::Message(m));
            },
        };
        let option = classify(arg);
        let is_launch = launch_option(&option);
        let input = fetch(parser, &option);
        let ghost before = *opts;
        let ghost kind = option_view(option);
        let ghost rest = planned(parser.lex(), parser.remaining as nat);
        proof {
            assert(planned(m0, f0).0 == seq![(kind, fetched_view(input))] + rest.0);
            assert(planned(m0, f0).1 == rest.1);
            assert(steps_view(steps).len() == steps.len());
            assert(tokens[steps.len() as int] == (kind, fetched_view(input)));
            assert(tokens.take(steps.len() as int) =~= steps_view(steps));
        }
        match apply_option(opts, option, input, program_name) {
            Ok(Outcome::Applied) => {},
            Ok(Outcome::Command(c)) => {
                proof {
                    reveal(overrides_read);
                    assert(overrides_read(tokens, end, states, steps, (kind, input), Ok(OverridesResult::Command(c)), program_name@));
                }
                return Ok(OverridesResult::Command(c));
            },
            Err(e) => {
                proof {
                    reveal(overrides_read);
                    assert(overrides_read(tokens, end, states, steps, (kind, input), Err(e), program_name@));
                }
                return Err(e);
            },
        }
        proof {
            let next_steps = steps.push((kind, input));
            let next_states = states.push(*opts);
            assert(next_steps.drop_last() =~= steps);
            assert forall|i: int| 0 <= i < next_steps.len() implies {
                &&& option_failure((#[trigger] next_steps[i]).0, next_steps[i].1) is None
                &&& !is_command_option(next_steps[i].0)
                &&& option_effect(next_steps[i].0, next_states[i], next_states[i + 1], next_steps[i].1)
            } by {
                if i < steps.len() {
                    assert(next_steps[i] == steps[i]);
                    assert(next_states[i] == states[i]);
                    assert(next_states[i + 1] == states[i + 1]);
                } else {
                    assert(next_states[i] == before);
                }
            }
            assert(steps_view(next_steps) =~= steps_view(steps).push((kind, fetched_view(input))));
            assert(tokens =~= steps_view(next_steps) + rest.0);
            steps = next_steps;
            states = next_states;
        }
        if is_launch && launch_methods < usize::MAX {
            launch_methods += 1;
        }
    }
    proof {
        assert(planned(parser.lex(), 0).0 =~= Seq::<(OptionKind, FetchedModel)>::empty());
        assert(tokens =~= steps_view(steps));
        assert(steps_view(steps).len() == steps.len());
        assert(tokens.take(steps.len() as int) =~= tokens);
        assert(overrides_read(tokens, end, states, steps, (OptionKind::Tty, Fetched::Nothing), Ok(OverridesResult::Continue(launch_methods)), program_name@));
    }
    Ok(OverridesResult::Continue(launch_methods))
}

} // verus!

verus! {

/// The first index at or after `i` whose argument is `lit`, or the length.
pub open spec fn position_of(args: Seq<Seq<char>>, lit: Seq<char>, i: int) -> int
    decreases args.len() - i,
{
    if i < 0 || i >= args.len() {
        args.len() as int
    } else if args[i] == lit {
        i
    } else {
        position_of(args, lit, i + 1)
    }
}

/// The arguments for the parser (without the program name) and the search
/// text: everything after `-ss` is the search, joined by spaces.
pub open spec fn search_split(args: Seq<Seq<char>>) -> (Seq<Seq<char>>, Option<Seq<char>>) {
    let pos = position_of(args, "-ss"@, 0);
    if pos < args.len() {
        (
            if pos >= 1 {
                args.subrange(1, pos)
            } else {
                seq![]
            },
            Some(join_with(args.subrange(pos + 1, args.len() as int), " "@)),
        )
    } else {
        (
            if args.len() >= 1 {
                args.subrange(1, args.len() as int)
            } else {
                seq![]
            },
            None,
        )
    }
}

fn clone_strings(v: &Vec<String>, start: usize, end: usize) -> (r: Vec<String>)
    requires
        start <= end <= v@.len(),
    ensures
        strings_view(r@) == strings_view(v@).subrange(start as int, end as int),
{
    let mut r: Vec<String> = Vec::new();
    let mut i = start;
    while i < end
        invariant
            start <= i <= end <= v@.len(),
            strings_view(r@) == strings_view(v@).subrange(start as int, i as int),
        decreases end - i,
    {
        let s = v[i].clone();
        proof {
            crate::text::lemma_strings_view_push(r@, s);
        }
        r.push(s);
        assert(strings_view(v@).subrange(start as int, i + 1) =~= strings_view(v@).subrange(
            start as int,
            i as int,
        ).push(v@[i as int]@));
        i += 1;
    }
    r
}

/// Splits off the `-ss` search (see [`search_split`]).
pub fn split_search(args: &Vec<String>) -> (r: (Vec<String>, Option<String>))
    ensures
        strings_view(r.0@) == search_split(strings_view(args@)).0,
        crate::desktop::entry::opt_string_view(r.1) == search_split(strings_view(args@)).1,
{
    let ghost a = strings_view(args@);
    let n = args.len();
    let mut pos: usize = 0;
    while pos < n && !vec_is(&chars_of(args[pos].as_str()), "-ss")
        invariant
            pos <= n == args@.len(),
            a == strings_view(args@),
            position_of(a, "-ss"@, 0) == position_of(a, "-ss"@, pos as int),
        decreases n - pos,
    {
        pos += 1;
    }
    if pos < n {
        let before = if pos >= 1 {
            clone_strings(args, 1, pos)
        } else {
            Vec::new()
        };
        let after = clone_strings(args, pos + 1, n);
        let search = crate::text::join_strings(&after, " ");
        proof {
            if pos < 1 {
                assert(strings_view(before@) =~= Seq::<Seq<char>>::empty());
            }
        }
        (before, Some(search))
    } else {
        let rest = if n >= 1 {
            clone_strings(args, 1, n)
        } else {
            Vec::new()
        };
        proof {
            if n < 1 {
                assert(strings_view(rest@) =~= Seq::<Seq<char>>::empty());
            }
        }
        (rest, None)
    }
}

/// The file named after the first `-c` or `--config` that has a value.
pub open spec fn config_path_in(args: Seq<Seq<char>>, i: int) -> Option<Seq<char>>
    decreases args.len() - i,
{
    if i < 1 || i >= args.len() {
        None
    } else if (args[i] == "-c"@ || args[i] == "--config"@) && i + 1 < args.len() {
        Some(args[i + 1])
    } else {
        config_path_in(args, i + 1)
    }
}

/// The configuration file that the arguments name (see [`config_path_in`]).
pub fn find_config_path(args: &Vec<String>) -> (r: Option<String>)
    ensures
        crate::desktop::entry::opt_string_view(r) == config_path_in(strings_view(args@), 1),
{
    let ghost a = strings_view(args@);
    let mut index: usize = 1;
    while index < args.len()
        invariant
            1 <= index,
            a == strings_view(args@),
            config_path_in(a, 1) == config_path_in(a, index as int),
        decreases args@.len() - index,
    {
        let c = chars_of(args[index].as_str());
        if (vec_is(&c, "-c") || vec_is(&c, "--config")) && index + 1 < args.len() {
            return Some(args[index + 1].clone());
        }
        index += 1;
    }
    None
}

/// The arguments, with `fsel` as the program name when there are none.
pub fn collect_args(args: Vec<String>) -> (r: Vec<String>)
    ensures
        args@.len() == 0 ==> strings_view(r@) == seq!["fsel"@],
        args@.len() > 0 ==> r@ == args@,
{
    let mut r = args;
    if r.len() == 0 {
        let s = String::from_str("fsel");
        r.push(s);
        assert(strings_view(r@) =~= seq!["fsel"@]);
    }
    r
}

pub open spec fn or_else<T>(o: Option<T>, d: T) -> T {
    match o {
        Some(v) => v,
        None => d,
    }
}

/// The launcher settings of the configuration: the `[app_launcher]`
/// section takes precedence over the top-level settings, and options it
/// leaves unset keep their value in `o`.
pub open spec fn launcher_applied(o: Opts, g: GeneralConfig, a: AppLauncherConfig) -> Opts {
    Opts {
        terminal_launcher: g.terminal_launcher,
        filter_desktop: or_else(a.filter_desktop, g.filter_desktop),
        filter_actions: or_else(a.filter_actions, o.filter_actions),
        auto_hide_duplicates: or_else(a.auto_hide_duplicates, o.auto_hide_duplicates),
        list_executables_in_path: or_else(a.list_executables_in_path, g.list_executables_in_path),
        hide_before_typing: or_else(a.hide_before_typing, g.hide_before_typing),
        match_mode: or_else(a.match_mode, g.match_mode),
        ranking_mode: or_else(a.ranking_mode, g.ranking_mode),
        pinned_order: or_else(a.pinned_order, g.pinned_order),
        confirm_first_launch: or_else(a.confirm_first_launch, g.confirm_first_launch),
        prefix_depth: or_else(a.prefix_depth, g.prefix_depth),
        systemd_run: g.systemd_run,
        uwsm: g.uwsm,
        detach: g.detach,
        no_exec: g.no_exec,
        ..o
    }
}

/// The icon settings of the `[app_launcher]` section, where set.
pub open spec fn icons_applied(o: Opts, a: AppLauncherConfig) -> Opts {
    Opts {
        desktop_icon_mode: or_else(a.icon_mode, o.desktop_icon_mode),
        desktop_icon_position: or_else(a.icon_position, o.desktop_icon_position),
        desktop_icon_preview_width_percent: or_else(
            a.icon_preview_width_percent,
            o.desktop_icon_preview_width_percent,
        ),
        desktop_icon_list_width: or_else(a.icon_list_width, o.desktop_icon_list_width),
        desktop_icon_list_height: or_else(a.icon_list_height, o.desktop_icon_list_height),
        desktop_icon_list_gap: or_else(a.icon_list_gap, o.desktop_icon_list_gap),
        desktop_icon_list_vertical_align_percent: or_else(
            a.icon_list_vertical_align_percent,
            o.desktop_icon_list_vertical_align_percent,
        ),
        desktop_icon_arrow_before: or_else(a.icon_arrow_before, o.desktop_icon_arrow_before),
        desktop_icon_size: or_else(a.icon_size, o.desktop_icon_size),
        desktop_icon_horizontal_align_percent: or_else(
            a.icon_horizontal_align_percent,
            o.desktop_icon_horizontal_align_percent,
        ),
        desktop_icon_vertical_align_percent: or_else(
            a.icon_vertical_align_percent,
            o.desktop_icon_vertical_align_percent,
        ),
        desktop_icon_theme: a.icon_theme,
        launch_prefix: a.launch_prefix,
        ..o
    }
}

/// The dmenu and clipboard settings, and the panel layout.
pub open spec fn selectors_applied(o: Opts, d: DmenuConfig, c: CclipConfig, p: PanelsConfig) -> Opts {
    Opts {
        dmenu_delimiter: or_else(d.delimiter, o.dmenu_delimiter),
        dmenu_preview: d.preview,
        dmenu_password_character: or_else(d.password_character, o.dmenu_password_character),
        dmenu_show_line_numbers: or_else(d.show_line_numbers, o.dmenu_show_line_numbers),
        dmenu_exit_if_empty: or_else(d.exit_if_empty, o.dmenu_exit_if_empty),
        cclip_show_tag_color_names: c.show_tag_color_names,
        panels: p,
        ..o
    }
}

/// The options that the configuration `c` sets before the command line is
/// read.
pub open spec fn config_applied(o: Opts, c: FselConfig) -> Opts {
    selectors_applied(
        icons_applied(launcher_applied(o, c.general, c.app_launcher), c.app_launcher),
        c.dmenu,
        c.cclip,
        c.panels,
    )
}

fn pick<T>(o: Option<T>, d: T) -> (r: T)
    ensures
        r == or_else(o, d),
{
    match o {
        Some(v) => v,
        None => d,
    }
}

fn apply_launcher(o: Opts, g: GeneralConfig, a: &AppLauncherConfig) -> (r: Opts)
    ensures
        r == launcher_applied(o, g, *a),
{
    let filter_actions = pick(a.filter_actions, o.filter_actions);
    let auto_hide_duplicates = pick(a.auto_hide_duplicates, o.auto_hide_duplicates);
    Opts {
        terminal_launcher: g.terminal_launcher,
        filter_desktop: pick(a.filter_desktop, g.filter_desktop),
        filter_actions,
        auto_hide_duplicates,
        list_executables_in_path: pick(a.list_executables_in_path, g.list_executables_in_path),
        hide_before_typing: pick(a.hide_before_typing, g.hide_before_typing),
        match_mode: pick(a.match_mode, g.match_mode),
        ranking_mode: pick(a.ranking_mode, g.ranking_mode),
        pinned_order: pick(a.pinned_order, g.pinned_order),
        confirm_first_launch: pick(a.confirm_first_launch, g.confirm_first_launch),
        prefix_depth: pick(a.prefix_depth, g.prefix_depth),
        systemd_run: g.systemd_run,
        uwsm: g.uwsm,
        detach: g.detach,
        no_exec: g.no_exec,
        ..o
    }
}

fn apply_icons(o: Opts, a: AppLauncherConfig) -> (r: Opts)
    ensures
        r == icons_applied(o, a),
{
    let mode = pick(a.icon_mode, o.desktop_icon_mode);
    let position = pick(a.icon_position, o.desktop_icon_position);
    let preview_width = pick(a.icon_preview_width_percent, o.desktop_icon_preview_width_percent);
    let list_width = pick(a.icon_list_width, o.desktop_icon_list_width);
    let list_height = pick(a.icon_list_height, o.desktop_icon_list_height);
    let list_gap = pick(a.icon_list_gap, o.desktop_icon_list_gap);
    let list_valign = pick(
        a.icon_list_vertical_align_percent,
        o.desktop_icon_list_vertical_align_percent,
    );
    let arrow = pick(a.icon_arrow_before, o.desktop_icon_arrow_before);
    let size = pick(a.icon_size, o.desktop_icon_size);
    let halign = pick(a.icon_horizontal_align_percent, o.desktop_icon_horizontal_align_percent);
    let valign = pick(a.icon_vertical_align_percent, o.desktop_icon_vertical_align_percent);
    Opts {
        desktop_icon_mode: mode,
        desktop_icon_position: position,
        desktop_icon_preview_width_percent: preview_width,
        desktop_icon_list_width: list_width,
        desktop_icon_list_height: list_height,
        desktop_icon_list_gap: list_gap,
        desktop_icon_list_vertical_align_percent: list_valign,
        desktop_icon_arrow_before: arrow,
        desktop_icon_size: size,
        desktop_icon_horizontal_align_percent: halign,
        desktop_icon_vertical_align_percent: valign,
        desktop_icon_theme: a.icon_theme,
        launch_prefix: a.launch_prefix,
        ..o
    }
}

fn apply_selectors(o: Opts, d: DmenuConfig, c: CclipConfig, p: PanelsConfig) -> (r: Opts)
    ensures
        r == selectors_applied(o, d, c, p),
{
    let show = pick(d.show_line_numbers, o.dmenu_show_line_numbers);
    let exit = pick(d.exit_if_empty, o.dmenu_exit_if_empty);
    Opts {
        dmenu_delimiter: pick(d.delimiter, o.dmenu_delimiter),
        dmenu_preview: d.preview,
        dmenu_password_character: pick(d.password_character, o.dmenu_password_character),
        dmenu_show_line_numbers: show,
        dmenu_exit_if_empty: exit,
        cclip_show_tag_color_names: c.show_tag_color_names,
        panels: p,
        ..o
    }
}

/// Sets the options that the configuration decides (see [`config_applied`]).
pub fn apply_config_defaults(opts: &mut Opts, config: FselConfig)
    ensures
        *final(opts) == config_applied(*old(opts), config),
{
    let mut o = Opts::default();
    std::mem::swap(&mut o, opts);
    let FselConfig { general, ui: _, layout: _, panels, dmenu, cclip, app_launcher } = config;
    let o = apply_launcher(o, general, &app_launcher);
    let o = apply_icons(o, app_launcher);
    *opts = apply_selectors(o, dmenu, cclip, panels);
}

/// The program name: the first argument, `fsel` when there is none.
pub open spec fn program_of(args: Seq<Seq<char>>) -> Seq<char> {
    if args.len() > 0 {
        args[0]
    } else {
        "fsel"@
    }
}

/// The program name ends in `dmenu`.
pub open spec fn named_dmenu(program: Seq<char>) -> bool {
    program.len() >= 5 && program.subrange(program.len() - 5, program.len() as int) == "dmenu"@
}

/// `o` is where parsing starts: the defaults `d` with the configuration
/// applied, the search text after `-ss` (if any) and the dmenu mode when
/// the program is named so.
pub open spec fn parse_start(o: Opts, d: Opts, args: Seq<Seq<char>>, config: FselConfig) -> bool {
    let c = config_applied(d, config);
    &&& o == (Opts { search_string: o.search_string, dmenu_mode: o.dmenu_mode, ..c })
    &&& crate::desktop::entry::opt_string_view(o.search_string) == match search_split(args).1 {
        Some(s) => Some(s),
        None => crate::desktop::entry::opt_string_view(c.search_string),
    }
    &&& o.dmenu_mode == (c.dmenu_mode || named_dmenu(program_of(args)))
}

/// The options that the command line `args` (program name first) holds:
/// those before `-ss`, as the parser reads them (see [`planned`]), with the
/// number of steps a parser over them may take.
pub open spec fn cli_tokens(args: Seq<Seq<char>>) -> (Seq<(OptionKind, FetchedModel)>, LexEnd) {
    let pa = search_split(args).0;
    planned(initial_lex(pa), capped_sum(args_bound(pa), 1) as nat)
}

/// How the command line `args` was read against `config` into `r`: the
/// start `states[0]` is the defaults `d` with the configuration, the search
/// text and the dmenu mode of the program name (see [`parse_start`]); the
/// options of the command line are applied to it as
/// [`overrides_read`] says; when they all apply, the result is checked
/// (see [`validate`]): its message when it fails, else the options to run.
#[verifier::opaque]
pub open spec fn cli_read(
    d: Opts,
    states: Seq<Opts>,
    steps: Seq<(OptionKind, Fetched)>,
    stop: (OptionKind, Fetched),
    args: Seq<Seq<char>>,
    config: FselConfig,
    r: Result<CliCommand, CliError>,
) -> bool {
    let tokens = cli_tokens(args).0;
    let end = cli_tokens(args).1;
    let program = program_of(args);
    let n = launch_steps(steps) as usize;
    &&& opts_defaults(d)
    &&& parse_start(states[0], d, args, config)
    &&& match r {
        Ok(CliCommand::Run(o)) => {
            &&& overrides_read(tokens, end, states, steps, stop, Ok(OverridesResult::Continue(n)), program)
            &&& validation_error(states.last(), n) is None
            &&& *o == validated(states.last())
        },
        Ok(c) => overrides_read(tokens, end, states, steps, stop, Ok(OverridesResult::Command(c)), program),
        Err(CliError::Message(m)) => {
            ||| overrides_read(tokens, end, states, steps, stop, Err(CliError::Message(m)), program)
            ||| {
                &&& overrides_read(tokens, end, states, steps, stop, Ok(OverridesResult::Continue(n)), program)
                &&& validation_error(states.last(), n) == Some(m@)
            }
        },
    }
}

/// Reads the command line `args` (with the program name first) against
/// the loaded configuration: a program name ending in `dmenu` selects the
/// dmenu mode, `-ss` ends the options, the options before it are applied
/// in order, and the result is checked (see [`cli_read`]).
#[verifier::rlimit(90)]
pub fn parse_with_config(args: &Vec<String>, config: FselConfig) -> (r: Result<CliCommand, CliError>)
    ensures
        exists|d: Opts, states: Seq<Opts>, steps: Seq<(OptionKind, Fetched)>, stop: (OptionKind, Fetched)|
            #[trigger] cli_read(d, states, steps, stop, strings_view(args@), config, r),
{
    let program_name = if args.len() > 0 {
        args[0].clone()
    } else {
        String::from_str("fsel")
    };
    let mut opts = Opts::default();
    let ghost d = opts;
    apply_config_defaults(&mut opts, config);
    let name = chars_of(program_name.as_str());
    let dmenu_name = name.len() >= 5 && crate::text::range_eq(&name, name.len() - 5, name.len(), "dmenu");
    proof {
        reveal_strlit("dmenu");
        reveal_strlit("fsel");
    }
    let (parser_args, search) = split_search(args);
    let mut o = Opts::default();
    std::mem::swap(&mut o, &mut opts);
    let search_string = match search {
        Some(s) => Some(s),
        None => o.search_string,
    };
    let dmenu_mode = o.dmenu_mode || dmenu_name;
    opts = Opts { search_string, dmenu_mode, ..o };
    let ghost start = opts;
    let ghost av = strings_view(args@);
    assert(parse_start(start, d, av, config));
    assert(program_name@ == program_of(av));
    let mut parser = ArgParser::new(parser_args);
    assert(planned(parser.lex(), parser.budget() as nat) == cli_tokens(av));
    let result = parse_cli_overrides(&mut parser, &mut opts, program_name.as_str());
    let ghost (states, steps, stop) = choose|states: Seq<Opts>, steps: Seq<(OptionKind, Fetched)>, stop: (OptionKind, Fetched)|
        {
            &&& #[trigger] overrides_read(
                cli_tokens(av).0,
                cli_tokens(av).1,
                states,
                steps,
                stop,
                result,
                program_name@,
            )
            &&& states[0] == start
            &&& states.last() == opts
        };
    let launch_methods = match result {
        Ok(OverridesResult::Continue(n)) => {
            assert(n == launch_steps(steps) as usize) by {
                reveal(overrides_read);
            }
            n
        },
        Ok(OverridesResult::Command(c)) => {
            assert(cli_read(d, states, steps, stop, av, config, Ok(c))) by {
                reveal(cli_read);
                reveal(overrides_read);
            }
            return Ok(c);
        },
        Err(e) => {
            assert(cli_read(d, states, steps, stop, av, config, Err(e))) by {
                reveal(cli_read);
            }
            return Err(e);
        },
    };
    match validate(&mut opts, launch_methods) {
        Ok(_) => {
            let r = Ok(CliCommand::Run(Box::new(opts)));
            assert(cli_read(d, states, steps, stop, av, config, r)) by {
                reveal(cli_read);
            }
            r
        },
        Err(e) => {
            assert(cli_read(d, states, steps, stop, av, config, Err(e))) by {
                reveal(cli_read);
            }
            Err(e)
        },
    }
}


} // verus!
