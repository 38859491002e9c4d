//! The launcher's decisions: which rows a query keeps, which application
//! `--program` starts, and what each key or click does to the list.
use crate::cli::enums::MatchMode;
use crate::keys::LauncherKeyAction;
use crate::navigation::{moved, mouse_result, ListCursor, MouseKind};
use crate::text::{
    chars_of, contains_chars, eq_ignore_ascii_case, lowercase, occurs_in, string_from_chars,
    strings_view, to_lowercase,
};
use vstd::prelude::*;

verus! {

/// The characters of `q` occur in `t` in order.
pub open spec fn is_subsequence(q: Seq<char>, t: Seq<char>) -> bool
    decreases t.len(),
{
    if q.len() == 0 {
        true
    } else if t.len() == 0 {
        false
    } else if t[0] == q[0] {
        is_subsequence(q.drop_first(), t.drop_first())
    } else {
        is_subsequence(q, t.drop_first())
    }
}

/// `query` matches `text`, both lowered: as a piece of it with exact
/// matching, else as characters of it in order.
pub open spec fn row_matches(text: Seq<char>, query: Seq<char>, mode: MatchMode) -> bool {
    let t = lowercase(text);
    let q = lowercase(query);
    if mode == MatchMode::Exact {
        occurs_in(q, t)
    } else {
        is_subsequence(q, t)
    }
}

/// The positions of the rows of `texts` that `query` matches, in order.
pub open spec fn matching_rows(texts: Seq<Seq<char>>, query: Seq<char>, mode: MatchMode) -> Seq<usize>
    decreases texts.len(),
{
    if texts.len() == 0 {
        seq![]
    } else {
        let before = matching_rows(texts.drop_last(), query, mode);
        if row_matches(texts.last(), query, mode) {
            before.push((texts.len() - 1) as usize)
        } else {
            before
        }
    }
}

fn subsequence(q: &Vec<char>, t: &Vec<char>) -> (r: bool)
    ensures
        r == is_subsequence(q@, t@),
{
    let mut i: usize = 0;
    let mut j: usize = 0;
    assert(q@.skip(0) =~= q@);
    assert(t@.skip(0) =~= t@);
    while i < t.len() && j < q.len()
        invariant
            i <= t@.len(),
            j <= q@.len(),
            is_subsequence(q@, t@) == is_subsequence(q@.skip(j as int), t@.skip(i as int)),
        decreases t@.len() - i,
    {
        let ghost qs = q@.skip(j as int);
        let ghost ts = t@.skip(i as int);
        assert(ts[0] == t@[i as int]);
        assert(qs[0] == q@[j as int]);
        assert(ts.drop_first() =~= t@.skip(i + 1));
        if t[i] == q[j] {
            assert(qs.drop_first() =~= q@.skip(j + 1));
            j += 1;
        }
        i += 1;
    }
    if j >= q.len() {
        assert(q@.skip(j as int).len() == 0);
        true
    } else {
        assert(t@.skip(i as int).len() == 0);
        false
    }
}

/// Whether `query` matches `text` (see [`row_matches`]).
pub fn matches_row(text: &str, query: &str, mode: MatchMode) -> (r: bool)
    ensures
        r == row_matches(text@, query@, mode),
{
    let t = chars_of(to_lowercase(text).as_str());
    let q = chars_of(to_lowercase(query).as_str());
    match mode {
        MatchMode::Exact => contains_chars(&t, &q),
        _ => subsequence(&q, &t),
    }
}

/// The positions of the rows of `texts` that `query` matches (see
/// [`matching_rows`]).
pub fn filter_rows(texts: &Vec<String>, query: &str, mode: MatchMode) -> (r: Vec<usize>)
    ensures
        r@ == matching_rows(strings_view(texts@), query@, mode),
{
    let ghost tv = strings_view(texts@);
    let mut out: Vec<usize> = Vec::new();
    let mut i: usize = 0;
    assert(tv.take(0) =~= Seq::<Seq<char>>::empty());
    while i < texts.len()
        invariant
            i <= texts@.len(),
            tv == strings_view(texts@),
            out@ == matching_rows(tv.take(i as int), query@, mode),
        decreases texts@.len() - i,
    {
        assert(tv.take(i + 1).drop_last() =~= tv.take(i as int));
        assert(tv.take(i + 1).last() == texts@[i as int]@);
        if matches_row(texts[i].as_str(), query, mode) {
            out.push(i);
        }
        i += 1;
    }
    assert(tv.take(texts@.len() as int) =~= tv);
    out
}

/// The first row from `k` whose name equals `program` ignoring ASCII case.
pub open spec fn first_named(names: Seq<Seq<char>>, program: Seq<char>, k: int) -> Option<int>
    decreases names.len() - k,
{
    if k < 0 || k >= names.len() {
        None
    } else if eq_ignore_ascii_case(names[k], program) {
        Some(k)
    } else {
        first_named(names, program, k + 1)
    }
}

/// The application that `--program` starts: the first whose name is the
/// program's (ignoring ASCII case); failing that, with fuzzy matching, the
/// first that the program's name matches.
pub open spec fn direct_choice(names: Seq<Seq<char>>, program: Seq<char>, mode: MatchMode) -> Option<int> {
    match first_named(names, program, 0) {
        Some(i) => Some(i),
        None => if mode == MatchMode::Exact || matching_rows(names, program, mode).len() == 0 {
            None
        } else {
            Some(matching_rows(names, program, mode)[0] as int)
        },
    }
}

/// The application that `--program` starts (see [`direct_choice`]).
pub fn direct_launch_choice(names: &Vec<String>, program: &str, mode: MatchMode) -> (r: Option<usize>)
    ensures
        match r {
            Some(i) => direct_choice(strings_view(names@), program@, mode) == Some(i as int),
            None => direct_choice(strings_view(names@), program@, mode) is None,
        },
{
    let ghost nv = strings_view(names@);
    let mut k: usize = 0;
    while k < names.len()
        invariant
            k <= names@.len(),
            nv == strings_view(names@),
            first_named(nv, program@, 0) == first_named(nv, program@, k as int),
        decreases names@.len() - k,
    {
        assert(nv[k as int] == names@[k as int]@);
        if crate::desktop::discover::eq_ignore_case_exec(names[k].as_str(), program) {
            return Some(k);
        }
        k += 1;
    }
    match mode {
        MatchMode::Exact => None,
        _ => {
            let rows = filter_rows(names, program, mode);
            if rows.len() == 0 {
                None
            } else {
                Some(rows[0])
            }
        },
    }
}

/// The launcher's list: the query typed, the rows it keeps and the
/// cursor among them.
pub struct LauncherState {
    pub query: Vec<char>,
    pub shown: Vec<usize>,
    pub cursor: ListCursor,
}

/// The launcher's list as plain values.
pub struct LauncherModel {
    pub query: Seq<char>,
    pub shown: Seq<usize>,
    pub cursor: ListCursor,
}

impl View for LauncherState {
    type V = LauncherModel;

    open spec fn view(&self) -> LauncherModel {
        LauncherModel { query: self.query@, shown: self.shown@, cursor: self.cursor }
    }
}

/// A selection, when there is one, is a shown row.
pub open spec fn launcher_wf(m: LauncherModel) -> bool {
    match m.cursor.selected {
        Some(s) => s < m.shown.len(),
        None => true,
    }
}

/// What happens to the launcher's list.
pub enum LauncherEvent {
    /// A key, as the launcher reads it.
    Key(LauncherKeyAction),
    /// The mouse over the list: the slot under it, if any, and what it did.
    Mouse(Option<usize>, MouseKind),
}

/// What the launcher does after an event.
#[derive(Clone, Copy, Debug, PartialEq, Eq, Structural)]
pub enum LauncherAction {
    /// Keep going.
    Continue,
    /// Quit without starting anything.
    Exit,
    /// Start the application at this position of all applications.
    Launch(usize),
}

/// The list for `query`: the rows it keeps, the first selected.
pub open spec fn refiltered(texts: Seq<Seq<char>>, query: Seq<char>, mode: MatchMode) -> LauncherModel {
    let shown = matching_rows(texts, query, mode);
    LauncherModel {
        query,
        shown,
        cursor: ListCursor {
            selected: if shown.len() > 0 {
                Some(0)
            } else {
                None
            },
            scroll_offset: 0,
        },
    }
}

/// The list and the action after `event`: exit quits; select starts the
/// selected row's application; the arrows move the selection (see
/// [`moved`]), home and end jump to the first and last row; typing and
/// backspace change the query and filter again; a click starts the
/// clicked row's application, other mouse events move or scroll (see
/// [`mouse_result`]); anything else changes nothing.
pub open spec fn launcher_next(
    s: LauncherModel,
    event: LauncherEvent,
    texts: Seq<Seq<char>>,
    mode: MatchMode,
    hard_stop: bool,
    max_visible: int,
) -> (LauncherModel, LauncherAction) {
    let len = s.shown.len() as int;
    match event {
        LauncherEvent::Key(k) => match k {
            LauncherKeyAction::Exit => (s, LauncherAction::Exit),
            LauncherKeyAction::Select => match s.cursor.selected {
                Some(i) => if i < len {
                    (s, LauncherAction::Launch(s.shown[i as int]))
                } else {
                    (s, LauncherAction::Continue)
                },
                None => (s, LauncherAction::Continue),
            },
            LauncherKeyAction::MoveUp => (
                LauncherModel { cursor: moved(s.cursor, len, -1, 0, hard_stop, max_visible), ..s },
                LauncherAction::Continue,
            ),
            LauncherKeyAction::MoveDown => (
                LauncherModel { cursor: moved(s.cursor, len, 1, 0, hard_stop, max_visible), ..s },
                LauncherAction::Continue,
            ),
            LauncherKeyAction::MoveFirst => (
                if len > 0 {
                    LauncherModel { cursor: ListCursor { selected: Some(0), scroll_offset: 0 }, ..s }
                } else {
                    s
                },
                LauncherAction::Continue,
            ),
            LauncherKeyAction::MoveLast => (
                if len > 0 {
                    LauncherModel {
                        cursor: ListCursor {
                            selected: Some((len - 1) as usize),
                            scroll_offset: if max_visible > 0 && len > max_visible {
                                (len - max_visible) as usize
                            } else {
                                0
                            },
                        },
                        ..s
                    }
                } else {
                    s
                },
                LauncherAction::Continue,
            ),
            LauncherKeyAction::Backspace => (
                refiltered(
                    texts,
                    if s.query.len() > 0 {
                        s.query.drop_last()
                    } else {
                        s.query
                    },
                    mode,
                ),
                LauncherAction::Continue,
            ),
            LauncherKeyAction::CharInput(c) => (
                refiltered(texts, s.query.push(c), mode),
                LauncherAction::Continue,
            ),
            _ => (s, LauncherAction::Continue),
        },
        LauncherEvent::Mouse(hit, kind) => {
            let (c, clicked) = mouse_result(s.cursor, len, hit, kind, max_visible);
            match clicked {
                Some(p) => (LauncherModel { cursor: c, ..s }, LauncherAction::Launch(s.shown[p as int])),
                None => (LauncherModel { cursor: c, ..s }, LauncherAction::Continue),
            }
        },
    }
}

/// The launcher's list for `query` over the application names `texts`.
pub fn launcher_start(texts: &Vec<String>, query: &str, mode: MatchMode) -> (s: LauncherState)
    ensures
        s@ == refiltered(strings_view(texts@), query@, mode),
        launcher_wf(s@),
{
    let shown = filter_rows(texts, query, mode);
    let selected = if shown.len() > 0 {
        Some(0)
    } else {
        None
    };
    LauncherState {
        query: chars_of(query),
        shown,
        cursor: ListCursor { selected, scroll_offset: 0 },
    }
}

/// Handles one event (see [`launcher_next`]).
pub fn launcher_step(
    state: &mut LauncherState,
    event: LauncherEvent,
    texts: &Vec<String>,
    mode: MatchMode,
    hard_stop: bool,
    max_visible: usize,
) -> (a: LauncherAction)
    requires
        launcher_wf(old(state)@),
        match event {
            LauncherEvent::Mouse(Some(relative), _) => old(state).cursor.scroll_offset + relative
                < usize::MAX && old(state).cursor.scroll_offset + max_visible <= usize::MAX,
            _ => true,
        },
    ensures
        (final(state)@, a) == launcher_next(
            old(state)@,
            event,
            strings_view(texts@),
            mode,
            hard_stop,
            max_visible as int,
        ),
        launcher_wf(final(state)@),
{
    let len = state.shown.len();
    match event {
        LauncherEvent::Key(k) => match k {
            LauncherKeyAction::Exit => LauncherAction::Exit,
            LauncherKeyAction::Select => match state.cursor.selected {
                Some(i) => if i < len {
                    LauncherAction::Launch(state.shown[i])
                } else {
                    LauncherAction::Continue
                },
                None => LauncherAction::Continue,
            },
            LauncherKeyAction::MoveUp => {
                crate::navigation::move_selection(&mut state.cursor, len, -1, 0, hard_stop, max_visible);
                LauncherAction::Continue
            },
            LauncherKeyAction::MoveDown => {
                crate::navigation::move_selection(&mut state.cursor, len, 1, 0, hard_stop, max_visible);
                LauncherAction::Continue
            },
            LauncherKeyAction::MoveFirst => {
                crate::navigation::move_to_first(&mut state.cursor, len);
                LauncherAction::Continue
            },
            LauncherKeyAction::MoveLast => {
                crate::navigation::move_to_last(&mut state.cursor, len, max_visible);
                LauncherAction::Continue
            },
            LauncherKeyAction::Backspace => {
                let mut q = state.query.clone();
                if q.len() > 0 {
                    q.pop();
                }
                let text = string_from_chars(q.as_slice());
                *state = launcher_start(texts, text.as_str(), mode);
                LauncherAction::Continue
            },
            LauncherKeyAction::CharInput(c) => {
                let mut q = state.query.clone();
                q.push(c);
                let text = string_from_chars(q.as_slice());
                *state = launcher_start(texts, text.as_str(), mode);
                LauncherAction::Continue
            },
            _ => LauncherAction::Continue,
        },
        LauncherEvent::Mouse(hit, kind) => {
            match crate::navigation::handle_mouse_event(&mut state.cursor, len, hit, kind, max_visible) {
                Some(p) => LauncherAction::Launch(state.shown[p]),
                None => LauncherAction::Continue,
            }
        },
    }
}

/// Whether the list is drawn: with hide-before-typing only once the query
/// is not empty.
pub fn shows_rows(hide_before_typing: bool, state: &LauncherState) -> (r: bool)
    ensures
        r == (!hide_before_typing || state.query@.len() > 0),
{
    !hide_before_typing || state.query.len() > 0
}

/// The words in front of a launched command that the launch method adds:
/// the launch prefix, else `systemd-run --user --scope`, else
/// `uwsm app --`, else none.
pub open spec fn method_words(prefix: Option<Seq<Seq<char>>>, systemd_run: bool, uwsm: bool) -> Seq<Seq<char>> {
    match prefix {
        Some(p) => p,
        None => if systemd_run {
            seq!["systemd-run"@, "--user"@, "--scope"@]
        } else if uwsm {
            seq!["uwsm"@, "app"@, "--"@]
        } else {
            seq![]
        },
    }
}

/// The argument list that starts `command` through `sh -c`: behind the
/// terminal's words when it runs in a terminal, and behind the launch
/// method's words.
pub open spec fn launch_words(
    prefix: Option<Seq<Seq<char>>>,
    systemd_run: bool,
    uwsm: bool,
    terminal: Option<Seq<Seq<char>>>,
    command: Seq<char>,
) -> Seq<Seq<char>> {
    let shell = seq!["sh"@, "-c"@, command];
    let inner = match terminal {
        Some(t) => t + shell,
        None => shell,
    };
    method_words(prefix, systemd_run, uwsm) + inner
}

fn push_all(out: &mut Vec<String>, words: &Vec<String>)
    ensures
        strings_view(final(out)@) == strings_view(old(out)@) + strings_view(words@),
{
    let mut i: usize = 0;
    while i < words.len()
        invariant
            i <= words@.len(),
            strings_view(out@) == strings_view(old(out)@) + strings_view(words@.take(i as int)),
        decreases words@.len() - i,
    {
        let ghost before = out@;
        out.push(words[i].clone());
        assert(strings_view(out@) =~= strings_view(before).push(words@[i as int]@));
        assert(strings_view(words@.take(i + 1)) =~= strings_view(words@.take(i as int)).push(words@[i as int]@));
        i += 1;
    }
    assert(words@.take(words@.len() as int) =~= words@);
}

/// The argument list that starts `command` (see [`launch_words`]); the
/// terminal's words are given when the application runs in a terminal.
pub fn launch_arguments(
    prefix: Option<&Vec<String>>,
    systemd_run: bool,
    uwsm: bool,
    terminal: Option<&Vec<String>>,
    command: &str,
) -> (r: Vec<String>)
    ensures
        strings_view(r@) == launch_words(
            match prefix {
                Some(p) => Some(strings_view(p@)),
                None => None,
            },
            systemd_run,
            uwsm,
            match terminal {
                Some(t) => Some(strings_view(t@)),
                None => None,
            },
            command@,
        ),
{
    let mut out: Vec<String> = Vec::new();
    match prefix {
        Some(p) => push_all(&mut out, p),
        None => {
            if systemd_run {
                out.push("systemd-run".to_string());
                out.push("--user".to_string());
                out.push("--scope".to_string());
            } else if uwsm {
                out.push("uwsm".to_string());
                out.push("app".to_string());
                out.push("--".to_string());
            }
        },
    }
    let ghost method = strings_view(out@);
    match terminal {
        Some(t) => push_all(&mut out, t),
        None => {},
    }
    let ghost with_terminal = strings_view(out@);
    let ghost before = out@;
    out.push("sh".to_string());
    out.push("-c".to_string());
    out.push(command.to_string());
    proof {
        assert(strings_view(out@) =~= with_terminal + seq!["sh"@, "-c"@, command@]);
        assert(strings_view(Seq::<String>::empty()) =~= Seq::<Seq<char>>::empty());
    }
    out
}

} // verus!
