//! Value syntax of desktop-entry keys: semicolon lists, escaped icon
//! strings, `Exec` field codes and localized keys.
use crate::text::{
    first_from, find_char, is_whitespace, is_ws, lemma_first_from_bounds, lemma_strings_view_push,
    range_eq, slice_vec, string_from_chars, string_from_range, strings_view, trim, trim_bounds,
};
use vstd::prelude::*;

verus! {

/// The non-empty trimmed pieces of `v[pos..]` between separators `sep`.
pub open spec fn pieces_from(v: Seq<char>, pos: int, sep: char) -> Seq<Seq<char>>
    decreases v.len() - pos,
{
    if pos < 0 || pos > v.len() {
        seq![]
    } else {
        let e = first_from(v, pos, sep);
        let piece = trim(v.subrange(pos, e));
        let head = if piece.len() > 0 {
            seq![piece]
        } else {
            seq![]
        };
        if e >= v.len() || e < pos {
            head
        } else {
            head + pieces_from(v, e + 1, sep)
        }
    }
}

/// A desktop-entry list value (`a;b;c;`): its non-empty trimmed items.
pub open spec fn semicolon_list(v: Seq<char>) -> Seq<Seq<char>> {
    pieces_from(v, 0, ';')
}

/// Splits a semicolon-separated list value, dropping empty items.
pub fn parse_semicolon_list(s: &Vec<char>, start: usize, end: usize) -> (r: Vec<String>)
    requires
        start <= end <= s@.len(),
    ensures
        strings_view(r@) == semicolon_list(s@.subrange(start as int, end as int)),
{
    split_trimmed(s, start, end, ';')
}

/// The non-empty trimmed pieces of `s[start..end]` between separators `sep`.
pub fn split_trimmed(s: &Vec<char>, start: usize, end: usize, sep: char) -> (r: Vec<String>)
    requires
        start <= end <= s@.len(),
    ensures
        strings_view(r@) == pieces_from(s@.subrange(start as int, end as int), 0, sep),
{
    let v = slice_vec(s, start, end);
    let n = v.len();
    let mut out: Vec<String> = Vec::new();
    let mut pos: usize = 0;
    assert(v@.take(n as int) =~= v@);
    loop
        invariant_except_break
            pos <= n,
            n == v@.len(),
            v@.take(n as int) == v@,
            strings_view(out@) + pieces_from(v@, pos as int, sep) == pieces_from(v@, 0, sep),
        ensures
            strings_view(out@) == pieces_from(v@, 0, sep),
        decreases n - pos,
    {
        let e = find_char(&v, pos, n, sep);
        let (a, b) = trim_bounds(&v, pos, e);
        let ghost head = if b > a {
            seq![v@.subrange(a as int, b as int)]
        } else {
            Seq::<Seq<char>>::empty()
        };
        assert(pieces_from(v@, pos as int, sep) == if e >= n {
            head
        } else {
            head + pieces_from(v@, e + 1, sep)
        });
        let ghost before = strings_view(out@);
        if a < b {
            let piece = string_from_range(&v, a, b);
            proof {
                lemma_strings_view_push(out@, piece);
            }
            out.push(piece);
        }
        assert(strings_view(out@) == before + head);
        if e >= n {
            assert(strings_view(out@) =~= pieces_from(v@, 0, sep));
            break;
        }
        assert(strings_view(out@) + pieces_from(v@, e + 1, sep) =~= before + pieces_from(
            v@,
            pos as int,
            sep,
        ));
        pos = e + 1;
    }
    out
}

/// The icon value with its escape sequences (`\s`, `\n`, `\t`, `\r`, `\\`)
/// decoded; other escapes and a trailing backslash are kept literally.
pub open spec fn unescape_from(s: Seq<char>, i: int) -> Seq<char>
    decreases s.len() - i,
{
    if i < 0 || i >= s.len() {
        seq![]
    } else if s[i] != '\\' {
        seq![s[i]] + unescape_from(s, i + 1)
    } else if i + 1 >= s.len() {
        seq!['\\']
    } else {
        let next = s[i + 1];
        let decoded = if next == 's' {
            seq![' ']
        } else if next == 'n' {
            seq!['\n']
        } else if next == 't' {
            seq!['\t']
        } else if next == 'r' {
            seq!['\r']
        } else if next == '\\' {
            seq!['\\']
        } else {
            seq!['\\', next]
        };
        decoded + unescape_from(s, i + 2)
    }
}

pub open spec fn unescape_icon(s: Seq<char>) -> Seq<char> {
    unescape_from(s, 0)
}

/// Decodes the escape sequences of an `Icon` value.
pub fn unescape_icon_string(s: &Vec<char>, start: usize, end: usize) -> (r: String)
    requires
        start <= end <= s@.len(),
    ensures
        r@ == unescape_icon(s@.subrange(start as int, end as int)),
{
    let v = slice_vec(s, start, end);
    let n = v.len();
    let mut out: Vec<char> = Vec::new();
    let mut i: usize = 0;
    while i < n
        invariant
            i <= n + 1,
            n == v@.len(),
            out@ + unescape_from(v@, i as int) == unescape_from(v@, 0),
        decreases n + 1 - i,
    {
        let c = v[i];
        if c != '\\' {
            out.push(c);
            assert(out@ + unescape_from(v@, i + 1) =~= out@.drop_last() + unescape_from(
                v@,
                i as int,
            ));
            i += 1;
        } else if i + 1 >= n {
            out.push('\\');
            assert(out@ + unescape_from(v@, i + 1) =~= out@.drop_last() + unescape_from(
                v@,
                i as int,
            ));
            i += 1;
        } else {
            let next = v[i + 1];
            let ghost before = out@;
            if next == 's' {
                out.push(' ');
            } else if next == 'n' {
                out.push('\n');
            } else if next == 't' {
                out.push('\t');
            } else if next == 'r' {
                out.push('\r');
            } else if next == '\\' {
                out.push('\\');
            } else {
                out.push('\\');
                out.push(next);
            }
            assert(out@ + unescape_from(v@, i + 2) =~= before + unescape_from(v@, i as int));
            i += 2;
        }
    }
    assert(unescape_from(v@, i as int) == Seq::<char>::empty());
    assert(out@ =~= unescape_from(v@, 0));
    string_from_chars(out.as_slice())
}

/// The first index at or after `i` that holds no whitespace, or `s.len()`.
pub open spec fn skip_ws(s: Seq<char>, i: int) -> int
    decreases s.len() - i,
{
    if i < 0 || i >= s.len() {
        s.len() as int
    } else if !is_ws(s[i]) {
        i
    } else {
        skip_ws(s, i + 1)
    }
}

/// The first index at or after `i` that holds whitespace, or `s.len()`.
pub open spec fn word_end(s: Seq<char>, i: int) -> int
    decreases s.len() - i,
{
    if i < 0 || i >= s.len() {
        s.len() as int
    } else if is_ws(s[i]) {
        i
    } else {
        word_end(s, i + 1)
    }
}

proof fn lemma_skip_ws(s: Seq<char>, i: int)
    requires
        0 <= i <= s.len(),
    ensures
        i <= skip_ws(s, i) <= s.len(),
        skip_ws(s, i) < s.len() ==> !is_ws(s[skip_ws(s, i)]),
    decreases s.len() - i,
{
    if i < s.len() && is_ws(s[i]) {
        lemma_skip_ws(s, i + 1);
    }
}

proof fn lemma_word_end(s: Seq<char>, i: int)
    requires
        0 <= i < s.len(),
        !is_ws(s[i]),
    ensures
        i < word_end(s, i) <= s.len(),
    decreases s.len() - i,
{
    assert(word_end(s, i) == word_end(s, i + 1));
    if i + 1 < s.len() && !is_ws(s[i + 1]) {
        lemma_word_end(s, i + 1);
    } else if i + 1 < s.len() {
        assert(word_end(s, i + 1) == i + 1);
    }
}

/// The whitespace-separated words of `s[i..]`; with `drop_codes`, those that
/// start with `%` (the field codes of an `Exec` value) are left out.
pub open spec fn words_from(s: Seq<char>, i: int, drop_codes: bool) -> Seq<Seq<char>>
    decreases s.len() - i,
{
    if i < 0 || i >= s.len() {
        seq![]
    } else {
        let a = skip_ws(s, i);
        if a >= s.len() || a < i {
            seq![]
        } else {
            let b = word_end(s, a);
            if b <= a || b > s.len() {
                seq![]
            } else {
                let w = s.subrange(a, b);
                let head = if !drop_codes || w[0] != '%' {
                    seq![w]
                } else {
                    seq![]
                };
                head + words_from(s, b, drop_codes)
            }
        }
    }
}

/// The words joined by single spaces.
pub open spec fn join_words(ws: Seq<Seq<char>>) -> Seq<char>
    decreases ws.len(),
{
    if ws.len() == 0 {
        seq![]
    } else if ws.len() == 1 {
        ws[0]
    } else {
        join_words(ws.drop_last()) + seq![' '] + ws.last()
    }
}

/// An `Exec` value without its field codes, words joined by single spaces.
pub open spec fn clean_command(s: Seq<char>) -> Seq<char> {
    join_words(words_from(s, 0, true))
}

/// The words of `s` joined by single spaces: runs of whitespace collapse
/// to one space and both ends are trimmed.
pub open spec fn collapse_whitespace(s: Seq<char>) -> Seq<char> {
    join_words(words_from(s, 0, false))
}

fn skip_whitespace(v: &Vec<char>, i: usize) -> (r: usize)
    requires
        i <= v@.len(),
    ensures
        r == skip_ws(v@, i as int),
{
    let mut j = i;
    while j < v.len() && is_whitespace(v[j])
        invariant
            i <= j <= v@.len(),
            skip_ws(v@, i as int) == skip_ws(v@, j as int),
        decreases v@.len() - j,
    {
        j += 1;
    }
    j
}

fn find_word_end(v: &Vec<char>, i: usize) -> (r: usize)
    requires
        i <= v@.len(),
    ensures
        r == word_end(v@, i as int),
{
    let mut j = i;
    while j < v.len() && !is_whitespace(v[j])
        invariant
            i <= j <= v@.len(),
            word_end(v@, i as int) == word_end(v@, j as int),
        decreases v@.len() - j,
    {
        j += 1;
    }
    j
}

/// Removes the `%` field codes from an `Exec` value.
pub fn clean_exec(s: &Vec<char>, start: usize, end: usize) -> (r: String)
    requires
        start <= end <= s@.len(),
    ensures
        r@ == clean_command(s@.subrange(start as int, end as int)),
{
    join_spaced(s, start, end, true)
}

/// Collapses the whitespace of `s[start..end]` (see [`collapse_whitespace`]).
pub fn collapse_spaces(s: &Vec<char>, start: usize, end: usize) -> (r: String)
    requires
        start <= end <= s@.len(),
    ensures
        r@ == collapse_whitespace(s@.subrange(start as int, end as int)),
{
    join_spaced(s, start, end, false)
}

/// The words of `s[start..end]` joined by single spaces.
fn join_spaced(s: &Vec<char>, start: usize, end: usize, drop_codes: bool) -> (r: String)
    requires
        start <= end <= s@.len(),
    ensures
        r@ == join_words(words_from(s@.subrange(start as int, end as int), 0, drop_codes)),
{
    let v = slice_vec(s, start, end);
    let n = v.len();
    let mut out: Vec<char> = Vec::new();
    let ghost mut kept: Seq<Seq<char>> = seq![];
    let mut any_kept = false;
    let mut i: usize = 0;
    loop
        invariant_except_break
            i <= n,
            n == v@.len(),
            out@ == join_words(kept),
            any_kept == (kept.len() > 0),
            kept + words_from(v@, i as int, drop_codes) == words_from(v@, 0, drop_codes),
        ensures
            out@ == join_words(words_from(v@, 0, drop_codes)),
        decreases n - i,
    {
        let a = skip_whitespace(&v, i);
        proof {
            lemma_skip_ws(v@, i as int);
        }
        if a >= n {
            assert(words_from(v@, i as int, drop_codes) == Seq::<Seq<char>>::empty());
            assert(kept =~= words_from(v@, 0, drop_codes));
            break;
        }
        let b = find_word_end(&v, a);
        proof {
            lemma_word_end(v@, a as int);
        }
        let ghost w = v@.subrange(a as int, b as int);
        if !drop_codes || v[a] != '%' {
            if any_kept {
                out.push(' ');
            }
            any_kept = true;
            let mut k = a;
            let ghost out0 = out@;
            while k < b
                invariant
                    a <= k <= b,
                    b <= v@.len(),
                    out@ == out0 + v@.subrange(a as int, k as int),
                decreases b - k,
            {
                out.push(v[k]);
                assert(v@.subrange(a as int, k + 1) =~= v@.subrange(a as int, k as int).push(
                    v@[k as int],
                ));
                k += 1;
            }
            proof {
                let old_kept = kept;
                kept = kept.push(w);
                assert(kept.drop_last() =~= old_kept);
                assert(out@ == join_words(kept));
            }
            assert(kept + words_from(v@, b as int, drop_codes) =~= kept.drop_last() + (seq![w]
                + words_from(v@, b as int, drop_codes)));
        } else {
            assert(kept + words_from(v@, b as int, drop_codes) =~= kept + (Seq::<Seq<char>>::empty()
                + words_from(v@, b as int, drop_codes)));
        }
        i = b;
    }
    string_from_chars(out.as_slice())
}

} // verus!

verus! {

/// Model of a localizable key (`Name`, `GenericName`, `Comment`): the
/// unlocalized value and the best localized value with its locale rank.
pub struct LocalizedModel {
    pub base: Option<Seq<char>>,
    pub localized: Option<(nat, Seq<char>)>,
}

/// The index of the first locale equal to `part`, at or after `i`.
pub open spec fn rank_from(locales: Seq<Seq<char>>, part: Seq<char>, i: int) -> Option<nat>
    decreases locales.len() - i,
{
    if i < 0 || i >= locales.len() {
        None
    } else if locales[i] == part {
        Some(i as nat)
    } else {
        rank_from(locales, part, i + 1)
    }
}

/// Records `key=value` for a localizable key. `Key[locale]` is kept when its
/// locale ranks at least as high as the best one seen; a key whose bracket
/// is not closed is ignored; the first unlocalized value is kept.
pub open spec fn localized_set(
    f: LocalizedModel,
    key: Seq<char>,
    value: Seq<char>,
    locales: Seq<Seq<char>>,
) -> LocalizedModel {
    let b = first_from(key, 0, '[');
    if b < key.len() {
        let c = first_from(key, b + 1, ']');
        if c >= key.len() {
            f
        } else {
            match rank_from(locales, key.subrange(b + 1, c), 0) {
                Some(rank) => if f.localized is None || rank <= localized_rank(f) {
                    LocalizedModel { localized: Some((rank, value)), ..f }
                } else {
                    f
                },
                None => f,
            }
        }
    } else if f.base is None {
        LocalizedModel { base: Some(value), ..f }
    } else {
        f
    }
}

/// The rank of the locale of the current localized value.
pub open spec fn localized_rank(f: LocalizedModel) -> nat {
    match f.localized {
        Some((rank, _)) => rank,
        None => 0,
    }
}

/// The localized value if any locale matched, else the unlocalized one.
pub open spec fn localized_value(f: LocalizedModel) -> Option<Seq<char>> {
    match f.localized {
        Some((_, v)) => Some(v),
        None => f.base,
    }
}

pub open spec fn opt_string_view(o: Option<String>) -> Option<Seq<char>> {
    match o {
        Some(s) => Some(s@),
        None => None,
    }
}

/// A localizable desktop-entry key being collected.
pub struct LocalizedField {
    pub base: Option<String>,
    pub localized: Option<(usize, String)>,
}

impl View for LocalizedField {
    type V = LocalizedModel;

    open spec fn view(&self) -> LocalizedModel {
        LocalizedModel {
            base: opt_string_view(self.base),
            localized: match self.localized {
                Some((rank, v)) => Some((rank as nat, v@)),
                None => None,
            },
        }
    }
}

fn locale_rank(locales: &Vec<String>, part: &Vec<char>, start: usize, end: usize) -> (r: Option<
    usize,
>)
    requires
        start <= end <= part@.len(),
    ensures
        match r {
            Some(rank) => rank_from(
                strings_view(locales@),
                part@.subrange(start as int, end as int),
                0,
            ) == Some(rank as nat),
            None => rank_from(strings_view(locales@), part@.subrange(start as int, end as int), 0)
                is None,
        },
{
    let ghost loc = strings_view(locales@);
    let ghost p = part@.subrange(start as int, end as int);
    let mut i: usize = 0;
    while i < locales.len()
        invariant
            i <= locales@.len(),
            loc == strings_view(locales@),
            p == part@.subrange(start as int, end as int),
            start <= end <= part@.len(),
            rank_from(loc, p, 0) == rank_from(loc, p, i as int),
        decreases locales@.len() - i,
    {
        if range_eq(part, start, end, locales[i].as_str()) {
            return Some(i);
        }
        i += 1;
    }
    None
}

impl LocalizedField {
    pub fn new() -> (f: LocalizedField)
        ensures
            f@ == (LocalizedModel { base: None, localized: None }),
    {
        LocalizedField { base: None, localized: None }
    }

    /// Records one `key=value` line of this field.
    pub fn set(&mut self, key: &Vec<char>, value: &Vec<char>, locales: &Vec<String>)
        ensures
            final(self)@ == localized_set(old(self)@, key@, value@, strings_view(locales@)),
    {
        let n = key.len();
        assert(key@.take(n as int) =~= key@);
        let b = find_char(key, 0, n, '[');
        if b < n {
            let c = find_char(key, b + 1, n, ']');
            if c >= n {
                return;
            }
            assert(key@.subrange((b + 1) as int, c as int) == key@.subrange(b + 1, c as int));
            match locale_rank(locales, key, b + 1, c) {
                Some(rank) => {
                    let replace = match &self.localized {
                        None => true,
                        Some((current, _)) => rank <= *current,
                    };
                    if replace {
                        self.localized = Some((rank, string_from_chars(value.as_slice())));
                    }
                },
                None => {},
            }
        } else if self.base.is_none() {
            self.base = Some(string_from_chars(value.as_slice()));
        }
    }

    /// The value to use for this field.
    pub fn into_value(self) -> (v: Option<String>)
        ensures
            opt_string_view(v) == localized_value(self@),
    {
        match self.localized {
            Some((_, value)) => Some(value),
            None => self.base,
        }
    }
}

} // verus!
