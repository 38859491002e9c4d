//! Columns of an input line: `--with-nth`, `--match-nth` and
//! `--accept-nth` pick 1-based columns, split on `--delimiter`.
use crate::desktop::entry::{pieces_from, split_trimmed};
use crate::text::{chars_of, join_strings, join_with, push_char, strings_view};
use vstd::prelude::*;

verus! {

/// The character that separates columns: the first of `delimiter`, or a
/// space when it is empty.
pub open spec fn delimiter_char(delimiter: Seq<char>) -> char {
    if delimiter.len() > 0 {
        delimiter[0]
    } else {
        ' '
    }
}

/// The columns of `line`: its non-empty pieces between separators, each
/// without surrounding whitespace.
pub open spec fn line_columns(line: Seq<char>, delimiter: Seq<char>) -> Seq<Seq<char>> {
    pieces_from(line, 0, delimiter_char(delimiter))
}

/// The columns named by `picks` (1-based), in the order of `picks`; a pick
/// outside the columns names nothing.
pub open spec fn picked_columns(columns: Seq<Seq<char>>, picks: Seq<usize>) -> Seq<Seq<char>>
    decreases picks.len(),
{
    if picks.len() == 0 {
        seq![]
    } else {
        let p = picks.last() as int;
        let before = picked_columns(columns, picks.drop_last());
        if 1 <= p <= columns.len() {
            before.push(columns[p - 1])
        } else {
            before
        }
    }
}

/// The picked columns of `line`, joined by the separator character.
pub open spec fn column_text(line: Seq<char>, delimiter: Seq<char>, picks: Seq<usize>) -> Seq<char> {
    join_with(picked_columns(line_columns(line, delimiter), picks), seq![delimiter_char(delimiter)])
}

/// The picked columns of `line` joined by the separator character (see
/// [`column_text`]).
pub fn select_columns(line: &str, delimiter: &str, picks: &Vec<usize>) -> (r: String)
    ensures
        r@ == column_text(line@, delimiter@, picks@),
{
    let d = chars_of(delimiter);
    let sep = if d.len() > 0 {
        d[0]
    } else {
        ' '
    };
    let chars = chars_of(line);
    let columns = split_trimmed(&chars, 0, chars.len(), sep);
    proof {
        assert(chars@.subrange(0, chars@.len() as int) =~= line@);
    }
    let mut picked: Vec<String> = Vec::new();
    let mut i: usize = 0;
    while i < picks.len()
        invariant
            i <= picks@.len(),
            strings_view(columns@) == line_columns(line@, delimiter@),
            strings_view(picked@) == picked_columns(line_columns(line@, delimiter@), picks@.take(i as int)),
        decreases picks@.len() - i,
    {
        let p = picks[i];
        let ghost before = picked@;
        assert(picks@.take(i + 1).drop_last() =~= picks@.take(i as int));
        if 1 <= p && p <= columns.len() {
            picked.push(columns[p - 1].clone());
            assert(strings_view(picked@) =~= strings_view(before).push(columns@[p - 1]@));
        }
        i += 1;
    }
    assert(picks@.take(picks@.len() as int) =~= picks@);
    let mut joiner = String::new();
    push_char(&mut joiner, sep);
    proof {
        assert(joiner@ =~= seq![delimiter_char(delimiter@)]);
    }
    join_strings(&picked, joiner.as_str())
}

} // verus!
