//! How the dmenu input panel shows the query.
use vstd::prelude::*;

verus! {

/// `s` repeated `n` times.
pub open spec fn repeated(s: Seq<char>, n: nat) -> Seq<char>
    decreases n,
{
    if n == 0 {
        seq![]
    } else {
        repeated(s, (n - 1) as nat) + s
    }
}

/// The query as shown: one mask per character in password mode, else the
/// query itself.
pub open spec fn shown_query(password_mode: bool, mask: Seq<char>, query: Seq<char>) -> Seq<char> {
    if password_mode {
        repeated(mask, query.len())
    } else {
        query
    }
}

/// The query as the input panel shows it (see [`shown_query`]).
pub fn display_query(password_mode: bool, password_character: &str, query: &str) -> (s: String)
    ensures
        s@ == shown_query(password_mode, password_character@, query@),
{
    if !password_mode {
        return query.to_owned();
    }
    let n = query.unicode_len();
    let mut out = String::new();
    let mut i: usize = 0;
    while i < n
        invariant
            i <= n,
            n == query@.len(),
            out@ == repeated(password_character@, i as nat),
        decreases n - i,
    {
        out.append(password_character);
        i += 1;
    }
    out
}

/// The title of the input panel: `Input` when only a prompt is shown,
/// `Filter` otherwise.
pub fn input_title(prompt_only: bool) -> (t: &'static str)
    ensures
        t@ == (if prompt_only {
            " Input "@
        } else {
            " Filter "@
        }),
{
    if prompt_only {
        " Input "
    } else {
        " Filter "
    }
}

} // verus!
