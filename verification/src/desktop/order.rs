//! The order in which the launcher lists applications.
use crate::desktop::app::{corrected_score_spec, App, AppModel};
use crate::text::{
    all_ascii, ascii_lower, ascii_lower_seq, chars_of, eq_ignore_ascii_case, lowercase,
    to_lowercase,
};
use vstd::prelude::*;

verus! {

/// `x` comes before `y` by code point.
pub open spec fn char_before(x: char, y: char) -> bool {
    (x as u32) < (y as u32)
}

/// Lexicographic order on character sequences by code point (the order of
/// `str`): -1, 0 or 1.
pub open spec fn lex_order(a: Seq<char>, b: Seq<char>) -> int
    decreases a.len(),
{
    if a.len() == 0 && b.len() == 0 {
        0
    } else if a.len() == 0 {
        -1
    } else if b.len() == 0 {
        1
    } else if a[0] != b[0] {
        if char_before(a[0], b[0]) {
            -1
        } else {
            1
        }
    } else {
        lex_order(a.skip(1), b.skip(1))
    }
}

/// How two apps are listed relative to each other (-1: `a` first, 1: `b`
/// first, 0: tied): pinned apps first, then the higher corrected score,
/// then the lowercased names in order.
pub open spec fn app_order(a: AppModel, b: AppModel) -> int {
    if a.pinned && !b.pinned {
        -1
    } else if !a.pinned && b.pinned {
        1
    } else {
        let sa = corrected_score_spec(a.score, a.history);
        let sb = corrected_score_spec(b.score, b.history);
        if sa > sb {
            -1
        } else if sa < sb {
            1
        } else {
            lex_order(lowercase(a.name), lowercase(b.name))
        }
    }
}

/// Two apps count as equal: same pin state, same corrected score, and
/// names equal ignoring ASCII case.
pub open spec fn same_rank_spec(a: AppModel, b: AppModel) -> bool {
    a.pinned == b.pinned && corrected_score_spec(a.score, a.history) == corrected_score_spec(
        b.score,
        b.history,
    ) && eq_ignore_ascii_case(a.name, b.name)
}

fn code_before(x: char, y: char) -> (r: bool)
    ensures
        r == char_before(x, y),
{
    (x as u32) < (y as u32)
}

fn lex_order_exec(a: &Vec<char>, b: &Vec<char>) -> (r: i8)
    ensures
        r == lex_order(a@, b@),
{
    let mut i: usize = 0;
    assert(a@.skip(0) =~= a@);
    assert(b@.skip(0) =~= b@);
    loop
        invariant
            i <= a@.len(),
            i <= b@.len(),
            lex_order(a@, b@) == lex_order(a@.skip(i as int), b@.skip(i as int)),
        decreases a@.len() - i,
    {
        if i == a.len() && i == b.len() {
            return 0;
        } else if i == a.len() {
            return -1;
        } else if i == b.len() {
            return 1;
        }
        assert(a@.skip(i as int)[0] == a@[i as int]);
        assert(b@.skip(i as int)[0] == b@[i as int]);
        if a[i] != b[i] {
            if code_before(a[i], b[i]) {
                return -1;
            } else {
                return 1;
            }
        }
        assert(a@.skip(i as int).skip(1) =~= a@.skip(i + 1));
        assert(b@.skip(i as int).skip(1) =~= b@.skip(i + 1));
        i += 1;
    }
}

impl App {
    /// Where this app is listed relative to `other` (see [`app_order`]).
    pub fn compare(&self, other: &App) -> (r: std::cmp::Ordering)
        ensures
            match r {
                std::cmp::Ordering::Less => app_order(self@, other@) == -1,
                std::cmp::Ordering::Equal => app_order(self@, other@) == 0,
                std::cmp::Ordering::Greater => app_order(self@, other@) == 1,
            },
            (lowercase(self.name@) == lowercase(other.name@)) == eq_ignore_ascii_case(self.name@, other.name@)
                ==> ((r == std::cmp::Ordering::Equal) == same_rank_spec(self@, other@)),
            all_ascii(self.name@) && all_ascii(other.name@) ==> ((r == std::cmp::Ordering::Equal)
                == same_rank_spec(self@, other@)),
    {
        if self.pinned && !other.pinned {
            return std::cmp::Ordering::Less;
        }
        if !self.pinned && other.pinned {
            return std::cmp::Ordering::Greater;
        }
        let sa = self.corrected_score();
        let sb = other.corrected_score();
        if sa > sb {
            return std::cmp::Ordering::Less;
        }
        if sa < sb {
            return std::cmp::Ordering::Greater;
        }
        let la = chars_of(to_lowercase(self.name.as_str()).as_str());
        let lb = chars_of(to_lowercase(other.name.as_str()).as_str());
        let o = lex_order_exec(&la, &lb);
        proof {
            lemma_lex_antisymmetric(la@, lb@);
            if all_ascii(self.name@) && all_ascii(other.name@) {
                lemma_ascii_lower_equal(self.name@, other.name@);
            }
        }
        if o < 0 {
            std::cmp::Ordering::Less
        } else if o > 0 {
            std::cmp::Ordering::Greater
        } else {
            std::cmp::Ordering::Equal
        }
    }

    /// Whether the two apps count as equal (see [`same_rank_spec`]).
    pub fn same_rank(&self, other: &App) -> (r: bool)
        ensures
            r == same_rank_spec(self@, other@),
    {
        if self.pinned != other.pinned {
            return false;
        }
        if self.corrected_score() != other.corrected_score() {
            return false;
        }
        let a = chars_of(self.name.as_str());
        assert(a@.subrange(0, a@.len() as int) =~= a@);
        crate::text::range_eq_ignore_ascii_case(&a, 0, a.len(), other.name.as_str())
    }
}

/// Two texts lower to the same ASCII text exactly when they are equal
/// ignoring ASCII case.
proof fn lemma_ascii_lower_equal(a: Seq<char>, b: Seq<char>)
    ensures
        (ascii_lower_seq(a) == ascii_lower_seq(b)) == eq_ignore_ascii_case(a, b),
{
    if ascii_lower_seq(a) == ascii_lower_seq(b) {
        assert forall|i: int| 0 <= i < a.len() implies ascii_lower(#[trigger] a[i]) == ascii_lower(b[i]) by {
            assert(ascii_lower_seq(a)[i] == ascii_lower_seq(b)[i]);
        }
    }
    if eq_ignore_ascii_case(a, b) {
        assert(ascii_lower_seq(a) =~= ascii_lower_seq(b));
    }
}

proof fn lemma_lex_antisymmetric(a: Seq<char>, b: Seq<char>)
    ensures
        lex_order(a, b) == -lex_order(b, a),
        -1 <= lex_order(a, b) <= 1,
        lex_order(a, b) == 0 <==> a == b,
    decreases a.len(),
{
    if a.len() > 0 && b.len() > 0 && a[0] == b[0] {
        lemma_lex_antisymmetric(a.skip(1), b.skip(1));
        if a.skip(1) == b.skip(1) {
            assert(a =~= seq![a[0]] + a.skip(1));
            assert(b =~= seq![b[0]] + b.skip(1));
        }
    } else if a.len() == 0 && b.len() == 0 {
        assert(a =~= b);
    } else if a.len() > 0 && b.len() > 0 {
        vstd::utf8::char_u32_cast(a[0], a[0] as u32);
        vstd::utf8::char_u32_cast(b[0], b[0] as u32);
        assert((a[0] as u32) != (b[0] as u32));
    }
}

proof fn lemma_lex_transitive(a: Seq<char>, b: Seq<char>, c: Seq<char>)
    requires
        lex_order(a, b) <= 0,
        lex_order(b, c) <= 0,
    ensures
        lex_order(a, c) <= 0,
    decreases a.len(),
{
    lemma_lex_antisymmetric(a, b);
    lemma_lex_antisymmetric(b, c);
    if a.len() > 0 && b.len() > 0 && c.len() > 0 && a[0] == b[0] && b[0] == c[0] {
        lemma_lex_transitive(a.skip(1), b.skip(1), c.skip(1));
    }
}

/// The listing order ties two apps exactly when they count as equal,
/// wherever lowering the names (`str::to_lowercase`) and comparing them
/// ignoring ASCII case agree on whether the names match; they disagree
/// only on names that differ in non-ASCII case.
pub proof fn lemma_ties_are_equal_apps(a: AppModel, b: AppModel)
    requires
        (lowercase(a.name) == lowercase(b.name)) == eq_ignore_ascii_case(a.name, b.name),
    ensures
        (app_order(a, b) == 0) == same_rank_spec(a, b),
{
    lemma_lex_antisymmetric(lowercase(a.name), lowercase(b.name));
}

/// The listing order is a total preorder: reversing the arguments reverses
/// the answer, every app ties with itself, and "listed no later" chains.
pub proof fn lemma_app_order_is_total_preorder(a: AppModel, b: AppModel, c: AppModel)
    ensures
        app_order(a, b) == -app_order(b, a),
        app_order(a, a) == 0,
        -1 <= app_order(a, b) <= 1,
        app_order(a, b) <= 0 && app_order(b, c) <= 0 ==> app_order(a, c) <= 0,
{
    lemma_lex_antisymmetric(lowercase(a.name), lowercase(b.name));
    lemma_lex_antisymmetric(lowercase(a.name), lowercase(a.name));
    if app_order(a, b) <= 0 && app_order(b, c) <= 0 {
        let sa = corrected_score_spec(a.score, a.history);
        let sb = corrected_score_spec(b.score, b.history);
        let sc = corrected_score_spec(c.score, c.history);
        if a.pinned == b.pinned && b.pinned == c.pinned && sa == sb && sb == sc {
            lemma_lex_transitive(lowercase(a.name), lowercase(b.name), lowercase(c.name));
        }
    }
}

} // verus!
