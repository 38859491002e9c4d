//! The order in which icon themes are searched: the chosen theme, the
//! themes it inherits from depth first, and `hicolor` last.
use crate::text::{chars_eq, chars_of, strings_view};
use vstd::prelude::*;

verus! {

/// At most this many themes are taken from the inheritance tree.
pub const MAX_THEME_DEPTH: usize = 16;

/// A theme and the themes its metadata says it inherits from.
pub struct ThemeParents {
    pub theme: String,
    pub inherits: Vec<String>,
}

pub open spec fn parents_view(t: Seq<ThemeParents>) -> Seq<(Seq<char>, Seq<Seq<char>>)> {
    t.map_values(|p: ThemeParents| (p.theme@, strings_view(p.inherits@)))
}

/// The parents of `theme`: those of its first entry in `table`, none when
/// it has no metadata.
pub open spec fn parents_of(table: Seq<(Seq<char>, Seq<Seq<char>>)>, theme: Seq<char>, i: int) -> Seq<
    Seq<char>,
>
    decreases table.len() - i,
{
    if i < 0 || i >= table.len() {
        seq![]
    } else if table[i].0 == theme {
        table[i].1
    } else {
        parents_of(table, theme, i + 1)
    }
}

/// `themes` after visiting `theme`: nothing changes once the cap is
/// reached or the theme was seen; otherwise the theme is added and its
/// parents are visited in order. `budget` bounds the nesting, which the
/// cap ends first.
pub open spec fn visit(
    table: Seq<(Seq<char>, Seq<Seq<char>>)>,
    theme: Seq<char>,
    themes: Seq<Seq<char>>,
    budget: nat,
) -> Seq<Seq<char>>
    decreases budget, 0nat,
{
    if themes.len() >= MAX_THEME_DEPTH || themes.contains(theme) || budget == 0 {
        themes
    } else {
        visit_all(table, parents_of(table, theme, 0), 0, themes.push(theme), (budget - 1) as nat)
    }
}

/// `themes` after visiting `list[k..]` in order.
pub open spec fn visit_all(
    table: Seq<(Seq<char>, Seq<Seq<char>>)>,
    list: Seq<Seq<char>>,
    k: int,
    themes: Seq<Seq<char>>,
    budget: nat,
) -> Seq<Seq<char>>
    decreases budget, list.len() - k,
{
    if k < 0 || k >= list.len() {
        themes
    } else {
        visit_all(table, list, k + 1, visit(table, list[k], themes, budget), budget)
    }
}

/// The themes to search, in order: the inheritance walk from `theme`, then
/// `hicolor` unless the walk already holds it.
pub open spec fn theme_chain_of(table: Seq<(Seq<char>, Seq<Seq<char>>)>, theme: Seq<char>) -> Seq<
    Seq<char>,
> {
    let walked = visit(table, theme, seq![], MAX_THEME_DEPTH as nat);
    if walked.contains("hicolor"@) {
        walked
    } else {
        walked.push("hicolor"@)
    }
}

fn contains_name(themes: &Vec<String>, name: &str) -> (r: bool)
    ensures
        r == strings_view(themes@).contains(name@),
{
    let n = chars_of(name);
    let mut i: usize = 0;
    while i < themes.len()
        invariant
            i <= themes@.len(),
            n@ == name@,
            forall|j: int| 0 <= j < i ==> themes@[j]@ != name@,
        decreases themes@.len() - i,
    {
        let t = chars_of(themes[i].as_str());
        if chars_eq(&t, &n) {
            assert(strings_view(themes@)[i as int] == name@);
            return true;
        }
        i += 1;
    }
    assert(!strings_view(themes@).contains(name@)) by {
        if strings_view(themes@).contains(name@) {
            let j = choose|j: int| 0 <= j < strings_view(themes@).len() && strings_view(themes@)[j] == name@;
            assert(themes@[j]@ == name@);
        }
    }
    false
}

fn find_parents<'a>(table: &'a Vec<ThemeParents>, theme: &str) -> (r: Option<&'a Vec<String>>)
    ensures
        match r {
            Some(v) => strings_view(v@) == parents_of(parents_view(table@), theme@, 0),
            None => parents_of(parents_view(table@), theme@, 0) == Seq::<Seq<char>>::empty(),
        },
{
    let ghost tv = parents_view(table@);
    let n = chars_of(theme);
    let mut i: usize = 0;
    while i < table.len()
        invariant
            i <= table@.len(),
            n@ == theme@,
            tv == parents_view(table@),
            parents_of(tv, theme@, 0) == parents_of(tv, theme@, i as int),
        decreases table@.len() - i,
    {
        let t = chars_of(table[i].theme.as_str());
        if chars_eq(&t, &n) {
            return Some(&table[i].inherits);
        }
        i += 1;
    }
    None
}

fn append_theme_subtree(
    table: &Vec<ThemeParents>,
    theme: &str,
    themes: &mut Vec<String>,
    budget: usize,
)
    ensures
        strings_view(final(themes)@) == visit(
            parents_view(table@),
            theme@,
            strings_view(old(themes)@),
            budget as nat,
        ),
    decreases budget, 0nat,
{
    if themes.len() >= MAX_THEME_DEPTH || contains_name(themes, theme) || budget == 0 {
        return ;
    }
    themes.push(theme.to_owned());
    assert(strings_view(themes@) =~= strings_view(old(themes)@).push(theme@));
    match find_parents(table, theme) {
        Some(parents) => {
            append_parents(table, parents, themes, budget - 1);
        },
        None => {
            let empty: Vec<String> = Vec::new();
            assert(strings_view(empty@) =~= Seq::<Seq<char>>::empty());
            append_parents(table, &empty, themes, budget - 1);
        },
    }
}

fn append_parents(table: &Vec<ThemeParents>, parents: &Vec<String>, themes: &mut Vec<String>, budget: usize)
    ensures
        strings_view(final(themes)@) == visit_all(
            parents_view(table@),
            strings_view(parents@),
            0,
            strings_view(old(themes)@),
            budget as nat,
        ),
    decreases budget, 1nat,
{
    let ghost tv = parents_view(table@);
    let ghost pv = strings_view(parents@);
    let mut k: usize = 0;
    while k < parents.len()
        invariant
            k <= parents@.len(),
            tv == parents_view(table@),
            pv == strings_view(parents@),
            visit_all(tv, pv, 0, strings_view(old(themes)@), budget as nat) == visit_all(
                tv,
                pv,
                k as int,
                strings_view(themes@),
                budget as nat,
            ),
        decreases parents@.len() - k,
    {
        append_theme_subtree(table, parents[k].as_str(), themes, budget);
        k += 1;
    }
}

/// The themes to search for an icon (see [`theme_chain_of`]); `table`
/// gives each theme's parents from its first metadata file.
pub fn theme_chain(table: &Vec<ThemeParents>, theme: &str) -> (r: Vec<String>)
    ensures
        strings_view(r@) == theme_chain_of(parents_view(table@), theme@),
{
    let mut themes: Vec<String> = Vec::new();
    assert(strings_view(themes@) =~= Seq::<Seq<char>>::empty());
    append_theme_subtree(table, theme, &mut themes, MAX_THEME_DEPTH);
    if !contains_name(&themes, "hicolor") {
        let ghost before = strings_view(themes@);
        themes.push(String::from_str("hicolor"));
        assert(strings_view(themes@) =~= before.push("hicolor"@));
    }
    themes
}

/// No theme occurs twice.
pub open spec fn no_repeats(themes: Seq<Seq<char>>) -> bool {
    forall|i: int, j: int| 0 <= i < j < themes.len() ==> themes[i] != themes[j]
}

proof fn lemma_visit_extends(
    table: Seq<(Seq<char>, Seq<Seq<char>>)>,
    theme: Seq<char>,
    themes: Seq<Seq<char>>,
    budget: nat,
)
    requires
        no_repeats(themes),
    ensures
        themes.is_prefix_of(visit(table, theme, themes, budget)),
        no_repeats(visit(table, theme, themes, budget)),
    decreases budget, 0nat,
{
    if !(themes.len() >= MAX_THEME_DEPTH || themes.contains(theme) || budget == 0) {
        let pushed = themes.push(theme);
        assert(no_repeats(pushed)) by {
            assert forall|i: int, j: int| 0 <= i < j < pushed.len() implies pushed[i] != pushed[j] by {
                if j == themes.len() {
                    assert(pushed[i] == themes[i]);
                    if themes[i] == theme {
                        assert(themes.contains(theme));
                    }
                }
            }
        }
        lemma_visit_all_extends(table, parents_of(table, theme, 0), 0, pushed, (budget - 1) as nat);
        assert(themes.is_prefix_of(pushed));
    }
}

proof fn lemma_visit_all_extends(
    table: Seq<(Seq<char>, Seq<Seq<char>>)>,
    list: Seq<Seq<char>>,
    k: int,
    themes: Seq<Seq<char>>,
    budget: nat,
)
    requires
        no_repeats(themes),
    ensures
        themes.is_prefix_of(visit_all(table, list, k, themes, budget)),
        no_repeats(visit_all(table, list, k, themes, budget)),
    decreases budget, list.len() - k,
{
    if 0 <= k < list.len() {
        let next = visit(table, list[k], themes, budget);
        lemma_visit_extends(table, list[k], themes, budget);
        lemma_visit_all_extends(table, list, k + 1, next, budget);
    }
}

/// The search order starts with the chosen theme, holds `hicolor`, and
/// names no theme twice.
pub proof fn lemma_theme_chain_shape(table: Seq<(Seq<char>, Seq<Seq<char>>)>, theme: Seq<char>)
    ensures
        theme_chain_of(table, theme).len() > 0,
        theme_chain_of(table, theme)[0] == theme,
        theme_chain_of(table, theme).contains("hicolor"@),
        no_repeats(theme_chain_of(table, theme)),
{
    let empty: Seq<Seq<char>> = seq![];
    let first = empty.push(theme);
    assert(no_repeats(first));
    lemma_visit_all_extends(table, parents_of(table, theme, 0), 0, first, (MAX_THEME_DEPTH - 1) as nat);
    let walked = visit(table, theme, empty, MAX_THEME_DEPTH as nat);
    assert(first.is_prefix_of(walked));
    assert(walked.subrange(0, 1) =~= first);
    assert(walked.subrange(0, 1)[0] == walked[0]);
    assert(walked[0] == theme);
    if !walked.contains("hicolor"@) {
        let full = walked.push("hicolor"@);
        assert(full[walked.len() as int] == "hicolor"@);
        assert forall|i: int, j: int| 0 <= i < j < full.len() implies full[i] != full[j] by {
            if j == walked.len() {
                assert(full[i] == walked[i]);
                if walked[i] == "hicolor"@ {
                    assert(walked.contains("hicolor"@));
                }
            }
        }
    }
}

} // verus!
