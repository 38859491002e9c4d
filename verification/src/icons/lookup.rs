//! Icon names and the choice among candidate icon files.
use crate::text::{
    chars_of, find_char, first_from, lemma_first_from_bounds, parse_unsigned,
    parse_unsigned_spec, range_eq, slice_vec, string_from_range,
};
use vstd::prelude::*;

verus! {

/// The file extensions of icons, in order of preference of lookup.
pub open spec fn icon_extensions() -> Seq<Seq<char>> {
    seq!["png"@, "svg"@, "svgz"@, "xpm"@]
}

/// What to do with the `Icon` value of a desktop entry.
pub enum IconRequest {
    /// An absolute path: used as it is if the file exists.
    Absolute(String),
    /// A relative path: never looked up.
    Rejected,
    /// An icon name (without a known extension) to look up in the themes.
    Named(String),
}

/// `s` ends with `p`.
pub open spec fn ends_with(s: Seq<char>, p: Seq<char>) -> bool {
    p.len() <= s.len() && s.subrange(s.len() - p.len(), s.len() as int) == p
}

/// `icon` without the first icon extension (with its dot) it ends with.
pub open spec fn stripped_icon_name(icon: Seq<char>) -> Seq<char> {
    if ends_with(icon, ".png"@) {
        icon.take(icon.len() - 4)
    } else if ends_with(icon, ".svg"@) {
        icon.take(icon.len() - 4)
    } else if ends_with(icon, ".svgz"@) {
        icon.take(icon.len() - 5)
    } else if ends_with(icon, ".xpm"@) {
        icon.take(icon.len() - 4)
    } else {
        icon
    }
}

fn ends_with_lit(c: &Vec<char>, lit: &str) -> (b: bool)
    ensures
        b == ends_with(c@, lit@),
{
    let l = chars_of(lit);
    if l.len() > c.len() {
        return false;
    }
    range_eq(c, c.len() - l.len(), c.len(), lit)
}

/// Removes a trailing `.png`, `.svg`, `.svgz` or `.xpm`.
pub fn strip_icon_extension(icon: &str) -> (r: String)
    ensures
        r@ == stripped_icon_name(icon@),
{
    let c = chars_of(icon);
    let n = c.len();
    let cut: usize = if ends_with_lit(&c, ".png") {
        4
    } else if ends_with_lit(&c, ".svg") {
        4
    } else if ends_with_lit(&c, ".svgz") {
        5
    } else if ends_with_lit(&c, ".xpm") {
        4
    } else {
        0
    };
    proof {
        reveal_strlit(".png");
        reveal_strlit(".svg");
        reveal_strlit(".svgz");
        reveal_strlit(".xpm");
    }
    assert(c@.subrange(0, n - cut) =~= c@.take(n - cut));
    string_from_range(&c, 0, n - cut)
}

/// The request for an `Icon` value: a path starting with `/` is absolute;
/// any other value with `/` or `\` is rejected; the rest names an icon.
pub open spec fn icon_request_of(icon: Seq<char>) -> (int, Seq<char>) {
    if icon.len() > 0 && icon[0] == '/' {
        (0, icon)
    } else if icon.contains('/') || icon.contains('\\') {
        (1, seq![])
    } else {
        (2, stripped_icon_name(icon))
    }
}

pub open spec fn request_view(r: IconRequest) -> (int, Seq<char>) {
    match r {
        IconRequest::Absolute(p) => (0, p@),
        IconRequest::Rejected => (1, seq![]),
        IconRequest::Named(n) => (2, n@),
    }
}

/// Classifies an `Icon` value (see [`icon_request_of`]).
pub fn icon_request(icon: &str) -> (r: IconRequest)
    ensures
        request_view(r) == icon_request_of(icon@),
{
    let c = chars_of(icon);
    let n = c.len();
    if n > 0 && c[0] == '/' {
        return IconRequest::Absolute(icon.to_owned());
    }
    assert(c@.take(n as int) =~= c@);
    let slash = find_char(&c, 0, n, '/');
    let backslash = find_char(&c, 0, n, '\\');
    if slash < n || backslash < n {
        return IconRequest::Rejected;
    }
    assert(!icon@.contains('/'));
    assert(!icon@.contains('\\'));
    IconRequest::Named(strip_icon_extension(icon))
}

/// The index of the last `ch` among the first `i` characters of `s`, or -1.
pub open spec fn last_index(s: Seq<char>, i: int, ch: char) -> int
    decreases i,
{
    if i <= 0 || i > s.len() {
        -1
    } else if s[i - 1] == ch {
        i - 1
    } else {
        last_index(s, i - 1, ch)
    }
}

proof fn lemma_last_index_bounds(s: Seq<char>, i: int, ch: char)
    requires
        0 <= i <= s.len(),
    ensures
        -1 <= last_index(s, i, ch) < i,
    decreases i,
{
    if i > 0 && s[i - 1] != ch {
        lemma_last_index_bounds(s, i - 1, ch);
    }
}

fn find_last(c: &Vec<char>, ch: char) -> (r: Option<usize>)
    ensures
        match r {
            Some(k) => k == last_index(c@, c@.len() as int, ch) && k < c@.len(),
            None => last_index(c@, c@.len() as int, ch) == -1,
        },
{
    let mut i = c.len();
    while i > 0 && c[i - 1] != ch
        invariant
            i <= c@.len(),
            last_index(c@, c@.len() as int, ch) == last_index(c@, i as int, ch),
        decreases i,
    {
        i -= 1;
    }
    if i == 0 {
        None
    } else {
        Some(i - 1)
    }
}

/// The part of a path after its last `/`.
pub open spec fn file_name_of(path: Seq<char>) -> Seq<char> {
    path.subrange(last_index(path, path.len() as int, '/') + 1, path.len() as int)
}

/// The stem and extension of a file name: split at the last `.`, unless
/// that dot is the first character or there is none.
pub open spec fn stem_and_extension(name: Seq<char>) -> (Seq<char>, Option<Seq<char>>) {
    let d = last_index(name, name.len() as int, '.');
    if d <= 0 {
        (name, None)
    } else {
        (name.take(d), Some(name.subrange(d + 1, name.len() as int)))
    }
}

pub open spec fn file_stem_of(path: Seq<char>) -> Seq<char> {
    stem_and_extension(file_name_of(path)).0
}

pub open spec fn extension_of(path: Seq<char>) -> Option<Seq<char>> {
    stem_and_extension(file_name_of(path)).1
}

/// The stem of the file a path names, and its extension if it has one.
fn file_parts(path: &str) -> (r: (Vec<char>, Option<Vec<char>>))
    ensures
        r.0@ == file_stem_of(path@),
        match r.1 {
            Some(e) => extension_of(path@) == Some(e@),
            None => extension_of(path@) is None,
        },
{
    let c = chars_of(path);
    let start: usize = match find_last(&c, '/') {
        Some(k) => k + 1,
        None => 0,
    };
    let name = slice_vec(&c, start, c.len());
    assert(name@ == file_name_of(path@));
    match find_last(&name, '.') {
        Some(d) => {
            if d == 0 {
                (name, None)
            } else {
                let stem = slice_vec(&name, 0, d);
                assert(stem@ =~= name@.take(d as int));
                let ext = slice_vec(&name, d + 1, name.len());
                (stem, Some(ext))
            }
        },
        None => (name, None),
    }
}

/// `e` is one of the icon file extensions.
pub open spec fn is_icon_extension(e: Seq<char>) -> bool {
    icon_extensions().contains(e)
}

fn chars_eq_lit(c: &Vec<char>, lit: &str) -> (b: bool)
    ensures
        b == (c@ == lit@),
{
    assert(c@.subrange(0, c@.len() as int) =~= c@);
    range_eq(c, 0, c.len(), lit)
}

fn is_icon_extension_exec(e: &Vec<char>) -> (b: bool)
    ensures
        b == is_icon_extension(e@),
{
    proof {
        reveal_strlit("png");
        reveal_strlit("svg");
        reveal_strlit("svgz");
        reveal_strlit("xpm");
        assert(icon_extensions()[0] == "png"@);
        assert(icon_extensions()[1] == "svg"@);
        assert(icon_extensions()[2] == "svgz"@);
        assert(icon_extensions()[3] == "xpm"@);
    }
    let b = chars_eq_lit(e, "png") || chars_eq_lit(e, "svg") || chars_eq_lit(e, "svgz")
        || chars_eq_lit(e, "xpm");
    proof {
        if is_icon_extension(e@) {
            let k = choose|k: int| 0 <= k < 4 && icon_extensions()[k] == e@;
            assert(0 <= k < 4);
        }
    }
    b
}

/// The file a path names is `icon` with one of the icon extensions.
pub open spec fn has_icon_name_spec(path: Seq<char>, icon: Seq<char>) -> bool {
    &&& file_stem_of(path) == icon
    &&& match extension_of(path) {
        Some(e) => is_icon_extension(e),
        None => false,
    }
}

/// Whether the file at `path` is named `icon` with an icon extension.
pub fn has_icon_name(path: &str, icon: &str) -> (b: bool)
    ensures
        b == has_icon_name_spec(path@, icon@),
{
    let (stem, ext) = file_parts(path);
    let icon_chars = chars_of(icon);
    if !crate::text::chars_eq(&stem, &icon_chars) {
        return false;
    }
    match ext {
        Some(e) => is_icon_extension_exec(&e),
        None => false,
    }
}

/// The rank of a file's extension among icon formats: PNG first, then
/// SVG (plain or compressed), then anything else.
pub open spec fn extension_rank_of(path: Seq<char>) -> u8 {
    match extension_of(path) {
        Some(e) => if e == "png"@ {
            0
        } else if e == "svg"@ || e == "svgz"@ {
            1
        } else {
            2
        },
        None => 2,
    }
}

/// The preference rank of the extension of the file at `path`.
pub fn extension_rank(path: &str) -> (r: u8)
    ensures
        r == extension_rank_of(path@),
{
    let (_stem, ext) = file_parts(path);
    match ext {
        Some(e) => {
            if chars_eq_lit(&e, "png") {
                0
            } else if chars_eq_lit(&e, "svg") || chars_eq_lit(&e, "svgz") {
                1
            } else {
                2
            }
        },
        None => 2,
    }
}

/// The size a directory name such as `48x48` or `64x64@2` gives: the
/// number before the first `x`.
pub open spec fn directory_size_of(component: Seq<char>) -> Option<int> {
    parse_unsigned_spec(component.take(first_from(component, 0, 'x')), 0xffff)
}

/// Reads the size out of a directory name such as `48x48`.
pub fn parse_directory_size(component: &str) -> (r: Option<u16>)
    ensures
        match r {
            Some(v) => directory_size_of(component@) == Some(v as int),
            None => directory_size_of(component@) is None,
        },
{
    let c = chars_of(component);
    let x = find_char(&c, 0, c.len(), 'x');
    assert(c@.take(c@.len() as int) =~= c@);
    let leading = string_from_range(&c, 0, x);
    assert(leading@ =~= component@.take(first_from(component@, 0, 'x')));
    match parse_unsigned(leading.as_str(), 0xffff) {
        Some(v) => Some(v as u16),
        None => None,
    }
}

/// The size given by the first `/`-separated part of `path`, from
/// position `start` on, that names one.
pub open spec fn first_directory_size(path: Seq<char>, start: int) -> Option<int>
    decreases path.len() - start,
{
    if start < 0 || start > path.len() {
        None
    } else {
        let end = first_from(path, start, '/');
        proof {
            lemma_first_from_bounds(path, start, '/');
        }
        match directory_size_of(path.subrange(start, end)) {
            Some(v) => Some(v),
            None => if end < path.len() {
                first_directory_size(path, end + 1)
            } else {
                None
            },
        }
    }
}

/// The distance of a scanned icon file from the requested size: that of
/// the first directory on its path that names a size, or half of
/// `u32::MAX` where none does.
pub open spec fn fallback_distance(path: Seq<char>, requested_size: u16) -> int {
    match first_directory_size(path, 0) {
        Some(v) => if v >= requested_size {
            v - requested_size
        } else {
            requested_size - v
        },
        None => 0x7fff_ffff,
    }
}

fn first_size_in_path(path: &str) -> (r: Option<u16>)
    ensures
        match r {
            Some(v) => first_directory_size(path@, 0) == Some(v as int),
            None => first_directory_size(path@, 0) is None,
        },
{
    let c = chars_of(path);
    let n = c.len();
    let mut start: usize = 0;
    while start <= n
        invariant
            start <= n + 1,
            n == c@.len(),
            c@ == path@,
            first_directory_size(path@, 0) == first_directory_size(path@, start as int),
        decreases n + 1 - start,
    {
        let end = find_char(&c, start, n, '/');
        assert(c@.take(n as int) =~= c@);
        proof {
            lemma_first_from_bounds(c@, start as int, '/');
        }
        let piece = string_from_range(&c, start, end);
        match parse_directory_size(piece.as_str()) {
            Some(v) => {
                return Some(v);
            },
            None => {
                if end == n {
                    return None;
                }
                start = end + 1;
            },
        }
    }
    None
}

/// A file that may be shown for an icon, with what ranks it.
pub struct IconCandidate {
    pub path: String,
    /// Distance from the requested size, and the directory kind's rank.
    pub directory_score: (u32, u8),
    /// The position of the icon root it was found under.
    pub root_rank: usize,
}

/// The ranking key of a candidate; smaller is better.
pub open spec fn candidate_score(c: IconCandidate) -> (u32, u8, usize, u8) {
    (c.directory_score.0, c.directory_score.1, c.root_rank, extension_rank_of(c.path@))
}

/// Lexicographic order on candidate scores.
pub open spec fn score_lt(a: (u32, u8, usize, u8), b: (u32, u8, usize, u8)) -> bool {
    ||| a.0 < b.0
    ||| a.0 == b.0 && a.1 < b.1
    ||| a.0 == b.0 && a.1 == b.1 && a.2 < b.2
    ||| a.0 == b.0 && a.1 == b.1 && a.2 == b.2 && a.3 < b.3
}

impl IconCandidate {
    /// A candidate found by scanning a theme: ranked after all declared
    /// directories of the same distance.
    pub fn from_fallback(path: String, requested_size: u16, root_rank: usize) -> (c: IconCandidate)
        ensures
            c.path@ == path@,
            c.directory_score.0 == fallback_distance(path@, requested_size),
            c.directory_score.1 == 3,
            c.root_rank == root_rank,
    {
        let distance: u32 = match first_size_in_path(path.as_str()) {
            Some(size) => {
                if size >= requested_size {
                    (size - requested_size) as u32
                } else {
                    (requested_size - size) as u32
                }
            },
            None => 0x7fff_ffff,
        };
        IconCandidate { path, directory_score: (distance, 3), root_rank }
    }

    /// The ranking key: distance, directory kind, root, extension.
    pub fn score(&self) -> (r: (u32, u8, usize, u8))
        ensures
            r == candidate_score(*self),
    {
        (self.directory_score.0, self.directory_score.1, self.root_rank, extension_rank(self.path.as_str()))
    }
}

fn score_less(a: (u32, u8, usize, u8), b: (u32, u8, usize, u8)) -> (r: bool)
    ensures
        r == score_lt(a, b),
{
    a.0 < b.0 || (a.0 == b.0 && (a.1 < b.1 || (a.1 == b.1 && (a.2 < b.2 || (a.2 == b.2
        && a.3 < b.3)))))
}

/// Index `i` holds the first of the best-scored candidates.
pub open spec fn is_first_best(cands: Seq<IconCandidate>, i: int) -> bool {
    &&& 0 <= i < cands.len()
    &&& forall|j: int| 0 <= j < i ==> score_lt(candidate_score(cands[i]), candidate_score(#[trigger] cands[j]))
    &&& forall|j: int| i < j < cands.len() ==> !score_lt(candidate_score(#[trigger] cands[j]), candidate_score(cands[i]))
}

/// The path of the best candidate: the lowest score, and among equal
/// scores the one found first.
pub fn best_candidate(candidates: Vec<IconCandidate>) -> (r: Option<String>)
    ensures
        match r {
            Some(p) => exists|i: int| is_first_best(candidates@, i) && p@ == #[trigger] candidates@[i].path@,
            None => candidates@.len() == 0,
        },
{
    if candidates.len() == 0 {
        return None;
    }
    let mut best: usize = 0;
    let mut best_score = candidates[0].score();
    let mut i: usize = 1;
    while i < candidates.len()
        invariant
            0 <= best < i <= candidates@.len(),
            best_score == candidate_score(candidates@[best as int]),
            forall|j: int| 0 <= j < best ==> score_lt(best_score, candidate_score(#[trigger] candidates@[j])),
            forall|j: int| best < j < i ==> !score_lt(candidate_score(#[trigger] candidates@[j]), best_score),
        decreases candidates@.len() - i,
    {
        let s = candidates[i].score();
        if score_less(s, best_score) {
            best = i;
            best_score = s;
        }
        i += 1;
    }
    let ghost b = best as int;
    assert(is_first_best(candidates@, b));
    Some(candidates[best].path.clone())
}

} // verus!
