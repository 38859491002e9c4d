//! Character-level text helpers shared by the parsers of this crate.
use vstd::prelude::*;

verus! {

/// Appends one character to a `String` (`String::push`).
#[verifier::external_body]
pub(crate) fn push_char(s: &mut String, c: char)
    ensures
        final(s)@ == old(s)@.push(c),
{
    s.push(c);
}

/// The characters of a string slice, in order.
pub fn chars_of(s: &str) -> (v: Vec<char>)
    ensures
        v@ == s@,
{
    let mut v: Vec<char> = Vec::new();
    for c in it: s.chars()
        invariant
            v@ == it.seq().take(it.index() as int),
            it.seq() == s@,
    {
        v.push(c);
    }
    v
}

/// Builds a `String` holding exactly the given characters.
pub fn string_from_chars(v: &[char]) -> (s: String)
    ensures
        s@ == v@,
{
    let mut s = String::new();
    for i in 0..v.len()
        invariant
            s@ == v@.take(i as int),
    {
        push_char(&mut s, v[i]);
        assert(v@.take(i + 1) == v@.take(i as int).push(v@[i as int]));
    }
    assert(v@.take(v@.len() as int) == v@);
    s
}

} // verus!

verus! {

/// Unicode `White_Space`: the characters that `char::is_whitespace` and
/// `str::trim` treat as whitespace.
pub open spec fn is_ws(c: char) -> bool {
    let u = c as u32;
    ||| 0x09 <= u <= 0x0d
    ||| u == 0x20
    ||| u == 0x85
    ||| u == 0xa0
    ||| u == 0x1680
    ||| 0x2000 <= u <= 0x200a
    ||| u == 0x2028
    ||| u == 0x2029
    ||| u == 0x202f
    ||| u == 0x205f
    ||| u == 0x3000
}

/// Whether `c` is Unicode whitespace.
pub fn is_whitespace(c: char) -> (b: bool)
    ensures
        b == is_ws(c),
{
    let u = c as u32;
    (0x09 <= u && u <= 0x0d) || u == 0x20 || u == 0x85 || u == 0xa0 || u == 0x1680 || (0x2000
        <= u && u <= 0x200a) || u == 0x2028 || u == 0x2029 || u == 0x202f || u == 0x205f || u
        == 0x3000
}

/// `p` occurs in `t` starting at index `pos`.
pub open spec fn has_prefix_at(t: Seq<char>, pos: int, p: Seq<char>) -> bool {
    0 <= pos && pos + p.len() <= t.len() && t.subrange(pos, pos + p.len()) == p
}

/// Whether `p` occurs in `t` at `pos`.
pub fn prefix_at(t: &Vec<char>, pos: usize, p: &Vec<char>) -> (b: bool)
    ensures
        b == has_prefix_at(t@, pos as int, p@),
{
    if pos > t.len() || p.len() > t.len() - pos {
        return false;
    }
    let mut i: usize = 0;
    while i < p.len()
        invariant
            pos + p@.len() <= t.len(),
            i <= p@.len(),
            forall|j: int| 0 <= j < i ==> t@[pos + j] == p@[j],
        decreases p@.len() - i,
    {
        if t[pos + i] != p[i] {
            assert(t@.subrange(pos as int, pos + p@.len())[i as int] != p@[i as int]);
            return false;
        }
        i += 1;
    }
    assert(t@.subrange(pos as int, pos + p@.len()) =~= p@);
    true
}

} // verus!

verus! {

/// Appends the characters of `s` to `out`.
pub fn extend_chars(out: &mut Vec<char>, s: &str)
    ensures
        final(out)@ == old(out)@ + s@,
{
    let mut v = chars_of(s);
    out.append(&mut v);
}

} // verus!

verus! {

/// The decimal digit character for `d < 10`.
pub open spec fn digit_char(d: nat) -> char {
    ((d + 48) as u32) as char
}

/// The shortest decimal representation of `n`.
pub open spec fn decimal(n: nat) -> Seq<char>
    decreases n,
{
    if n < 10 {
        seq![digit_char(n)]
    } else {
        decimal(n / 10).push(digit_char(n % 10))
    }
}

/// Formats `n` in decimal, as `n.to_string()` does.
pub fn u64_to_decimal(n: u64) -> (s: String)
    ensures
        s@ == decimal(n as nat),
{
    let mut digits: Vec<char> = Vec::new();
    let mut m = n;
    // Digits are collected least significant first.
    loop
        invariant_except_break
            m <= n,
            decimal(n as nat) == decimal(m as nat) + digits@.reverse(),
        ensures
            decimal(n as nat) == digits@.reverse(),
        decreases m,
    {
        let d = m % 10;
        let c = char_of_digit(d);
        if m < 10 {
            let ghost before = digits@;
            digits.push(c);
            assert(digits@.reverse() =~= seq![c] + before.reverse());
            break;
        }
        let ghost before = digits@;
        digits.push(c);
        assert(digits@.reverse() =~= seq![c] + before.reverse());
        assert(decimal(m as nat) == decimal((m / 10) as nat).push(digit_char((m % 10) as nat)));
        m = m / 10;
    }
    let mut out: Vec<char> = Vec::new();
    let mut i = digits.len();
    while i > 0
        invariant
            i <= digits@.len(),
            out@ == digits@.reverse().take(digits@.len() - i),
        decreases i,
    {
        i -= 1;
        out.push(digits[i]);
        assert(digits@.reverse().take(digits@.len() - i) =~= digits@.reverse().take(
            digits@.len() - i - 1,
        ).push(digits@[i as int]));
    }
    assert(digits@.reverse().take(digits@.len() as int) =~= digits@.reverse());
    string_from_chars(out.as_slice())
}

fn char_of_digit(d: u64) -> (c: char)
    requires
        d < 10,
    ensures
        c == digit_char(d as nat),
{
    let b = (d as u8) + 48;
    b as char
}

} // verus!

verus! {

/// `s` without its trailing Unicode whitespace.
pub open spec fn trim_end(s: Seq<char>) -> Seq<char>
    decreases s.len(),
{
    if s.len() > 0 && is_ws(s.last()) {
        trim_end(s.drop_last())
    } else {
        s
    }
}

/// `s` without its leading Unicode whitespace.
pub open spec fn trim_start(s: Seq<char>) -> Seq<char>
    decreases s.len(),
{
    if s.len() > 0 && is_ws(s[0]) {
        trim_start(s.drop_first())
    } else {
        s
    }
}

/// `s` without leading and trailing Unicode whitespace (`str::trim`).
pub open spec fn trim(s: Seq<char>) -> Seq<char> {
    trim_start(trim_end(s))
}

/// The end index of `s[..end]` once trailing whitespace is removed.
pub fn trim_end_len(s: &Vec<char>, end: usize) -> (n: usize)
    requires
        end <= s@.len(),
    ensures
        n <= end,
        s@.take(n as int) == trim_end(s@.take(end as int)),
    decreases end,
{
    if end > 0 && is_whitespace(s[end - 1]) {
        assert(s@.take(end as int).drop_last() =~= s@.take(end - 1));
        trim_end_len(s, end - 1)
    } else {
        end
    }
}

/// The start index of `s[start..end]` once leading whitespace is removed.
pub fn trim_start_index(s: &Vec<char>, start: usize, end: usize) -> (n: usize)
    requires
        start <= end <= s@.len(),
    ensures
        start <= n <= end,
        s@.subrange(n as int, end as int) == trim_start(s@.subrange(start as int, end as int)),
    decreases end - start,
{
    if start < end && is_whitespace(s[start]) {
        assert(s@.subrange(start as int, end as int).drop_first() =~= s@.subrange(
            start + 1,
            end as int,
        ));
        trim_start_index(s, start + 1, end)
    } else {
        start
    }
}

/// The bounds of `s[start..end]` once trimmed on both sides.
pub fn trim_bounds(s: &Vec<char>, start: usize, end: usize) -> (r: (usize, usize))
    requires
        start <= end <= s@.len(),
    ensures
        start <= r.0 <= r.1 <= end,
        s@.subrange(r.0 as int, r.1 as int) == trim(s@.subrange(start as int, end as int)),
{
    let sub = slice_vec(s, start, end);
    let e = trim_end_len(&sub, sub.len());
    let b = trim_start_index(&sub, 0, e);
    assert(sub@.take(sub@.len() as int) =~= sub@);
    assert(sub@.subrange(0, e as int) =~= sub@.take(e as int));
    assert(sub@.subrange(b as int, e as int) =~= s@.subrange(start + b, start + e));
    (start + b, start + e)
}

/// A copy of `s[start..end]`.
pub fn slice_vec(s: &Vec<char>, start: usize, end: usize) -> (r: Vec<char>)
    requires
        start <= end <= s@.len(),
    ensures
        r@ == s@.subrange(start as int, end as int),
{
    let mut r: Vec<char> = Vec::new();
    let mut i = start;
    while i < end
        invariant
            start <= i <= end,
            end <= s@.len(),
            r@ == s@.subrange(start as int, i as int),
        decreases end - i,
    {
        r.push(s[i]);
        assert(s@.subrange(start as int, i + 1) =~= s@.subrange(start as int, i as int).push(
            s@[i as int],
        ));
        i += 1;
    }
    r
}

/// The result of `String::from_utf8_lossy` on `bytes`.
pub uninterp spec fn utf8_lossy(bytes: Seq<u8>) -> Seq<char>;

/// `String::from_utf8_lossy`: decodes UTF-8, replacing invalid sequences with
/// U+FFFD; well-formed input decodes exactly.
#[verifier::external_body]
pub(crate) fn from_utf8_lossy(bytes: &[u8]) -> (s: String)
    ensures
        s@ == utf8_lossy(bytes@),
        vstd::utf8::valid_utf8(bytes@) ==> s@ == vstd::utf8::decode_utf8(bytes@),
{
    String::from_utf8_lossy(bytes).into_owned()
}

} // verus!

verus! {

/// The first index `j >= i` with `s[j] == c`, or `s.len()` when there is none.
pub open spec fn first_from(s: Seq<char>, i: int, c: char) -> int
    decreases s.len() - i,
{
    if i >= s.len() {
        s.len() as int
    } else if i >= 0 && s[i] == c {
        i
    } else {
        first_from(s, i + 1, c)
    }
}

pub proof fn lemma_first_from_bounds(s: Seq<char>, i: int, c: char)
    requires
        0 <= i,
    ensures
        i <= first_from(s, i, c) <= s.len() || (i > s.len() && first_from(s, i, c) == s.len()),
        first_from(s, i, c) < s.len() ==> s[first_from(s, i, c)] == c,
        forall|j: int| i <= j < first_from(s, i, c) ==> s[j] != c,
    decreases s.len() - i,
{
    if i < s.len() && s[i] != c {
        lemma_first_from_bounds(s, i + 1, c);
    }
}

/// The first index at or after `start` (and before `end`) that holds `c`,
/// or `end`.
pub fn find_char(s: &Vec<char>, start: usize, end: usize, c: char) -> (r: usize)
    requires
        start <= end <= s@.len(),
    ensures
        start <= r <= end,
        r < end ==> s@[r as int] == c,
        forall|j: int| start <= j < r ==> s@[j] != c,
        r == first_from(s@.take(end as int), start as int, c),
{
    let mut i = start;
    while i < end
        invariant
            start <= i <= end,
            end <= s@.len(),
            forall|j: int| start <= j < i ==> s@[j] != c,
            first_from(s@.take(end as int), start as int, c) == first_from(
                s@.take(end as int),
                i as int,
                c,
            ),
        decreases end - i,
    {
        if s[i] == c {
            return i;
        }
        i += 1;
    }
    i
}

/// `s[start..end]` equals the characters of `lit`.
pub fn range_eq(s: &Vec<char>, start: usize, end: usize, lit: &str) -> (b: bool)
    requires
        start <= end <= s@.len(),
    ensures
        b == (s@.subrange(start as int, end as int) == lit@),
{
    let l = chars_of(lit);
    if end - start != l.len() {
        return false;
    }
    let mut i: usize = 0;
    while i < l.len()
        invariant
            start <= end <= s@.len(),
            end - start == l@.len(),
            l@ == lit@,
            i <= l@.len(),
            forall|j: int| 0 <= j < i ==> s@[start + j] == l@[j],
        decreases l@.len() - i,
    {
        if s[start + i] != l[i] {
            assert(s@.subrange(start as int, end as int)[i as int] != l@[i as int]);
            return false;
        }
        i += 1;
    }
    assert(s@.subrange(start as int, end as int) =~= l@);
    true
}

/// ASCII lowercase of one character.
pub open spec fn ascii_lower(c: char) -> char {
    if 'A' <= c <= 'Z' {
        ((c as u32) + 32) as char
    } else {
        c
    }
}

/// `a.eq_ignore_ascii_case(b)`.
pub open spec fn eq_ignore_ascii_case(a: Seq<char>, b: Seq<char>) -> bool {
    a.len() == b.len() && forall|i: int| 0 <= i < a.len() ==> ascii_lower(#[trigger] a[i])
        == ascii_lower(b[i])
}

pub fn ascii_lower_char(c: char) -> (r: char)
    ensures
        r == ascii_lower(c),
{
    if 'A' <= c && c <= 'Z' {
        let u = (c as u32) + 32;
        assert(u < 0xd800);
        char_from_ascii_code(u)
    } else {
        c
    }
}

fn char_from_ascii_code(u: u32) -> (c: char)
    requires
        u < 128,
    ensures
        c == u as char,
{
    (u as u8) as char
}

/// `s[start..end]` equals `lit` ignoring ASCII case.
pub fn range_eq_ignore_ascii_case(s: &Vec<char>, start: usize, end: usize, lit: &str) -> (b: bool)
    requires
        start <= end <= s@.len(),
    ensures
        b == eq_ignore_ascii_case(s@.subrange(start as int, end as int), lit@),
{
    let l = chars_of(lit);
    if end - start != l.len() {
        return false;
    }
    let mut i: usize = 0;
    while i < l.len()
        invariant
            start <= end <= s@.len(),
            end - start == l@.len(),
            l@ == lit@,
            i <= l@.len(),
            forall|j: int| 0 <= j < i ==> ascii_lower(s@[start + j]) == ascii_lower(l@[j]),
        decreases l@.len() - i,
    {
        if ascii_lower_char(s[start + i]) != ascii_lower_char(l[i]) {
            assert(ascii_lower(s@.subrange(start as int, end as int)[i as int]) != ascii_lower(
                l@[i as int],
            ));
            return false;
        }
        i += 1;
    }
    assert forall|j: int| 0 <= j < l@.len() implies ascii_lower(
        #[trigger] s@.subrange(start as int, end as int)[j],
    ) == ascii_lower(l@[j]) by {
        assert(s@.subrange(start as int, end as int)[j] == s@[start + j]);
    }
    true
}

} // verus!

verus! {

/// A `String` holding `s[start..end]`.
pub fn string_from_range(s: &Vec<char>, start: usize, end: usize) -> (r: String)
    requires
        start <= end <= s@.len(),
    ensures
        r@ == s@.subrange(start as int, end as int),
{
    let v = slice_vec(s, start, end);
    string_from_chars(v.as_slice())
}

/// The character views of a sequence of strings.
pub open spec fn strings_view(v: Seq<String>) -> Seq<Seq<char>> {
    v.map_values(|s: String| s@)
}

pub proof fn lemma_strings_view_push(v: Seq<String>, s: String)
    ensures
        strings_view(v.push(s)) == strings_view(v).push(s@),
{
    assert(strings_view(v.push(s)) =~= strings_view(v).push(s@));
}

} // verus!

verus! {

/// Whether two character vectors are equal.
pub fn chars_eq(a: &Vec<char>, b: &Vec<char>) -> (r: bool)
    ensures
        r == (a@ == b@),
{
    if a.len() != b.len() {
        return false;
    }
    let mut i: usize = 0;
    while i < a.len()
        invariant
            a@.len() == b@.len(),
            i <= a@.len(),
            forall|j: int| 0 <= j < i ==> a@[j] == b@[j],
        decreases a@.len() - i,
    {
        if a[i] != b[i] {
            return false;
        }
        i += 1;
    }
    assert(a@ =~= b@);
    true
}

} // verus!

verus! {

/// What `str::to_lowercase` makes of `s` (Unicode lower case).
pub uninterp spec fn lowercase(s: Seq<char>) -> Seq<char>;

/// `s` holds only ASCII characters.
pub open spec fn all_ascii(s: Seq<char>) -> bool {
    forall|i: int| 0 <= i < s.len() ==> (#[trigger] s[i] as u32) < 128
}

/// ASCII lower case of every character of `s`.
pub open spec fn ascii_lower_seq(s: Seq<char>) -> Seq<char> {
    s.map_values(|c: char| ascii_lower(c))
}

/// `str::to_lowercase`. On ASCII text it lowers the letters `A`-`Z` and
/// keeps every other character; beyond ASCII the result is only named.
#[verifier::external_body]
pub(crate) fn to_lowercase(s: &str) -> (r: String)
    ensures
        r@ == lowercase(s@),
        all_ascii(s@) ==> r@ == ascii_lower_seq(s@),
{
    s.to_lowercase()
}

/// The characters of `value`, trimmed and then lowered.
pub fn lower_trimmed(value: &str) -> (r: Vec<char>)
    ensures
        r@ == lowercase(trim(value@)),
        all_ascii(trim(value@)) ==> r@ == ascii_lower_seq(trim(value@)),
{
    let c = chars_of(value);
    let (a, b) = trim_bounds(&c, 0, c.len());
    assert(c@.subrange(0, c@.len() as int) =~= c@);
    let t = string_from_range(&c, a, b);
    let l = to_lowercase(t.as_str());
    chars_of(l.as_str())
}

/// Whether the characters `v` spell `lit`.
pub fn vec_is(v: &Vec<char>, lit: &str) -> (r: bool)
    ensures
        r == (v@ == lit@),
{
    let l = chars_of(lit);
    chars_eq(v, &l)
}

/// `s` has no whitespace at either end, so trimming keeps it.
pub proof fn lemma_trim_keeps(s: Seq<char>)
    requires
        s.len() > 0,
        !is_ws(s[0]),
        !is_ws(s.last()),
    ensures
        trim(s) == s,
{
    assert(trim_end(s) == s);
    assert(trim_start(s) == s);
}

/// Lowering ASCII text without upper-case letters keeps it.
pub proof fn lemma_ascii_lower_keeps(s: Seq<char>)
    requires
        forall|i: int| 0 <= i < s.len() ==> !('A' <= #[trigger] s[i] <= 'Z'),
    ensures
        ascii_lower_seq(s) == s,
{
    assert(ascii_lower_seq(s) =~= s);
}

} // verus!

verus! {

/// The pieces joined by `sep`.
pub open spec fn join_with(ws: Seq<Seq<char>>, sep: Seq<char>) -> Seq<char>
    decreases ws.len(),
{
    if ws.len() == 0 {
        seq![]
    } else if ws.len() == 1 {
        ws[0]
    } else {
        join_with(ws.drop_last(), sep) + sep + ws.last()
    }
}

/// Joins the strings of `v` with `sep` between neighbours.
pub fn join_strings(v: &Vec<String>, sep: &str) -> (r: String)
    ensures
        r@ == join_with(strings_view(v@), sep@),
{
    let mut out = String::new();
    let mut i: usize = 0;
    while i < v.len()
        invariant
            i <= v@.len(),
            out@ == join_with(strings_view(v@.take(i as int)), sep@),
        decreases v@.len() - i,
    {
        let ghost before = strings_view(v@.take(i as int));
        if i > 0 {
            out.append(sep);
        }
        out.append(v[i].as_str());
        assert(strings_view(v@.take(i + 1)).drop_last() =~= before);
        assert(strings_view(v@.take(i + 1)).last() == v@[i as int]@);
        i += 1;
    }
    assert(v@.take(v@.len() as int) =~= v@);
    out
}

/// `s` starts with `p`.
pub open spec fn starts_with(s: Seq<char>, p: Seq<char>) -> bool {
    p.len() <= s.len() && s.take(p.len() as int) == p
}

/// Whether `s` starts with `p`.
pub fn str_starts_with(s: &str, p: &str) -> (b: bool)
    ensures
        b == starts_with(s@, p@),
{
    let c = chars_of(s);
    let q = chars_of(p);
    let r = prefix_at(&c, 0, &q);
    assert(c@.subrange(0, q@.len() as int) =~= c@.take(q@.len() as int));
    r
}

/// At most the first `n` characters of `s`.
pub open spec fn take_chars(s: Seq<char>, n: nat) -> Seq<char> {
    if s.len() <= n {
        s
    } else {
        s.take(n as int)
    }
}

/// The first `n` characters of `s` (all of it when shorter).
pub fn prefix_chars(s: &str, n: usize) -> (r: String)
    ensures
        r@ == take_chars(s@, n as nat),
{
    let c = chars_of(s);
    let k = if c.len() <= n {
        c.len()
    } else {
        n
    };
    assert(c@.subrange(0, c@.len() as int) =~= c@);
    assert(c@.subrange(0, k as int) =~= c@.take(k as int));
    string_from_range(&c, 0, k)
}

} // verus!

verus! {

/// The value of a hexadecimal digit, or -1.
pub open spec fn digit_value(c: char) -> int {
    if '0' <= c <= '9' {
        c as int - '0' as int
    } else if 'a' <= c <= 'f' {
        c as int - 'a' as int + 10
    } else if 'A' <= c <= 'F' {
        c as int - 'A' as int + 10
    } else {
        -1
    }
}

/// Every character of `s` is a digit in `base`.
pub open spec fn all_digits(s: Seq<char>, base: int) -> bool {
    forall|i: int| 0 <= i < s.len() ==> 0 <= #[trigger] digit_value(s[i]) < base
}

/// The number that the digits `s` write in `base`.
pub open spec fn digits_value(s: Seq<char>, base: int) -> int
    decreases s.len(),
{
    if s.len() == 0 {
        0
    } else {
        digits_value(s.drop_last(), base) * base + digit_value(s.last())
    }
}

/// Digits never lose value when more digits follow.
pub proof fn lemma_digits_prefix(s: Seq<char>, k: int, base: int)
    requires
        0 <= k <= s.len(),
        base == 10 || base == 16,
        all_digits(s, base),
    ensures
        0 <= digits_value(s.take(k), base) <= digits_value(s, base),
    decreases s.len(),
{
    if s.len() == 0 {
        assert(s.take(k) =~= s);
    } else {
        let p = s.drop_last();
        assert(all_digits(p, base)) by {
            assert forall|i: int| 0 <= i < p.len() implies 0 <= #[trigger] digit_value(p[i])
                < base by {
                assert(p[i] == s[i]);
            }
        }
        lemma_digits_prefix(p, p.len() as int, base);
        assert(p.take(p.len() as int) =~= p);
        let d = digit_value(s[s.len() - 1]);
        assert(0 <= d);
        if base == 10 {
            assert(digits_value(s, base) == digits_value(p, base) * 10 + d);
        } else {
            assert(digits_value(s, base) == digits_value(p, base) * 16 + d);
        }
        if k < s.len() {
            lemma_digits_prefix(p, k, base);
            assert(p.take(k) =~= s.take(k));
        } else {
            assert(s.take(k) =~= s);
        }
    }
}

} // verus!

verus! {

/// `s` without one leading `+`.
pub open spec fn unsigned_body(s: Seq<char>) -> Seq<char> {
    if s.len() > 0 && s[0] == '+' {
        s.skip(1)
    } else {
        s
    }
}

/// What `str::parse` gives for an unsigned integer type whose largest
/// value is `max`: decimal digits after an optional `+`, nothing else.
pub open spec fn parse_unsigned_spec(s: Seq<char>, max: int) -> Option<int> {
    let b = unsigned_body(s);
    if b.len() > 0 && all_digits(b, 10) && digits_value(b, 10) <= max {
        Some(digits_value(b, 10))
    } else {
        None
    }
}

/// What `str::parse` gives for a signed integer type with range
/// `min..=max`: an optional sign, then decimal digits.
pub open spec fn parse_signed_spec(s: Seq<char>, min: int, max: int) -> Option<int> {
    if s.len() > 0 && s[0] == '-' {
        let b = s.skip(1);
        if b.len() > 0 && all_digits(b, 10) && -digits_value(b, 10) >= min {
            Some(-digits_value(b, 10))
        } else {
            None
        }
    } else {
        parse_unsigned_spec(s, max)
    }
}

/// The decimal value of `s[a..b]` when it is all digits and at most `max`.
fn decimal_value(s: &Vec<char>, a: usize, b: usize, max: u64) -> (r: Option<u64>)
    requires
        a <= b <= s@.len(),
    ensures
        match r {
            Some(v) => all_digits(s@.subrange(a as int, b as int), 10) && digits_value(
                s@.subrange(a as int, b as int),
                10,
            ) == v && v <= max,
            None => !(all_digits(s@.subrange(a as int, b as int), 10) && digits_value(
                s@.subrange(a as int, b as int),
                10,
            ) <= max),
        },
{
    let ghost t = s@.subrange(a as int, b as int);
    let mut acc: u64 = 0;
    let mut k = a;
    assert(t.take(0) =~= Seq::<char>::empty());
    while k < b
        invariant
            a <= k <= b <= s@.len(),
            t == s@.subrange(a as int, b as int),
            acc == digits_value(t.take(k - a), 10),
            acc <= max,
            all_digits(t.take(k - a), 10),
        decreases b - k,
    {
        let c = s[k];
        assert(t[k - a] == s@[k as int]);
        if !('0' <= c && c <= '9') {
            assert(!(0 <= digit_value(t[k - a]) < 10));
            return None;
        }
        let d = (c as u32 - '0' as u32) as u64;
        let ghost prefix = t.take(k - a);
        assert(t.take(k - a + 1).drop_last() =~= prefix);
        assert(t.take(k - a + 1).last() == t[k - a]);
        let ghost next = acc * 10 + d;
        assert(next == digits_value(t.take(k - a + 1), 10));
        assert(all_digits(t.take(k - a + 1), 10)) by {
            assert forall|i: int| 0 <= i < t.take(k - a + 1).len() implies 0 <= #[trigger] digit_value(
                t.take(k - a + 1)[i],
            ) < 10 by {
                if i < k - a {
                    assert(t.take(k - a + 1)[i] == prefix[i]);
                }
            }
        }
        let grown = match acc.checked_mul(10) {
            Some(m) => m.checked_add(d),
            None => None,
        };
        match grown {
            Some(g) if g <= max => {
                acc = g;
            },
            _ => {
                proof {
                    if all_digits(t, 10) {
                        lemma_digits_prefix(t, k - a + 1, 10);
                    }
                }
                return None;
            },
        }
        k += 1;
    }
    assert(t.take(b - a) =~= t);
    Some(acc)
}

/// Parses an unsigned decimal integer no larger than `max`.
pub fn parse_unsigned(value: &str, max: u64) -> (r: Option<u64>)
    ensures
        match r {
            Some(v) => parse_unsigned_spec(value@, max as int) == Some(v as int),
            None => parse_unsigned_spec(value@, max as int) is None,
        },
{
    let s = chars_of(value);
    let n = s.len();
    let start: usize = if n > 0 && s[0] == '+' {
        1
    } else {
        0
    };
    assert(s@.subrange(start as int, n as int) =~= unsigned_body(s@));
    if start == n {
        return None;
    }
    decimal_value(&s, start, n, max)
}

/// Parses a signed decimal integer in `-min_abs..=max`.
pub fn parse_signed(value: &str, min_abs: u64, max: u64) -> (r: Option<i64>)
    requires
        max < 0x8000_0000_0000_0000,
        min_abs < 0x8000_0000_0000_0000,
    ensures
        match r {
            Some(v) => parse_signed_spec(value@, -(min_abs as int), max as int) == Some(v as int),
            None => parse_signed_spec(value@, -(min_abs as int), max as int) is None,
        },
{
    let s = chars_of(value);
    let n = s.len();
    if n > 0 && s[0] == '-' {
        assert(s@.subrange(1, n as int) =~= s@.skip(1));
        if n == 1 {
            return None;
        }
        match decimal_value(&s, 1, n, min_abs) {
            Some(v) => {
                assert(v <= min_abs);
                Some(0i64 - v as i64)
            },
            None => None,
        }
    } else {
        match parse_unsigned(value, max) {
            Some(v) => Some(v as i64),
            None => None,
        }
    }
}

/// What `bool::from_str` gives: exactly `true` or `false`.
pub open spec fn parse_bool_spec(s: Seq<char>) -> Option<bool> {
    if s == "true"@ {
        Some(true)
    } else if s == "false"@ {
        Some(false)
    } else {
        None
    }
}

/// Parses `true` or `false`.
pub fn parse_bool(value: &str) -> (r: Option<bool>)
    ensures
        r == parse_bool_spec(value@),
{
    let s = chars_of(value);
    if vec_is(&s, "true") {
        Some(true)
    } else if vec_is(&s, "false") {
        Some(false)
    } else {
        None
    }
}

/// `String::from_utf8`: succeeds exactly on well-formed UTF-8 and then
/// holds the decoded characters.
#[verifier::external_body]
pub(crate) fn from_utf8(bytes: Vec<u8>) -> (r: Option<String>)
    ensures
        match r {
            Some(s) => vstd::utf8::valid_utf8(bytes@) && s@ == vstd::utf8::decode_utf8(bytes@),
            None => !vstd::utf8::valid_utf8(bytes@),
        },
{
    String::from_utf8(bytes).ok()
}

/// `needle` occurs in `hay` at some position.
pub open spec fn occurs_in(needle: Seq<char>, hay: Seq<char>) -> bool {
    exists|i: int| 0 <= i <= hay.len() - needle.len() && #[trigger] hay.subrange(i, i + needle.len()) == needle
}

/// Whether `needle` occurs in `hay`.
pub fn contains_chars(hay: &Vec<char>, needle: &Vec<char>) -> (r: bool)
    ensures
        r == occurs_in(needle@, hay@),
{
    if needle.len() > hay.len() {
        return false;
    }
    let last = hay.len() - needle.len();
    assert(hay@.len() <= usize::MAX);
    let mut i: usize = 0;
    loop
        invariant_except_break
            i <= last,
            last == hay@.len() - needle@.len(),
            needle@.len() <= hay@.len(),
            hay@.len() <= usize::MAX,
            forall|j: int| 0 <= j < i ==> #[trigger] hay@.subrange(j, j + needle@.len()) != needle@,
        ensures
            forall|j: int| 0 <= j <= last ==> #[trigger] hay@.subrange(j, j + needle@.len()) != needle@,
            last == hay@.len() - needle@.len(),
        decreases last - i,
    {
        let mut k: usize = 0;
        let mut same = true;
        while k < needle.len()
            invariant
                i <= last,
                last == hay@.len() - needle@.len(),
                needle@.len() <= hay@.len(),
                k <= needle@.len(),
                hay@.len() == last + needle@.len(),
                k < needle@.len() ==> i + k < hay@.len(),
                hay@.len() <= usize::MAX,
                same == (forall|m: int| 0 <= m < k ==> hay@[i + m] == needle@[m]),
            decreases needle@.len() - k,
        {
            assert(i + k < hay@.len());
            if hay[i + k] != needle[k] {
                same = false;
            }
            k += 1;
        }
        if same {
            assert(hay@.subrange(i as int, i + needle@.len()) =~= needle@);
            return true;
        }
        assert(hay@.subrange(i as int, i + needle@.len()) != needle@) by {
            let m = choose|m: int| 0 <= m < needle@.len() && hay@[i + m] != needle@[m];
            assert(hay@.subrange(i as int, i + needle@.len())[m] == hay@[i + m]);
        }
        if i == last {
            break;
        }
        i += 1;
    }
    false
}

} // verus!
