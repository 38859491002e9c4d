//! Clipboard HTML: recognising HTML MIME types, decoding their bytes by the
//! declared charset, and reducing markup to the text a reader sees.
use crate::desktop::entry::{collapse_spaces, collapse_whitespace, parse_semicolon_list, semicolon_list};
use crate::text::{
    all_digits, chars_of, from_utf8, digit_value, digits_value, eq_ignore_ascii_case, find_char, first_from,
    lemma_digits_prefix, lemma_first_from_bounds,
    range_eq_ignore_ascii_case, slice_vec, string_from_chars, strings_view, trim, trim_bounds,
};
use vstd::prelude::*;

verus! {

/// The MIME type without its parameters, trimmed.
pub open spec fn mime_essence(m: Seq<char>) -> Seq<char> {
    trim(m.take(first_from(m, 0, ';')))
}

/// `m` is `text/html`, in any ASCII case and with any parameters.
pub open spec fn is_html(m: Seq<char>) -> bool {
    eq_ignore_ascii_case(mime_essence(m), "text/html"@)
}

/// Whether `mime` names HTML content.
pub fn is_html_mime(mime: &str) -> (b: bool)
    ensures
        b == is_html(mime@),
{
    let m = chars_of(mime);
    let n = m.len();
    assert(m@.take(n as int) =~= m@);
    let semi = find_char(&m, 0, n, ';');
    let (a, b) = trim_bounds(&m, 0, semi);
    assert(m@.subrange(0, semi as int) =~= m@.take(semi as int));
    range_eq_ignore_ascii_case(&m, a, b, "text/html")
}

/// `v` without one pair of surrounding double quotes.
pub open spec fn unquote(v: Seq<char>) -> Seq<char> {
    if v.len() >= 2 && v[0] == '"' && v.last() == '"' {
        v.subrange(1, v.len() - 1)
    } else {
        v
    }
}

/// The value of the first `charset=` parameter among `params`.
pub open spec fn charset_in(params: Seq<Seq<char>>) -> Option<Seq<char>>
    decreases params.len(),
{
    if params.len() == 0 {
        None
    } else {
        let p = params[0];
        let eq = first_from(p, 0, '=');
        if eq < p.len() && eq_ignore_ascii_case(trim(p.take(eq)), "charset"@) {
            Some(unquote(trim(p.subrange(eq + 1, p.len() as int))))
        } else {
            charset_in(params.drop_first())
        }
    }
}

/// The charset that the MIME type `m` declares, if any.
pub open spec fn declared_charset(m: Seq<char>) -> Option<Seq<char>> {
    let semi = first_from(m, 0, ';');
    if semi >= m.len() {
        None
    } else {
        charset_in(semicolon_list(m.subrange(semi + 1, m.len() as int)))
    }
}

/// The character encodings that clipboard text is decoded from.
#[derive(Clone, Copy, Debug, PartialEq, Eq, Structural)]
pub enum TextEncoding {
    Utf8,
    Latin1,
    Unsupported,
}

/// The encoding that a charset name selects; no name means UTF-8.
pub open spec fn encoding_of(charset: Option<Seq<char>>) -> TextEncoding {
    match charset {
        None => TextEncoding::Utf8,
        Some(n) => if eq_ignore_ascii_case(n, "utf-8"@) || eq_ignore_ascii_case(n, "utf8"@) {
            TextEncoding::Utf8
        } else if eq_ignore_ascii_case(n, "iso-8859-1"@) || eq_ignore_ascii_case(n, "iso8859-1"@)
            || eq_ignore_ascii_case(n, "latin1"@) || eq_ignore_ascii_case(n, "latin-1"@)
            || eq_ignore_ascii_case(n, "l1"@) {
            TextEncoding::Latin1
        } else {
            TextEncoding::Unsupported
        },
    }
}

/// Each byte taken as the code point of the same value (ISO-8859-1).
pub open spec fn latin1(bytes: Seq<u8>) -> Seq<char> {
    bytes.map_values(|b: u8| (b as u32) as char)
}

/// The message for bytes that are not valid UTF-8.
pub open spec fn invalid_utf8_message() -> Seq<char> {
    "clipboard text is not valid UTF-8"@
}

/// The message for a charset that cannot be decoded.
pub open spec fn unsupported_charset_message(name: Seq<char>) -> Seq<char> {
    "unsupported text charset: "@ + name
}

/// The text that `bytes` of MIME type `m` hold, or why they cannot be read.
pub open spec fn decoded_text(m: Seq<char>, bytes: Seq<u8>) -> Result<Seq<char>, Seq<char>> {
    match encoding_of(declared_charset(m)) {
        TextEncoding::Utf8 => if vstd::utf8::valid_utf8(bytes) {
            Ok(vstd::utf8::decode_utf8(bytes))
        } else {
            Err(invalid_utf8_message())
        },
        TextEncoding::Latin1 => Ok(latin1(bytes)),
        TextEncoding::Unsupported => Err(
            unsupported_charset_message(declared_charset(m).unwrap()),
        ),
    }
}

/// The declared charset of `mime` (see [`declared_charset`]).
fn charset_of(mime: &Vec<char>) -> (r: Option<String>)
    ensures
        match r {
            Some(s) => declared_charset(mime@) == Some(s@),
            None => declared_charset(mime@) is None,
        },
{
    let n = mime.len();
    assert(mime@.take(n as int) =~= mime@);
    let semi = find_char(mime, 0, n, ';');
    if semi >= n {
        return None;
    }
    let params = parse_semicolon_list(mime, semi + 1, n);
    let ghost ps = strings_view(params@);
    assert(ps.skip(0) =~= ps);
    assert(declared_charset(mime@) == charset_in(ps));
    let mut i: usize = 0;
    while i < params.len()
        invariant
            i <= params@.len(),
            declared_charset(mime@) == charset_in(ps),
            ps == strings_view(params@),
            ps.len() == params@.len(),
            charset_in(ps) == charset_in(ps.skip(i as int)),
        decreases params@.len() - i,
    {
        let p = chars_of(params[i].as_str());
        let pn = p.len();
        assert(p@.take(pn as int) =~= p@);
        let eq = find_char(&p, 0, pn, '=');
        let ghost rest = ps.skip(i as int);
        assert(rest[0] == p@);
        assert(rest.drop_first() =~= ps.skip(i + 1));
        if eq < pn {
            let (ka, kb) = trim_bounds(&p, 0, eq);
            assert(p@.subrange(0, eq as int) =~= p@.take(eq as int));
            if range_eq_ignore_ascii_case(&p, ka, kb, "charset") {
                let (va, vb) = trim_bounds(&p, eq + 1, pn);
                let v = if vb - va >= 2 && p[va] == '"' && p[vb - 1] == '"' {
                    slice_vec(&p, va + 1, vb - 1)
                } else {
                    slice_vec(&p, va, vb)
                };
                assert(v@ =~= unquote(p@.subrange(va as int, vb as int)));
                return Some(string_from_chars(v.as_slice()));
            }
        }
        i += 1;
    }
    assert(ps.skip(i as int) =~= Seq::<Seq<char>>::empty());
    None
}

/// Which encoding the charset name selects.
fn encoding_named(charset: &Option<String>) -> (e: TextEncoding)
    ensures
        e == encoding_of(
            match charset {
                Some(s) => Some(s@),
                None => None,
            },
        ),
{
    match charset {
        None => TextEncoding::Utf8,
        Some(s) => {
            let c = chars_of(s.as_str());
            let n = c.len();
            assert(c@.subrange(0, n as int) =~= c@);
            if range_eq_ignore_ascii_case(&c, 0, n, "utf-8") || range_eq_ignore_ascii_case(
                &c,
                0,
                n,
                "utf8",
            ) {
                TextEncoding::Utf8
            } else if range_eq_ignore_ascii_case(&c, 0, n, "iso-8859-1")
                || range_eq_ignore_ascii_case(&c, 0, n, "iso8859-1") || range_eq_ignore_ascii_case(
                &c,
                0,
                n,
                "latin1",
            ) || range_eq_ignore_ascii_case(&c, 0, n, "latin-1") || range_eq_ignore_ascii_case(
                &c,
                0,
                n,
                "l1",
            ) {
                TextEncoding::Latin1
            } else {
                TextEncoding::Unsupported
            }
        },
    }
}

/// The code point of a byte.
fn byte_char(b: u8) -> (c: char)
    ensures
        c == (b as u32) as char,
{
    b as char
}

/// Decodes clipboard bytes by the charset that `mime_type` declares.
pub fn decode_text_bytes(mime_type: &str, bytes: &[u8]) -> (r: Result<String, String>)
    ensures
        match r {
            Ok(s) => decoded_text(mime_type@, bytes@) == Ok::<Seq<char>, Seq<char>>(s@),
            Err(e) => decoded_text(mime_type@, bytes@) == Err::<Seq<char>, Seq<char>>(e@),
        },
{
    let m = chars_of(mime_type);
    let charset = charset_of(&m);
    match encoding_named(&charset) {
        TextEncoding::Utf8 => {
            let mut v: Vec<u8> = Vec::new();
            let mut i: usize = 0;
            while i < bytes.len()
                invariant
                    i <= bytes@.len(),
                    v@ == bytes@.take(i as int),
                decreases bytes@.len() - i,
            {
                v.push(bytes[i]);
                assert(bytes@.take(i + 1) =~= bytes@.take(i as int).push(bytes@[i as int]));
                i += 1;
            }
            assert(bytes@.take(bytes@.len() as int) =~= bytes@);
            match from_utf8(v) {
                Some(s) => Ok(s),
                None => Err(String::from_str("clipboard text is not valid UTF-8")),
            }
        },
        TextEncoding::Latin1 => {
            let mut out: Vec<char> = Vec::new();
            let mut i: usize = 0;
            while i < bytes.len()
                invariant
                    i <= bytes@.len(),
                    out@ == latin1(bytes@.take(i as int)),
                decreases bytes@.len() - i,
            {
                out.push(byte_char(bytes[i]));
                assert(latin1(bytes@.take(i + 1)) =~= latin1(bytes@.take(i as int)).push(
                    (bytes@[i as int] as u32) as char,
                ));
                i += 1;
            }
            assert(bytes@.take(bytes@.len() as int) =~= bytes@);
            Ok(string_from_chars(out.as_slice()))
        },
        TextEncoding::Unsupported => {
            let mut e = String::from_str("unsupported text charset: ");
            match charset {
                Some(name) => e.append(name.as_str()),
                None => {},
            }
            Err(e)
        },
    }
}

} // verus!

verus! {

/// An ASCII letter or digit (the characters of a tag name).
pub open spec fn is_name_char(c: char) -> bool {
    ('a' <= c <= 'z') || ('A' <= c <= 'Z') || ('0' <= c <= '9')
}

/// The end of the tag name that starts at `j`.
pub open spec fn name_end(t: Seq<char>, j: int) -> int
    decreases t.len() - j,
{
    if j < 0 || j >= t.len() || !is_name_char(t[j]) {
        j
    } else {
        name_end(t, j + 1)
    }
}

/// The element whose text is not shown (`script` or `style`) that the tag
/// at `i` opens, if it opens one.
pub open spec fn raw_element(t: Seq<char>, i: int) -> Option<Seq<char>> {
    let name = t.subrange(i + 1, name_end(t, i + 1));
    if eq_ignore_ascii_case(name, "script"@) {
        Some("script"@)
    } else if eq_ignore_ascii_case(name, "style"@) {
        Some("style"@)
    } else {
        None
    }
}

/// At `j` starts the end tag `</name`, in any ASCII case.
pub open spec fn closes_raw(t: Seq<char>, j: int, name: Seq<char>) -> bool {
    &&& 0 <= j
    &&& j + 2 + name.len() <= t.len()
    &&& t[j] == '<'
    &&& t[j + 1] == '/'
    &&& eq_ignore_ascii_case(t.subrange(j + 2, j + 2 + name.len()), name)
}

/// The index after the end tag of the element `name` whose content starts
/// at `j`, or `t.len()` when it is not closed.
pub open spec fn raw_end(t: Seq<char>, j: int, name: Seq<char>) -> int
    decreases t.len() - j,
{
    if j < 0 || j >= t.len() {
        t.len() as int
    } else if closes_raw(t, j, name) {
        let c = first_from(t, j, '>');
        if c >= t.len() {
            t.len() as int
        } else {
            c + 1
        }
    } else {
        raw_end(t, j + 1, name)
    }
}

/// The character with code point `v`, when `v` is a Unicode scalar value.
pub open spec fn scalar_char(v: int) -> Option<char> {
    if 0 <= v <= 0x10ffff && !(0xd800 <= v <= 0xdfff) {
        Some(v as char)
    } else {
        None
    }
}

/// The character of the entity `&name;`: the five XML entities, `nbsp`
/// (shown as a space) and numeric references in decimal or hexadecimal.
pub open spec fn entity_char(name: Seq<char>) -> Option<char> {
    if name == "amp"@ {
        Some('&')
    } else if name == "lt"@ {
        Some('<')
    } else if name == "gt"@ {
        Some('>')
    } else if name == "quot"@ {
        Some('"')
    } else if name == "apos"@ {
        Some('\'')
    } else if name == "nbsp"@ {
        Some(' ')
    } else if name.len() >= 3 && name[0] == '#' && (name[1] == 'x' || name[1] == 'X') {
        if all_digits(name.skip(2), 16) {
            scalar_char(digits_value(name.skip(2), 16))
        } else {
            None
        }
    } else if name.len() >= 2 && name[0] == '#' {
        if all_digits(name.skip(1), 10) {
            scalar_char(digits_value(name.skip(1), 10))
        } else {
            None
        }
    } else {
        None
    }
}

/// The character of the entity reference at `i` and the index after it.
pub open spec fn entity_at(t: Seq<char>, i: int) -> Option<(char, int)> {
    let semi = first_from(t, i, ';');
    if semi < t.len() && semi >= i {
        match entity_char(t.subrange(i + 1, semi)) {
            Some(c) => Some((c, semi + 1)),
            None => None,
        }
    } else {
        None
    }
}

/// The text of HTML `t[i..]` before whitespace is collapsed: each tag
/// becomes one space, `script` and `style` content is dropped, entities
/// are decoded, and a tag left open at the end drops the rest.
pub open spec fn render_from(t: Seq<char>, i: int) -> Seq<char>
    decreases t.len() - i,
{
    if i < 0 || i >= t.len() {
        seq![]
    } else if t[i] == '<' {
        let close = first_from(t, i, '>');
        if close >= t.len() {
            seq![]
        } else {
            let next = match raw_element(t, i) {
                Some(name) => raw_end(t, close + 1, name),
                None => close + 1,
            };
            if next <= i || next > t.len() {
                seq![]
            } else {
                seq![' '] + render_from(t, next)
            }
        }
    } else if t[i] == '&' && entity_at(t, i) is Some {
        let (c, next) = entity_at(t, i).unwrap();
        if next <= i {
            seq![]
        } else {
            seq![c] + render_from(t, next)
        }
    } else {
        seq![t[i]] + render_from(t, i + 1)
    }
}

/// The text a reader sees in the HTML `t`, whitespace collapsed.
pub open spec fn visible_text(t: Seq<char>) -> Seq<char> {
    collapse_whitespace(render_from(t, 0))
}

/// The text shown for clipboard content `text` of MIME type `m`: HTML is
/// reduced to its visible text, anything else is kept as it is.
pub open spec fn display_text(m: Seq<char>, text: Seq<char>) -> Seq<char> {
    if is_html(m) {
        visible_text(text)
    } else {
        text
    }
}

proof fn lemma_name_end(t: Seq<char>, j: int)
    requires
        0 <= j <= t.len(),
    ensures
        j <= name_end(t, j) <= t.len(),
    decreases t.len() - j,
{
    if j < t.len() && is_name_char(t[j]) {
        lemma_name_end(t, j + 1);
    }
}

proof fn lemma_raw_end(t: Seq<char>, j: int, name: Seq<char>)
    requires
        0 <= j <= t.len(),
    ensures
        j <= raw_end(t, j, name) <= t.len(),
    decreases t.len() - j,
{
    if j < t.len() {
        if closes_raw(t, j, name) {
            lemma_first_from_bounds(t, j, '>');
        } else {
            lemma_raw_end(t, j + 1, name);
        }
    }
}

/// `char::from_u32`: the character with this code point, or `None` for
/// surrogates and values above U+10FFFF.
#[verifier::external_body]
fn char_from_u32(v: u32) -> (r: Option<char>)
    ensures
        r == scalar_char(v as int),
{
    char::from_u32(v)
}

fn digit_of(c: char) -> (d: i64)
    ensures
        d == digit_value(c),
{
    if '0' <= c && c <= '9' {
        (c as u32 - '0' as u32) as i64
    } else if 'a' <= c && c <= 'f' {
        (c as u32 - 'a' as u32 + 10) as i64
    } else if 'A' <= c && c <= 'F' {
        (c as u32 - 'A' as u32 + 10) as i64
    } else {
        -1
    }
}

/// The character that the digits `t[a..b]` write in `base`.
fn digits_char(t: &Vec<char>, a: usize, b: usize, base: u64) -> (r: Option<char>)
    requires
        a <= b <= t@.len(),
        base == 10 || base == 16,
    ensures
        r == (if all_digits(t@.subrange(a as int, b as int), base as int) {
            scalar_char(digits_value(t@.subrange(a as int, b as int), base as int))
        } else {
            None
        }),
{
    let ghost s = t@.subrange(a as int, b as int);
    let mut acc: u64 = 0;
    let mut k = a;
    assert(s.take(0) =~= Seq::<char>::empty());
    while k < b
        invariant
            a <= k <= b <= t@.len(),
            s == t@.subrange(a as int, b as int),
            base == 10 || base == 16,
            acc == digits_value(s.take(k - a), base as int),
            acc <= 0x10ffff,
            all_digits(s.take(k - a), base as int),
        decreases b - k,
    {
        let d = digit_of(t[k]);
        assert(s[k - a] == t@[k as int]);
        if d < 0 || d >= base as i64 {
            assert(!(0 <= digit_value(s[k - a]) < base));
            return None;
        }
        let ghost prefix = s.take(k - a);
        assert(s.take(k - a + 1).drop_last() =~= prefix);
        assert(s.take(k - a + 1).last() == s[k - a]);
        acc = acc * base + d as u64;
        assert(acc == digits_value(s.take(k - a + 1), base as int));
        assert(all_digits(s.take(k - a + 1), base as int)) by {
            assert forall|i: int| 0 <= i < s.take(k - a + 1).len() implies 0 <= #[trigger] digit_value(
                s.take(k - a + 1)[i],
            ) < base by {
                if i < k - a {
                    assert(s.take(k - a + 1)[i] == prefix[i]);
                }
            }
        }
        if acc > 0x10ffff {
            proof {
                if all_digits(s, base as int) {
                    lemma_digits_prefix(s, k - a + 1, base as int);
                }
            }
            return None;
        }
        k += 1;
    }
    assert(s.take(b - a) =~= s);
    char_from_u32(acc as u32)
}

/// The character of the entity named `t[a..b]` (see [`entity_char`]).
fn entity_value(t: &Vec<char>, a: usize, b: usize) -> (r: Option<char>)
    requires
        a <= b <= t@.len(),
    ensures
        r == entity_char(t@.subrange(a as int, b as int)),
{
    let ghost name = t@.subrange(a as int, b as int);
    if crate::text::range_eq(t, a, b, "amp") {
        Some('&')
    } else if crate::text::range_eq(t, a, b, "lt") {
        Some('<')
    } else if crate::text::range_eq(t, a, b, "gt") {
        Some('>')
    } else if crate::text::range_eq(t, a, b, "quot") {
        Some('"')
    } else if crate::text::range_eq(t, a, b, "apos") {
        Some('\'')
    } else if crate::text::range_eq(t, a, b, "nbsp") {
        Some(' ')
    } else if b - a >= 3 && t[a] == '#' && (t[a + 1] == 'x' || t[a + 1] == 'X') {
        assert(name.skip(2) =~= t@.subrange(a + 2, b as int));
        digits_char(t, a + 2, b, 16)
    } else if b - a >= 2 && t[a] == '#' {
        assert(name.skip(1) =~= t@.subrange(a + 1, b as int));
        digits_char(t, a + 1, b, 10)
    } else {
        None
    }
}

/// The raw element opened by the tag at `i` (see [`raw_element`]).
fn raw_element_at(t: &Vec<char>, i: usize) -> (r: Option<&'static str>)
    requires
        i < t@.len(),
    ensures
        match r {
            Some(name) => raw_element(t@, i as int) == Some(name@),
            None => raw_element(t@, i as int) is None,
        },
{
    let n = t.len();
    let mut j = i + 1;
    while j < n && (('a' <= t[j] && t[j] <= 'z') || ('A' <= t[j] && t[j] <= 'Z') || ('0' <= t[j]
        && t[j] <= '9'))
        invariant
            i + 1 <= j <= n,
            n == t@.len(),
            name_end(t@, i + 1) == name_end(t@, j as int),
        decreases n - j,
    {
        j += 1;
    }
    if range_eq_ignore_ascii_case(t, i + 1, j, "script") {
        Some("script")
    } else if range_eq_ignore_ascii_case(t, i + 1, j, "style") {
        Some("style")
    } else {
        None
    }
}

/// The index after the end tag of `name` from `j` (see [`raw_end`]).
fn find_raw_end(t: &Vec<char>, j: usize, name: &str) -> (r: usize)
    requires
        j <= t@.len(),
    ensures
        r == raw_end(t@, j as int, name@),
{
    let n = t.len();
    let l = chars_of(name).len();
    let mut k = j;
    while k < n
        invariant
            j <= k <= n,
            n == t@.len(),
            l == name@.len(),
            raw_end(t@, j as int, name@) == raw_end(t@, k as int, name@),
        decreases n - k,
    {
        if n - k >= 2 && l <= n - k - 2 && t[k] == '<' && t[k + 1] == '/'
            && range_eq_ignore_ascii_case(t, k + 2, k + 2 + l, name) {
            let c = find_char(t, k, n, '>');
            assert(t@.take(n as int) =~= t@);
            if c >= n {
                return n;
            }
            return c + 1;
        }
        k += 1;
    }
    n
}

/// The visible text of the HTML `text` (see [`visible_text`]).
pub fn html_to_text(text: &str) -> (r: String)
    ensures
        r@ == visible_text(text@),
{
    let t = chars_of(text);
    let n = t.len();
    let mut out: Vec<char> = Vec::new();
    let mut i: usize = 0;
    assert(t@.take(n as int) =~= t@);
    loop
        invariant_except_break
            i <= n,
            n == t@.len(),
            t@.take(n as int) == t@,
            out@ + render_from(t@, i as int) == render_from(t@, 0),
        ensures
            out@ == render_from(t@, 0),
        decreases n - i,
    {
        if i >= n {
            assert(out@ =~= out@ + render_from(t@, i as int));
            break;
        }
        let c = t[i];
        if c == '<' {
            let close = find_char(&t, i, n, '>');
            if close >= n {
                assert(out@ =~= out@ + render_from(t@, i as int));
                break;
            }
            let next = match raw_element_at(&t, i) {
                Some(name) => {
                    proof {
                        lemma_raw_end(t@, close + 1, name@);
                    }
                    find_raw_end(&t, close + 1, name)
                },
                None => close + 1,
            };
            let ghost before = out@;
            out.push(' ');
            assert(before + render_from(t@, i as int) =~= out@ + render_from(t@, next as int));
            i = next;
        } else {
            let semi = find_char(&t, i, n, ';');
            let ent = if c == '&' && semi < n {
                entity_value(&t, i + 1, semi)
            } else {
                None
            };
            let ghost before = out@;
            match ent {
                Some(e) => {
                    out.push(e);
                    assert(before + render_from(t@, i as int) =~= out@ + render_from(
                        t@,
                        semi + 1,
                    ));
                    i = semi + 1;
                },
                None => {
                    out.push(c);
                    assert(before + render_from(t@, i as int) =~= out@ + render_from(
                        t@,
                        i + 1,
                    ));
                    i = i + 1;
                },
            }
        }
    }
    assert(out@.subrange(0, out@.len() as int) =~= out@);
    collapse_spaces(&out, 0, out.len())
}

/// The text shown for clipboard content (see [`display_text`]).
pub fn text_for_display(mime_type: &str, text: &str) -> (r: String)
    ensures
        r@ == display_text(mime_type@, text@),
{
    if is_html_mime(mime_type) {
        html_to_text(text)
    } else {
        text.to_owned()
    }
}

} // verus!
