//! What is printed or copied for a history entry.
use crate::cclip::html::{decode_text_bytes, decoded_text, display_text, is_html, is_html_mime, text_for_display};
use crate::text::{chars_of, find_char, first_from, string_from_range};
use vstd::prelude::*;

verus! {

/// The text printed for an entry outside the interface: the fetched
/// content when it decodes (HTML reduced to its text), else the preview,
/// and `[HTML content]` for HTML with neither.
pub open spec fn printed_preview(m: Seq<char>, preview: Seq<char>, fetched: Option<Seq<u8>>) -> Seq<
    char,
> {
    match fetched {
        None => if preview.len() == 0 && is_html(m) {
            "[HTML content]"@
        } else {
            preview
        },
        Some(bytes) => match decoded_text(m, bytes) {
            Ok(content) => display_text(m, content),
            Err(_) => preview,
        },
    }
}

/// The text printed for an entry (see [`printed_preview`]).
pub fn noninteractive_preview(mime_type: &str, preview: &str, fetched: Option<&[u8]>) -> (r:
    String)
    ensures
        r@ == printed_preview(
            mime_type@,
            preview@,
            match fetched {
                Some(b) => Some(b@),
                None => None,
            },
        ),
{
    match fetched {
        None => {
            if preview.unicode_len() == 0 && is_html_mime(mime_type) {
                String::from_str("[HTML content]")
            } else {
                preview.to_owned()
            }
        },
        Some(bytes) => match decode_text_bytes(mime_type, bytes) {
            Ok(content) => text_for_display(mime_type, content.as_str()),
            Err(_) => preview.to_owned(),
        },
    }
}

/// What is copied when an entry is copied as rendered text: nothing
/// special (`Ok(None)`) unless it is HTML, else the UTF-8 bytes of its
/// visible text, or why its bytes cannot be decoded.
pub open spec fn rendered_content(m: Seq<char>, bytes: Seq<u8>) -> Result<
    Option<Seq<u8>>,
    Seq<char>,
> {
    if !is_html(m) {
        Ok(None)
    } else {
        match decoded_text(m, bytes) {
            Ok(html) => Ok(Some(vstd::utf8::encode_utf8(display_text(m, html)))),
            Err(e) => Err(e),
        }
    }
}

/// The UTF-8 bytes of a string.
fn utf8_bytes(s: &str) -> (v: Vec<u8>)
    ensures
        v@ == vstd::utf8::encode_utf8(s@),
{
    let b = s.as_bytes();
    let mut v: Vec<u8> = Vec::new();
    let mut i: usize = 0;
    while i < b.len()
        invariant
            i <= b@.len(),
            v@ == b@.take(i as int),
        decreases b@.len() - i,
    {
        v.push(b[i]);
        assert(b@.take(i + 1) =~= b@.take(i as int).push(b@[i as int]));
        i += 1;
    }
    assert(b@.take(b@.len() as int) =~= b@);
    v
}

/// The bytes to copy for an entry copied as rendered text
/// (see [`rendered_content`]).
pub fn rendered_clipboard_content(mime_type: &str, bytes: Vec<u8>) -> (r: Result<
    Option<Vec<u8>>,
    String,
>)
    ensures
        match rendered_content(mime_type@, bytes@) {
            Ok(None) => r == Ok::<Option<Vec<u8>>, String>(None),
            Ok(Some(b)) => r is Ok && r->Ok_0 is Some && r->Ok_0->Some_0@ == b,
            Err(e) => r is Err && r->Err_0@ == e,
        },
{
    if !is_html_mime(mime_type) {
        return Ok(None);
    }
    match decode_text_bytes(mime_type, bytes.as_slice()) {
        Ok(html) => {
            let text = text_for_display(mime_type, html.as_str());
            Ok(Some(utf8_bytes(text.as_str())))
        },
        Err(e) => Err(e),
    }
}

/// The message when copying the original content copied nothing.
pub open spec fn no_data_message() -> Seq<char> {
    "cclip get returned no data"@
}

/// Copying the original content must have copied at least one byte.
pub fn require_original_copy_data(copied_bytes: u64) -> (r: Result<(), String>)
    ensures
        copied_bytes == 0 ==> r is Err && r->Err_0@ == no_data_message(),
        copied_bytes != 0 ==> r is Ok,
{
    if copied_bytes == 0 {
        return Err(String::from_str("cclip get returned no data"));
    }
    Ok(())
}

/// The row id at the start of a history line: its first tab-separated
/// field, unless that is empty.
pub open spec fn line_rowid(l: Seq<char>) -> Option<Seq<char>> {
    let t = first_from(l, 0, '\t');
    if t == 0 {
        None
    } else {
        Some(l.take(t))
    }
}

/// The row id of a history line (see [`line_rowid`]).
pub fn rowid_from_item_line(item_line: &str) -> (r: Option<String>)
    ensures
        match r {
            Some(s) => line_rowid(item_line@) == Some(s@),
            None => line_rowid(item_line@) is None,
        },
{
    let l = chars_of(item_line);
    let n = l.len();
    assert(l@.take(n as int) =~= l@);
    let t = find_char(&l, 0, n, '\t');
    if t == 0 {
        return None;
    }
    assert(l@.subrange(0, t as int) =~= l@.take(t as int));
    Some(string_from_range(&l, 0, t))
}

} // verus!
