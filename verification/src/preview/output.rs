//! Interpretation of the captured output of a preview command.
use crate::text::{
    chars_of, decimal, extend_chars, from_utf8_lossy, is_ws, string_from_chars, trim_end,
    trim_end_len, u64_to_decimal, utf8_lossy,
};
use vstd::prelude::*;

verus! {

/// Upper bound on the bytes kept of each output stream of a preview command.
pub const MAX_PREVIEW_BYTES: u64 = 33554432;

/// What a finished preview command produced.
pub struct CommandOutput {
    pub stdout: Vec<u8>,
    pub stderr: Vec<u8>,
    pub status: String,
    pub success: bool,
    pub stdout_truncated: bool,
    pub stderr_truncated: bool,
}

impl CommandOutput {
    /// Whether either output stream hit the size limit.
    pub fn truncated(&self) -> (b: bool)
        ensures
            b == (self.stdout_truncated || self.stderr_truncated),
    {
        self.stdout_truncated || self.stderr_truncated
    }
}

/// The notice appended to preview text that was cut at the size limit.
pub open spec fn truncation_notice() -> Seq<char> {
    "\n\n[preview output truncated]"@
}

/// Appends the truncation notice when the output was truncated.
pub fn append_truncation_notice(text: &mut String, truncated: bool)
    ensures
        final(text)@ == if truncated {
            old(text)@ + truncation_notice()
        } else {
            old(text)@
        },
{
    if truncated {
        text.append("\n\n[preview output truncated]");
    }
}

/// `bytes` starts with `magic`.
pub open spec fn starts_with_bytes(bytes: Seq<u8>, magic: Seq<u8>) -> bool {
    magic.len() <= bytes.len() && bytes.take(magic.len() as int) == magic
}

/// The signatures of the image formats that a preview may render: PNG, JPEG,
/// GIF, WebP, BMP and TIFF.
pub open spec fn is_image_signature(b: Seq<u8>) -> bool {
    ||| starts_with_bytes(b, seq![0x89u8, 0x50, 0x4e, 0x47, 0x0d, 0x0a, 0x1a, 0x0a])
    ||| starts_with_bytes(b, seq![0xffu8, 0xd8, 0xff])
    ||| starts_with_bytes(b, seq![0x47u8, 0x49, 0x46, 0x38, 0x37, 0x61])
    ||| starts_with_bytes(b, seq![0x47u8, 0x49, 0x46, 0x38, 0x39, 0x61])
    ||| (starts_with_bytes(b, seq![0x52u8, 0x49, 0x46, 0x46]) && b.len() >= 12 && b.subrange(8, 12)
        == seq![0x57u8, 0x45, 0x42, 0x50])
    ||| starts_with_bytes(b, seq![0x42u8, 0x4d])
    ||| starts_with_bytes(b, seq![0x49u8, 0x49, 0x2a, 0x00])
    ||| starts_with_bytes(b, seq![0x4du8, 0x4d, 0x00, 0x2a])
}

fn bytes_at(bytes: &[u8], pos: usize, magic: &[u8]) -> (b: bool)
    ensures
        b == (pos + magic@.len() <= bytes@.len() && bytes@.subrange(
            pos as int,
            pos + magic@.len(),
        ) == magic@),
{
    if pos > bytes.len() || magic.len() > bytes.len() - pos {
        return false;
    }
    let mut i: usize = 0;
    while i < magic.len()
        invariant
            pos + magic@.len() <= bytes@.len(),
            bytes@.len() == bytes.len(),
            i <= magic@.len(),
            forall|j: int| 0 <= j < i ==> bytes@[pos + j] == magic@[j],
        decreases magic@.len() - i,
    {
        if bytes[pos + i] != magic[i] {
            assert(bytes@.subrange(pos as int, pos + magic@.len())[i as int] != magic@[i as int]);
            return false;
        }
        i += 1;
    }
    assert(bytes@.subrange(pos as int, pos + magic@.len()) =~= magic@);
    true
}

/// Whether `bytes` begins with the signature of an image format.
pub fn recognizes_image_bytes(bytes: &[u8]) -> (b: bool)
    ensures
        b == is_image_signature(bytes@),
{
    let png: [u8; 8] = [0x89, 0x50, 0x4e, 0x47, 0x0d, 0x0a, 0x1a, 0x0a];
    let jpeg: [u8; 3] = [0xff, 0xd8, 0xff];
    let gif87: [u8; 6] = [0x47, 0x49, 0x46, 0x38, 0x37, 0x61];
    let gif89: [u8; 6] = [0x47, 0x49, 0x46, 0x38, 0x39, 0x61];
    let riff: [u8; 4] = [0x52, 0x49, 0x46, 0x46];
    let webp: [u8; 4] = [0x57, 0x45, 0x42, 0x50];
    let bmp: [u8; 2] = [0x42, 0x4d];
    let tiff_le: [u8; 4] = [0x49, 0x49, 0x2a, 0x00];
    let tiff_be: [u8; 4] = [0x4d, 0x4d, 0x00, 0x2a];
    proof {
        assert(png@ == seq![0x89u8, 0x50, 0x4e, 0x47, 0x0d, 0x0a, 0x1a, 0x0a]);
        assert(jpeg@ == seq![0xffu8, 0xd8, 0xff]);
        assert(gif87@ == seq![0x47u8, 0x49, 0x46, 0x38, 0x37, 0x61]);
        assert(gif89@ == seq![0x47u8, 0x49, 0x46, 0x38, 0x39, 0x61]);
        assert(riff@ == seq![0x52u8, 0x49, 0x46, 0x46]);
        assert(webp@ == seq![0x57u8, 0x45, 0x42, 0x50]);
        assert(bmp@ == seq![0x42u8, 0x4d]);
        assert(tiff_le@ == seq![0x49u8, 0x49, 0x2a, 0x00]);
        assert(tiff_be@ == seq![0x4du8, 0x4d, 0x00, 0x2a]);
        assert(forall|m: Seq<u8>| m.len() <= bytes@.len() ==> bytes@.subrange(0, m.len() as int)
            == #[trigger] bytes@.take(m.len() as int));
    }
    bytes_at(bytes, 0, &png) || bytes_at(bytes, 0, &jpeg) || bytes_at(bytes, 0, &gif87)
        || bytes_at(bytes, 0, &gif89) || (bytes_at(bytes, 0, &riff) && bytes_at(bytes, 8, &webp))
        || bytes_at(bytes, 0, &bmp) || bytes_at(bytes, 0, &tiff_le) || bytes_at(
        bytes,
        0,
        &tiff_be,
    )
}

/// The message shown instead of an image that was cut at the size limit.
pub open spec fn oversized_image_message() -> Seq<char> {
    "Preview image exceeds the "@ + decimal(32) + " MiB output limit"@
}

/// Reports an image that hit the output limit before it is decoded.
pub fn truncated_image_message(output: &CommandOutput) -> (m: Option<String>)
    ensures
        m is Some <== (output.stdout_truncated && is_image_signature(output.stdout@)),
        m is Some ==> (output.stdout_truncated && is_image_signature(output.stdout@)),
        m matches Some(text) ==> text@ == oversized_image_message(),
{
    if output.stdout_truncated && recognizes_image_bytes(output.stdout.as_slice()) {
        let mut text = String::from_str("Preview image exceeds the ");
        let size = u64_to_decimal(MAX_PREVIEW_BYTES / 1048576);
        text.append(size.as_str());
        text.append(" MiB output limit");
        Some(text)
    } else {
        None
    }
}

/// A failed command is reported only when it printed nothing to stdout.
pub fn should_report_command_failure(output: &CommandOutput) -> (b: bool)
    ensures
        b == (!output.success && output.stdout@.len() == 0),
{
    !output.success && output.stdout.len() == 0
}

/// The query that identifies a preview request; empty when the query is not
/// exposed to the command (password mode).
pub fn signature_query(expose_query: bool, query: &str) -> (s: String)
    ensures
        s@ == if expose_query {
            query@
        } else {
            Seq::<char>::empty()
        },
{
    if expose_query {
        query.to_owned()
    } else {
        String::new()
    }
}

/// The result of `strip_ansi_escapes::strip` on `bytes`.
pub uninterp spec fn ansi_stripped(bytes: Seq<u8>) -> Seq<u8>;

/// `strip_ansi_escapes::strip`: removes ANSI escape sequences from `bytes`.
#[verifier::external_body]
fn strip_ansi(bytes: &[u8]) -> (r: Vec<u8>)
    ensures
        r@ == ansi_stripped(bytes@),
{
    strip_ansi_escapes::strip(bytes)
}

/// Displayable text of command output: escape sequences removed, decoded as
/// UTF-8 (lossily) and stripped of trailing whitespace.
pub fn output_text(bytes: &[u8]) -> (s: String)
    ensures
        s@ == trim_end(utf8_lossy(ansi_stripped(bytes@))),
{
    let stripped = strip_ansi(bytes);
    let decoded = from_utf8_lossy(stripped.as_slice());
    let chars = chars_of(decoded.as_str());
    let n = trim_end_len(&chars, chars.len());
    assert(chars@.take(chars@.len() as int) =~= chars@);
    let mut out: Vec<char> = Vec::new();
    let mut i: usize = 0;
    while i < n
        invariant
            n <= chars@.len(),
            i <= n,
            out@ == chars@.take(i as int),
        decreases n - i,
    {
        out.push(chars[i]);
        assert(chars@.take(i + 1) =~= chars@.take(i as int).push(chars@[i as int]));
        i += 1;
    }
    string_from_chars(out.as_slice())
}


/// How many more bytes fit under `limit` once `kept` are kept.
pub open spec fn room_left(kept: int, limit: int) -> int {
    if kept >= limit {
        0
    } else {
        limit - kept
    }
}

/// Keeps as much of `chunk` as fits under `limit` after `bytes`; returns
/// whether some of it did not fit.
pub fn keep_within_limit(bytes: &mut Vec<u8>, chunk: &[u8], limit: u64) -> (over: bool)
    ensures
        final(bytes)@ == old(bytes)@ + chunk@.take(
            if chunk@.len() <= room_left(old(bytes)@.len() as int, limit as int) {
                chunk@.len() as int
            } else {
                room_left(old(bytes)@.len() as int, limit as int)
            },
        ),
        over == (chunk@.len() > room_left(old(bytes)@.len() as int, limit as int)),
{
    let kept = bytes.len() as u64;
    let room: u64 = if kept >= limit {
        0
    } else {
        limit - kept
    };
    let take: usize = if (chunk.len() as u64) <= room {
        chunk.len()
    } else {
        room as usize
    };
    let ghost start = bytes@;
    let mut i: usize = 0;
    while i < take
        invariant
            i <= take <= chunk@.len(),
            bytes@ == start + chunk@.take(i as int),
        decreases take - i,
    {
        bytes.push(chunk[i]);
        assert(chunk@.take(i + 1) =~= chunk@.take(i as int).push(chunk@[i as int]));
        i += 1;
    }
    (chunk.len() as u64) > room
}

/// The bytes kept and whether the stream was cut, after reading `chunks`
/// one after another under `limit`.
pub open spec fn read_limited(chunks: Seq<Seq<u8>>, limit: int) -> (Seq<u8>, bool)
    decreases chunks.len(),
{
    if chunks.len() == 0 {
        (seq![], false)
    } else {
        let (kept, cut) = read_limited(chunks.drop_last(), limit);
        let c = chunks.last();
        let room = room_left(kept.len() as int, limit);
        (kept + c.take(if c.len() <= room { c.len() as int } else { room }), cut || c.len() > room)
    }
}

/// All of `chunks`, one after another.
pub open spec fn concat_bytes(chunks: Seq<Seq<u8>>) -> Seq<u8>
    decreases chunks.len(),
{
    if chunks.len() == 0 {
        seq![]
    } else {
        concat_bytes(chunks.drop_last()) + chunks.last()
    }
}

/// However a stream arrives in chunks, what is kept of it is its first
/// `limit` bytes, and it is reported cut exactly when it was longer.
pub proof fn lemma_limited_read_keeps_the_first_bytes(chunks: Seq<Seq<u8>>, limit: nat)
    ensures
        read_limited(chunks, limit as int).0 == concat_bytes(chunks).take(
            if concat_bytes(chunks).len() <= limit {
                concat_bytes(chunks).len() as int
            } else {
                limit as int
            },
        ),
        read_limited(chunks, limit as int).1 == (concat_bytes(chunks).len() > limit),
    decreases chunks.len(),
{
    if chunks.len() > 0 {
        let p = chunks.drop_last();
        lemma_limited_read_keeps_the_first_bytes(p, limit);
        let all = concat_bytes(p);
        let c = chunks.last();
        assert(concat_bytes(chunks) == all + c);
        let kept = read_limited(p, limit as int).0;
        let room = room_left(kept.len() as int, limit as int);
        if all.len() <= limit {
            assert(kept == all);
            let t = if c.len() <= room { c.len() as int } else { room };
            assert(kept + c.take(t) =~= (all + c).take(all.len() + t));
        } else {
            assert(kept.len() == limit);
            assert(room == 0);
            assert(kept + c.take(0) =~= (all + c).take(limit as int));
        }
    }
}
} // verus!
