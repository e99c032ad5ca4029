//! Text at the native boundary.
//!
//! On this side text is a `String`. The native subsystem holds it as a C
//! string: bytes in storage of a fixed size, ended by a NUL byte. Going out,
//! text is cut to the capacity of the field it goes to and always terminated.
//! Coming back, it is read up to the first NUL byte, cut to the capacity that
//! the caller allows, and decoded as far as it is valid UTF-8, so that a
//! character that a cut has split is dropped whole.

use vstd::prelude::*;
use vstd::slice::slice_subrange;
use vstd::utf8::*;

verus! {

/// The byte that ends a C string.
pub const NUL: u8 = 0;

/// The first `capacity` bytes of `text`; all of it where it is no longer.
pub open spec fn truncated(text: Seq<u8>, capacity: nat) -> Seq<u8> {
    if text.len() <= capacity {
        text
    } else {
        text.subrange(0, capacity as int)
    }
}

/// `text` followed by the terminator.
pub open spec fn terminated(text: Seq<u8>) -> Seq<u8> {
    text.push(NUL)
}

/// The number of bytes in `buf` before its first NUL byte; the length of
/// `buf` where it holds none.
pub open spec fn c_len(buf: Seq<u8>) -> nat
    decreases buf.len(),
{
    if buf.len() == 0 || buf[0] == NUL {
        0
    } else {
        1 + c_len(buf.drop_first())
    }
}

/// The bytes of `buf` before its first NUL byte.
pub open spec fn c_content(buf: Seq<u8>) -> Seq<u8> {
    buf.subrange(0, c_len(buf) as int)
}

/// Whether `text` holds no NUL byte.
pub open spec fn nul_free(text: Seq<u8>) -> bool {
    forall|i: int| 0 <= i < text.len() ==> text[i] != NUL
}

/// `c_len` is the place of the first NUL byte: it lies within the buffer, no
/// byte before it is NUL, and the byte at it is, unless the buffer ends
/// there.
pub proof fn lemma_c_len(buf: Seq<u8>)
    ensures
        c_len(buf) <= buf.len(),
        nul_free(c_content(buf)),
        c_len(buf) < buf.len() ==> buf[c_len(buf) as int] == NUL,
    decreases buf.len(),
{
    if buf.len() == 0 || buf[0] == NUL {
    } else {
        let rest = buf.drop_first();
        lemma_c_len(rest);
        let content = c_content(buf);
        assert forall|i: int| 0 <= i < content.len() implies content[i] != NUL by {
            if i > 0 {
                assert(content[i] == c_content(rest)[i - 1]);
            }
        }
    }
}

/// A position that holds the first NUL byte is `c_len`; so is the length of a
/// buffer without one.
pub proof fn lemma_c_len_is(buf: Seq<u8>, n: int)
    requires
        0 <= n <= buf.len(),
        nul_free(buf.subrange(0, n)),
        n < buf.len() ==> buf[n] == NUL,
    ensures
        c_len(buf) == n,
    decreases buf.len(),
{
    if buf.len() == 0 {
    } else if buf[0] == NUL {
        if n > 0 {
            assert(buf.subrange(0, n)[0] == NUL);
        }
    } else {
        let rest = buf.drop_first();
        assert(n > 0);
        let head = rest.subrange(0, n - 1);
        assert forall|i: int| 0 <= i < head.len() implies head[i] != NUL by {
            assert(buf.subrange(0, n)[i + 1] == head[i]);
        }
        lemma_c_len_is(rest, n - 1);
    }
}

/// Copies `src` into fresh storage for a field that holds up to `capacity`
/// bytes of text: the first `capacity` bytes of `src`, then the terminator.
/// Longer text is cut without notice. The result is never longer than
/// `capacity` bytes and the terminator.
pub fn bounded_copy(src: &[u8], capacity: usize) -> (out: Vec<u8>)
    ensures
        out@ == terminated(truncated(src@, capacity as nat)),
        out@.len() <= capacity + 1,
{
    let n: usize = if src.len() <= capacity { src.len() } else { capacity };
    let mut out: Vec<u8> = Vec::new();
    let mut i: usize = 0;
    while i < n
        invariant
            i <= n <= src@.len(),
            out@ == src@.subrange(0, i as int),
        decreases n - i,
    {
        out.push(src[i]);
        i = i + 1;
        assert(out@ =~= src@.subrange(0, i as int));
    }
    assert(src@.subrange(0, n as int) =~= truncated(src@, capacity as nat));
    out.push(NUL);
    out
}

/// The number of bytes in `buf` before its first NUL byte.
pub fn c_string_len(buf: &[u8]) -> (n: usize)
    ensures
        n == c_len(buf@),
{
    let mut i: usize = 0;
    while i < buf.len() && buf[i] != NUL
        invariant
            i <= buf@.len(),
            nul_free(buf@.subrange(0, i as int)),
        decreases buf@.len() - i,
    {
        i = i + 1;
        proof {
            let seen = buf@.subrange(0, i as int);
            assert forall|k: int| 0 <= k < seen.len() implies seen[k] != NUL by {
                if k < i - 1 {
                    assert(buf@.subrange(0, i - 1)[k] == seen[k]);
                }
            }
        }
    }
    proof {
        lemma_c_len_is(buf@, i as int);
    }
    i
}

/// The length of the longest prefix of `bytes` that is valid UTF-8.
pub open spec fn valid_prefix_len(bytes: Seq<u8>) -> nat
    decreases bytes.len(),
{
    if valid_utf8(bytes) {
        bytes.len()
    } else {
        valid_prefix_len(bytes.drop_last())
    }
}

/// The longest prefix of `bytes` that is valid UTF-8.
pub open spec fn valid_prefix(bytes: Seq<u8>) -> Seq<u8> {
    bytes.subrange(0, valid_prefix_len(bytes) as int)
}

/// The longest valid prefix lies within the bytes, is valid UTF-8, and no
/// longer prefix is.
pub proof fn lemma_valid_prefix(bytes: Seq<u8>)
    ensures
        valid_prefix_len(bytes) <= bytes.len(),
        valid_utf8(valid_prefix(bytes)),
        forall|m: int|
            valid_prefix_len(bytes) < m <= bytes.len() ==> !valid_utf8(
                #[trigger] bytes.subrange(0, m),
            ),
        valid_utf8(bytes) ==> valid_prefix(bytes) == bytes,
    decreases bytes.len(),
{
    if valid_utf8(bytes) {
        assert(bytes.subrange(0, bytes.len() as int) =~= bytes);
    } else {
        let shorter = bytes.drop_last();
        lemma_valid_prefix(shorter);
        let n = valid_prefix_len(shorter) as int;
        assert(shorter.subrange(0, n) =~= bytes.subrange(0, n));
        assert forall|m: int| n < m <= bytes.len() implies !valid_utf8(
            #[trigger] bytes.subrange(0, m),
        ) by {
            if m == bytes.len() {
                assert(bytes.subrange(0, m) =~= bytes);
            } else {
                assert(shorter.subrange(0, m) =~= bytes.subrange(0, m));
            }
        }
    }
}

/// A valid prefix that no longer prefix follows is the longest one.
pub proof fn lemma_valid_prefix_is(bytes: Seq<u8>, n: int)
    requires
        0 <= n <= bytes.len(),
        valid_utf8(bytes.subrange(0, n)),
        forall|m: int| n < m <= bytes.len() ==> !valid_utf8(#[trigger] bytes.subrange(0, m)),
    ensures
        valid_prefix_len(bytes) == n,
{
    lemma_valid_prefix(bytes);
    let k = valid_prefix_len(bytes) as int;
    if k < n {
        assert(!valid_utf8(bytes.subrange(0, n)));
    } else if n < k {
        assert(!valid_utf8(bytes.subrange(0, k)));
    }
}

/// Checks `bytes` with `core::str::from_utf8`. Where they are valid UTF-8 the
/// result is the text with exactly these bytes. Where they are not, it is
/// what `Utf8Error::valid_up_to` gives: the greatest length of a prefix that
/// is valid UTF-8.
#[verifier::external_body]
fn parse_utf8(bytes: &[u8]) -> (parsed: Result<String, usize>)
    ensures
        parsed matches Ok(text) ==> encode_utf8(text@) == bytes@,
        parsed matches Err(n) ==> {
            &&& !valid_utf8(bytes@)
            &&& n <= bytes@.len()
            &&& valid_utf8(bytes@.subrange(0, n as int))
            &&& forall|m: int|
                n < m <= bytes@.len() ==> !valid_utf8(#[trigger] bytes@.subrange(0, m))
        },
{
    match core::str::from_utf8(bytes) {
        Ok(text) => Ok(String::from(text)),
        Err(error) => Err(error.valid_up_to()),
    }
}

/// The text that `bytes` hold as far as they are valid UTF-8: all of it where
/// they are valid throughout, else what comes before the first byte that is
/// not part of a valid character.
pub fn decode_text(bytes: &[u8]) -> (text: String)
    ensures
        text@ == decode_utf8(valid_prefix(bytes@)),
        encode_utf8(text@) == valid_prefix(bytes@),
{
    broadcast use {encode_utf8_valid_utf8, encode_utf8_decode_utf8};

    proof {
        lemma_valid_prefix(bytes@);
    }
    match parse_utf8(bytes) {
        Ok(text) => text,
        Err(n) => {
            proof {
                lemma_valid_prefix_is(bytes@, n as int);
            }
            let prefix = slice_subrange(bytes, 0, n);
            match parse_utf8(prefix) {
                Ok(text) => text,
                Err(_) => String::new(),
            }
        },
    }
}

/// What native storage holds after `text` has gone out to it whole: its
/// bytes, then the terminator.
pub open spec fn exported(text: Seq<char>) -> Seq<u8> {
    terminated(encode_utf8(text))
}

/// What a field that holds up to `capacity` bytes of text holds after `text`
/// has gone out to it: the first `capacity` bytes of `text`, then the
/// terminator.
pub open spec fn exported_within(text: Seq<char>, capacity: nat) -> Seq<u8> {
    terminated(truncated(encode_utf8(text), capacity))
}

/// The text read back from native storage: the bytes before the first NUL
/// byte, decoded as far as they are valid UTF-8.
pub open spec fn imported(buf: Seq<u8>) -> Seq<char> {
    decode_utf8(valid_prefix(c_content(buf)))
}

/// The text read back from native storage by a caller who allows at most
/// `capacity` bytes of it: the bytes before the first NUL byte, cut to
/// `capacity`, decoded as far as they are valid UTF-8.
pub open spec fn imported_within(buf: Seq<u8>, capacity: nat) -> Seq<char> {
    decode_utf8(valid_prefix(truncated(c_content(buf), capacity)))
}

/// Sends `text` out whole: its bytes, then the terminator.
pub fn export_text(text: &str) -> (out: Vec<u8>)
    ensures
        out@ == exported(text@),
{
    let bytes = text.as_bytes();
    bounded_copy(bytes, bytes.len())
}

/// Sends `text` out to a field that holds up to `capacity` bytes of text. Text
/// that is longer is cut to its first `capacity` bytes, without notice. The
/// result is always terminated and never longer than `capacity` bytes and the
/// terminator.
pub fn export_text_within(text: &str, capacity: usize) -> (out: Vec<u8>)
    ensures
        out@ == exported_within(text@, capacity as nat),
        out@.len() <= capacity + 1,
{
    bounded_copy(text.as_bytes(), capacity)
}

/// Reads the text that native storage holds.
pub fn import_text(buf: &[u8]) -> (text: String)
    ensures
        text@ == imported(buf@),
{
    let n = c_string_len(buf);
    proof {
        lemma_c_len(buf@);
    }
    decode_text(slice_subrange(buf, 0, n))
}

/// Reads the text that native storage holds, for a caller who allows at most
/// `capacity` bytes of it. The text that comes back is never longer than
/// `capacity` bytes.
pub fn import_text_within(buf: &[u8], capacity: usize) -> (text: String)
    ensures
        text@ == imported_within(buf@, capacity as nat),
        encode_utf8(text@).len() <= capacity,
{
    let n = c_string_len(buf);
    let kept: usize = if n <= capacity { n } else { capacity };
    proof {
        lemma_c_len(buf@);
        let cut = truncated(c_content(buf@), capacity as nat);
        assert(buf@.subrange(0, kept as int) =~= cut);
        lemma_valid_prefix(cut);
    }
    decode_text(slice_subrange(buf, 0, kept))
}

/// Whether `text` holds no NUL character, so that where it ends in native
/// storage can be told by the terminator.
pub open spec fn has_no_nul(text: Seq<char>) -> bool {
    forall|i: int| 0 <= i < text.len() ==> text[i] != '\0'
}

/// No byte of the encoding of a character other than NUL is NUL.
proof fn lemma_scalar_is_nul_free(scalar: u32)
    requires
        scalar != 0,
    ensures
        nul_free(encode_scalar(scalar)),
{
    let lead = (scalar & 0x7F) as u8;
    let low6 = (scalar & 0x3F) as u8;
    let mid6 = ((scalar >> 6) & 0x3F) as u8;
    let high6 = ((scalar >> 12) & 0x3F) as u8;
    let top5 = ((scalar >> 6) & 0x1F) as u8;
    let top4 = ((scalar >> 12) & 0x0F) as u8;
    let top3 = ((scalar >> 18) & 0x7) as u8;
    assert(scalar != 0 && scalar <= 0x7F ==> (scalar & 0x7F) as u8 != 0) by (bit_vector);
    assert(0x80u8 | low6 != 0 && 0x80u8 | mid6 != 0 && 0x80u8 | high6 != 0) by (bit_vector);
    assert(0xC0u8 | top5 != 0 && 0xE0u8 | top4 != 0 && 0xF0u8 | top3 != 0) by (bit_vector);
}

/// Text without a NUL character has no NUL byte in its encoding.
pub proof fn lemma_text_is_nul_free(text: Seq<char>)
    requires
        has_no_nul(text),
    ensures
        nul_free(encode_utf8(text)),
    decreases text.len(),
{
    if text.len() > 0 {
        let first = encode_scalar(text[0] as u32);
        let rest = encode_utf8(text.drop_first());
        assert(text[0] as u32 != 0) by {
            if text[0] as u32 == 0 {
                char_u32_cast(text[0], 0u32);
                char_u32_cast('\0', 0u32);
            }
        }
        char_is_scalar(text[0]);
        lemma_scalar_is_nul_free(text[0] as u32);
        assert forall|i: int| 0 <= i < text.drop_first().len() implies text.drop_first()[i]
            != '\0' by {
            assert(text.drop_first()[i] == text[i + 1]);
        }
        lemma_text_is_nul_free(text.drop_first());
        let all = encode_utf8(text);
        assert(all == first + rest);
        assert forall|i: int| 0 <= i < all.len() implies all[i] != NUL by {
            if i < first.len() {
                assert(all[i] == first[i]);
            } else {
                assert(all[i] == rest[i - first.len()]);
            }
        }
    }
}

/// Text that fits its field and holds no NUL character comes back from
/// native storage exactly as it went out.
pub proof fn lemma_export_then_import(text: Seq<char>, capacity: nat)
    requires
        encode_utf8(text).len() <= capacity,
        has_no_nul(text),
    ensures
        imported(exported_within(text, capacity)) == text,
        imported_within(exported_within(text, capacity), capacity) == text,
        imported(exported(text)) == text,
{
    broadcast use {encode_utf8_valid_utf8, encode_utf8_decode_utf8};

    let bytes = encode_utf8(text);
    let buf = terminated(bytes);
    lemma_text_is_nul_free(text);
    assert(buf.subrange(0, bytes.len() as int) =~= bytes);
    lemma_c_len_is(buf, bytes.len() as int);
    lemma_valid_prefix(bytes);
}

/// Text that is longer than its field goes out as exactly its first
/// `capacity` bytes, then the terminator.
pub proof fn lemma_export_truncates(text: Seq<char>, capacity: nat)
    requires
        encode_utf8(text).len() > capacity,
    ensures
        exported_within(text, capacity) == encode_utf8(text).subrange(0, capacity as int).push(NUL),
        exported_within(text, capacity).len() == capacity + 1,
{
}

} // verus!
