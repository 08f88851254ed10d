//! Text handling: the UTF-8 checks and decodings that the protocol relies on,
//! and the small text operations built on them.

use vstd::prelude::*;
use vstd::utf8::*;

verus! {

/// What `String::from_utf8_lossy` makes of a byte sequence that is not valid UTF-8:
/// its decoding with each maximal invalid subsequence replaced by U+FFFD.
pub uninterp spec fn utf8_lossy(bytes: Seq<u8>) -> Seq<char>;

/// The text that `String::from_utf8_lossy` gives for `bytes`: the plain decoding of
/// valid UTF-8, the lossy one otherwise.
pub open spec fn lossy_text(bytes: Seq<u8>) -> Seq<char> {
    if valid_utf8(bytes) {
        decode_utf8(bytes)
    } else {
        utf8_lossy(bytes)
    }
}

/// Calls `String::from_utf8_lossy` and takes ownership of the result.
/// Claims, as the standard library documents, that valid UTF-8 is decoded without
/// replacement; of other input it claims only that the result is its lossy decoding.
#[verifier::external_body]
pub(crate) fn decode_utf8_lossy(bytes: &[u8]) -> (res: String)
    ensures
        valid_utf8(bytes@) ==> res@ == decode_utf8(bytes@),
        !valid_utf8(bytes@) ==> res@ == utf8_lossy(bytes@),
{
    String::from_utf8_lossy(bytes).into_owned()
}

/// Calls `core::str::from_utf8` and reports whether it succeeded.
/// Claims that it succeeds exactly on valid UTF-8, as the standard library documents.
#[verifier::external_body]
pub(crate) fn is_valid_utf8(bytes: &[u8]) -> (res: bool)
    ensures
        res == valid_utf8(bytes@),
{
    core::str::from_utf8(bytes).is_ok()
}

/// `c` is one of the characters stripped from the end of a received SSID.
pub open spec fn is_padding_char(c: char) -> bool {
    c == '\0' || c == '\n'
}

/// `s` without its trailing NUL and newline characters.
pub open spec fn trim_end_padding(s: Seq<char>) -> Seq<char>
    decreases s.len(),
{
    if s.len() > 0 && is_padding_char(s.last()) {
        trim_end_padding(s.drop_last())
    } else {
        s
    }
}

/// The trimmed text is a prefix of `s` that does not end in padding.
pub proof fn lemma_trim_end_padding_prefix(s: Seq<char>)
    ensures
        trim_end_padding(s).len() <= s.len(),
        trim_end_padding(s) == s.subrange(0, trim_end_padding(s).len() as int),
        trim_end_padding(s).len() > 0 ==> !is_padding_char(trim_end_padding(s).last()),
        forall|i: int|
            trim_end_padding(s).len() <= i < s.len() ==> #[trigger] is_padding_char(s[i]),
    decreases s.len(),
{
    if s.len() > 0 && is_padding_char(s.last()) {
        lemma_trim_end_padding_prefix(s.drop_last());
        assert(s.drop_last().subrange(0, trim_end_padding(s).len() as int) =~= s.subrange(
            0,
            trim_end_padding(s).len() as int,
        ));
        assert forall|i: int| trim_end_padding(s).len() <= i < s.len() implies #[trigger] is_padding_char(
            s[i],
        ) by {
            if i < s.len() - 1 {
                assert(s[i] == s.drop_last()[i]);
            }
        }
    } else {
        assert(s.subrange(0, s.len() as int) =~= s);
    }
}

/// Removing trailing padding from `s.subrange(0, k)` when everything from `k` on is
/// padding gives the trimmed `s`.
proof fn lemma_trim_end_padding_cut(s: Seq<char>, k: int)
    requires
        0 <= k <= s.len(),
        forall|i: int| k <= i < s.len() ==> #[trigger] is_padding_char(s[i]),
    ensures
        trim_end_padding(s) == trim_end_padding(s.subrange(0, k)),
    decreases s.len() - k,
{
    if k < s.len() {
        assert(s.drop_last() =~= s.subrange(0, s.len() - 1));
        lemma_trim_end_padding_cut(s.drop_last(), k);
        assert(s.drop_last().subrange(0, k) =~= s.subrange(0, k));
    } else {
        assert(s.subrange(0, k) =~= s);
    }
}

/// Returns `s` without its trailing NUL and newline characters.
pub fn trim_end_nul_newline(s: &str) -> (res: String)
    ensures
        res@ == trim_end_padding(s@),
{
    let mut k: usize = s.unicode_len();
    while k > 0 && (s.get_char(k - 1) == '\0' || s.get_char(k - 1) == '\n')
        invariant
            k <= s@.len(),
            forall|i: int| k <= i < s@.len() ==> #[trigger] is_padding_char(s@[i]),
        decreases k,
    {
        k = k - 1;
    }
    proof {
        lemma_trim_end_padding_cut(s@, k as int);
        let t = s@.subrange(0, k as int);
        if k > 0 {
            assert(t.last() == s@[k - 1]);
        }
    }
    let prefix = s.substring_char(0, k);
    String::from_str(prefix)
}

/// The characters of a sequence of ASCII bytes, one per byte.
pub open spec fn ascii_chars(bytes: Seq<u8>) -> Seq<char> {
    Seq::new(bytes.len(), |i: int| bytes[i] as char)
}

/// Every byte of `bytes` is ASCII.
pub open spec fn all_ascii(bytes: Seq<u8>) -> bool {
    forall|i: int| 0 <= i < bytes.len() ==> #[trigger] bytes[i] < 128
}

/// ASCII bytes are valid UTF-8 and decode to one character per byte.
pub proof fn lemma_ascii_bytes_decode(bytes: Seq<u8>)
    requires
        all_ascii(bytes),
    ensures
        valid_utf8(bytes),
        decode_utf8(bytes) == ascii_chars(bytes),
{
    let chars = ascii_chars(bytes);
    assert forall|i: int| 0 <= i < chars.len() implies '\0' <= #[trigger] chars[i] <= '\u{7f}' by {
        let b = bytes[i];
        assert(b < 128);
        assert((b as char) as u32 == b as u32);
    }
    assert(is_ascii_chars(chars));
    is_ascii_chars_encode_utf8(chars);
    assert forall|i: int| 0 <= i < bytes.len() implies #[trigger] encode_utf8(chars)[i] == bytes[i] by {
        assert(chars[i] as u8 == encode_utf8(chars)[i]);
        let b = bytes[i];
        assert(((b as char) as u8) == b);
    }
    assert(encode_utf8(chars) =~= bytes);
    encode_utf8_valid_utf8(chars);
    encode_utf8_decode_utf8(chars);
}

} // verus!
