//! Text as the engine takes it: the bytes of the text, ended by a zero byte.

use vstd::prelude::*;
use vstd::utf8::{encode_scalar, encode_utf8};

verus! {

/// `text` holds no NUL character. The engine reads a string up to its first
/// zero byte, so only such a text reaches it whole.
pub open spec fn nul_free(text: Seq<char>) -> bool {
    !text.contains('\0')
}

/// The string that stands for `text` on the engine's side: the bytes of
/// `text` in UTF-8, then one zero byte.
pub open spec fn terminated(text: Seq<char>) -> Seq<u8> {
    encode_utf8(text).push(0u8)
}

/// What the engine reads of `string`: the bytes before the first zero byte.
pub open spec fn read_by_engine(string: Seq<u8>) -> Seq<u8>
    decreases string.len(),
{
    if string.len() == 0 || string[0] == 0 {
        Seq::empty()
    } else {
        seq![string[0]] + read_by_engine(string.drop_first())
    }
}

/// No byte of the UTF-8 form of a character above NUL is zero: of the bytes
/// that UTF-8 builds from a scalar value `v`, only the single byte of `v == 0`
/// is.
proof fn lemma_bytes_of_scalar(v: u32)
    by (bit_vector)
    ensures
        v <= 0x7f ==> ((v & 0x7f) as u8 == 0 <==> v == 0),
        0xc0u8 | ((v >> 6) & 0x1f) as u8 != 0,
        0xe0u8 | ((v >> 12) & 0x0f) as u8 != 0,
        0xf0u8 | ((v >> 18) & 0x07) as u8 != 0,
        0x80u8 | (v & 0x3f) as u8 != 0,
        0x80u8 | ((v >> 6) & 0x3f) as u8 != 0,
        0x80u8 | ((v >> 12) & 0x3f) as u8 != 0,
{
}

/// The UTF-8 form of one character holds a zero byte exactly when the
/// character is NUL.
proof fn lemma_zero_byte_of_char(c: char)
    ensures
        encode_scalar(c as u32).contains(0u8) <==> c == '\0',
{
    let v = c as u32;
    let bytes = encode_scalar(v);
    lemma_bytes_of_scalar(v);
    if bytes.contains(0u8) {
        let i = choose|i: int| 0 <= i < bytes.len() && bytes[i] == 0u8;
        assert(bytes[i] == 0u8);
    }
    if c == '\0' {
        assert(bytes[0] == 0u8);
    }
}

/// A zero byte stands in the UTF-8 form of a text exactly when the text holds
/// a NUL character. So a text is [`nul_free`] exactly when its bytes can be
/// ended by a zero byte without being cut short.
pub proof fn lemma_zero_byte_is_nul(text: Seq<char>)
    ensures
        encode_utf8(text).contains(0u8) <==> text.contains('\0'),
    decreases text.len(),
{
    if text.len() == 0 {
        assert(encode_utf8(text) =~= Seq::<u8>::empty());
    } else {
        let head = encode_scalar(text[0] as u32);
        let rest = text.drop_first();
        let tail = encode_utf8(rest);
        lemma_zero_byte_of_char(text[0]);
        lemma_zero_byte_is_nul(rest);
        assert(encode_utf8(text) == head + tail);
        if head.contains(0u8) {
            let i = choose|i: int| 0 <= i < head.len() && head[i] == 0u8;
            assert((head + tail)[i] == 0u8);
            assert(text[0] == '\0');
        }
        if tail.contains(0u8) {
            let i = choose|i: int| 0 <= i < tail.len() && tail[i] == 0u8;
            assert((head + tail)[head.len() + i] == 0u8);
            let k = choose|k: int| 0 <= k < rest.len() && rest[k] == '\0';
            assert(text[k + 1] == '\0');
        }
        if (head + tail).contains(0u8) {
            let i = choose|i: int| 0 <= i < (head + tail).len() && (head + tail)[i] == 0u8;
            if i < head.len() {
                assert(head[i] == 0u8);
            } else {
                assert(tail[i - head.len()] == 0u8);
            }
        }
        if text.contains('\0') {
            let k = choose|k: int| 0 <= k < text.len() && text[k] == '\0';
            if k > 0 {
                assert(rest[k - 1] == '\0');
            }
        }
    }
}

/// Bytes without a zero among them, ended by a zero byte, are read whole.
proof fn lemma_reads_up_to_zero(bytes: Seq<u8>)
    requires
        !bytes.contains(0u8),
    ensures
        read_by_engine(bytes.push(0u8)) == bytes,
    decreases bytes.len(),
{
    if bytes.len() == 0 {
        assert(read_by_engine(bytes.push(0u8)) =~= bytes);
    } else {
        let rest = bytes.drop_first();
        assert(bytes[0] != 0u8);
        assert(!rest.contains(0u8)) by {
            if rest.contains(0u8) {
                let i = choose|i: int| 0 <= i < rest.len() && rest[i] == 0u8;
                assert(bytes[i + 1] == 0u8);
            }
        }
        lemma_reads_up_to_zero(rest);
        assert(bytes.push(0u8).drop_first() =~= rest.push(0u8));
        assert(seq![bytes[0]] + rest =~= bytes);
    }
}

/// What the engine reads holds no zero byte.
proof fn lemma_read_holds_no_zero(string: Seq<u8>)
    ensures
        !read_by_engine(string).contains(0u8),
    decreases string.len(),
{
    if string.len() != 0 && string[0] != 0 {
        let rest = read_by_engine(string.drop_first());
        lemma_read_holds_no_zero(string.drop_first());
        if read_by_engine(string).contains(0u8) {
            let i = choose|i: int|
                0 <= i < read_by_engine(string).len() && read_by_engine(string)[i] == 0u8;
            assert(rest[i - 1] == 0u8);
        }
    }
}

/// A text reaches the engine whole exactly when it holds no NUL: only then is
/// what the engine reads of the text's string the text in UTF-8, all of it
/// and nothing after it.
pub proof fn lemma_nul_free_text_is_read_whole(text: Seq<char>)
    ensures
        nul_free(text) <==> read_by_engine(terminated(text)) == encode_utf8(text),
{
    lemma_zero_byte_is_nul(text);
    if nul_free(text) {
        lemma_reads_up_to_zero(encode_utf8(text));
    } else {
        lemma_read_holds_no_zero(terminated(text));
    }
}

/// Whether `text` can be handed to the engine: whether it holds no NUL
/// character.
pub fn is_nul_free(text: &str) -> (ok: bool)
    ensures
        ok == nul_free(text@),
{
    let bytes = text.as_bytes();
    let mut i: usize = 0;
    while i < bytes.len()
        invariant
            i <= bytes.len(),
            bytes@ == encode_utf8(text@),
            forall|k: int| 0 <= k < i ==> #[trigger] bytes@[k] != 0,
        decreases bytes.len() - i,
    {
        if bytes[i] == 0 {
            proof {
                lemma_zero_byte_is_nul(text@);
            }
            return false;
        }
        i += 1;
    }
    proof {
        lemma_zero_byte_is_nul(text@);
    }
    true
}

/// The string that stands for `text` on the engine's side.
pub fn to_terminated(text: &str) -> (string: Vec<u8>)
    ensures
        string@ == terminated(text@),
{
    let mut string = text.as_bytes_vec();
    string.push(0);
    string
}

} // verus!
