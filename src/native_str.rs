//! Strings as the native toolkit stores them: UTF-8 bytes ended by a zero byte.

use vstd::prelude::*;
use vstd::utf8::{encode_scalar, encode_utf8};

verus! {

/// The bytes that the toolkit receives for `text`: its UTF-8 encoding.
pub open spec fn native_bytes(text: Seq<char>) -> Seq<u8> {
    encode_utf8(text)
}

/// `text` holds a zero byte, which the toolkit would read as the end of the string.
pub open spec fn has_terminator(text: Seq<char>) -> bool {
    native_bytes(text).contains(0u8)
}

/// `pos` is the byte offset of the first zero byte of `text`.
pub open spec fn first_terminator_at(text: Seq<char>, pos: int) -> bool {
    &&& 0 <= pos < native_bytes(text).len()
    &&& native_bytes(text)[pos] == 0
    &&& forall|j: int| 0 <= j < pos ==> native_bytes(text)[j] != 0
}

/// The UTF-8 encoding of a scalar holds a zero byte only for the scalar zero:
/// every byte of a longer encoding has its high bit set.
proof fn lemma_scalar_zero_byte(c: u32)
    ensures
        encode_scalar(c).contains(0u8) <==> c == 0,
{
    let e = encode_scalar(c);
    assert(forall|x: u8| #![auto] (0x80u8 | x) != 0u8) by (bit_vector);
    assert(forall|x: u8| #![auto] (0xC0u8 | x) != 0u8) by (bit_vector);
    assert(forall|x: u8| #![auto] (0xE0u8 | x) != 0u8) by (bit_vector);
    assert(forall|x: u8| #![auto] (0xF0u8 | x) != 0u8) by (bit_vector);
    if c <= 0x7F {
        assert(c <= 0x7F ==> (((c & 0x7F) as u8 == 0u8) <==> c == 0)) by (bit_vector);
        assert(e.len() == 1);
        if c == 0 {
            assert(e[0] == 0u8);
        }
    } else {
        assert(forall|i: int| 0 <= i < e.len() ==> e[i] != 0u8);
    }
}

/// A string holds a terminator byte exactly when it holds the character `'\0'`.
pub proof fn lemma_terminator_is_nul_char(text: Seq<char>)
    ensures
        has_terminator(text) <==> text.contains('\0'),
    decreases text.len(),
{
    if text.len() > 0 {
        let head = encode_scalar(text[0] as u32);
        let rest = text.drop_first();
        lemma_scalar_zero_byte(text[0] as u32);
        lemma_terminator_is_nul_char(rest);
        let bytes = native_bytes(text);
        assert(bytes == head + native_bytes(rest));
        assert((text[0] as u32 == 0) <==> text[0] == '\0') by {
            vstd::utf8::char_u32_cast(text[0], text[0] as u32);
        }
        if text.contains('\0') {
            if text[0] == '\0' {
                let i = choose|i: int| 0 <= i < head.len() && head[i] == 0u8;
                assert(bytes[i] == 0u8);
            } else {
                let k = choose|k: int| 0 <= k < text.len() && text[k] == '\0';
                assert(rest[k - 1] == '\0');
                let i = choose|i: int| 0 <= i < native_bytes(rest).len() && native_bytes(rest)[i] == 0u8;
                assert(bytes[head.len() + i] == 0u8);
            }
        }
        if has_terminator(text) {
            let i = choose|i: int| 0 <= i < bytes.len() && bytes[i] == 0u8;
            if i < head.len() {
                assert(head[i] == 0u8);
                assert(text[0] == '\0');
            } else {
                assert(native_bytes(rest)[i - head.len()] == 0u8);
                let k = choose|k: int| 0 <= k < rest.len() && rest[k] == '\0';
                assert(text[k + 1] == '\0');
            }
        }
    }
}

/// A string that cannot be handed to the toolkit: it holds a zero byte.
#[derive(Clone, Copy, Debug, PartialEq, Eq, Structural)]
pub struct InteriorNul {
    /// Byte offset of the first zero byte.
    pub position: usize,
}

/// Checks that `text` can be handed to the toolkit whole, without being cut
/// short at a zero byte.
pub fn check_native(text: &str) -> (r: Result<(), InteriorNul>)
    ensures
        r is Ok <==> !has_terminator(text@),
        r matches Err(e) ==> first_terminator_at(text@, e.position as int),
{
    let bytes = text.as_bytes();
    let mut i: usize = 0;
    while i < bytes.len()
        invariant
            bytes@ == native_bytes(text@),
            i <= bytes@.len(),
            forall|j: int| 0 <= j < i ==> bytes@[j] != 0,
        decreases bytes@.len() - i,
    {
        if bytes[i] == 0 {
            return Err(InteriorNul { position: i });
        }
        i += 1;
    }
    Ok(())
}

} // verus!
