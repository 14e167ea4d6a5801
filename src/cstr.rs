//! Conversion of text into the nul-terminated byte strings that the native
//! loader reads.
use vstd::prelude::*;
use vstd::utf8::*;

verus! {

/// The bytes handed to the native layer for `text`: its UTF-8 encoding,
/// followed by one terminating nul byte.
pub open spec fn nul_terminated(text: Seq<char>) -> Seq<u8> {
    encode_utf8(text).push(0u8)
}

/// True when `pos` is the index of the first nul byte of `bytes`.
pub open spec fn is_first_nul(bytes: Seq<u8>, pos: int) -> bool {
    &&& 0 <= pos < bytes.len()
    &&& bytes[pos] == 0u8
    &&& forall|j: int| 0 <= j < pos ==> bytes[j] != 0u8
}

/// Text that holds a nul character cannot be handed to the native layer:
/// the nul would end the string early.
#[derive(Debug, Clone, Copy, PartialEq, Eq, Structural)]
pub struct NulError {
    position: usize,
}

impl NulError {
    /// The byte index, in the text's UTF-8 encoding, of its first nul byte.
    pub closed spec fn spec_nul_position(&self) -> nat {
        self.position as nat
    }

    pub fn nul_position(&self) -> (r: usize)
        ensures
            r == self.spec_nul_position(),
    {
        self.position
    }
}

proof fn lemma_scalar_nul(s: u32)
    requires
        is_scalar(s),
    ensures
        encode_scalar(s).contains(0u8) <==> s == 0,
{
    let e = encode_scalar(s);
    assert(forall|y: u8| #![auto] (0x80u8 | y) != 0u8) by (bit_vector);
    if has_width_1_encoding(s) {
        assert(s <= 0x7F ==> (((s & 0x7F) as u8 == 0u8) <==> s == 0)) by (bit_vector);
        if s == 0 {
            assert(e[0] == 0u8);
        }
    } else {
        assert forall|i: int| 0 <= i < e.len() implies e[i] != 0u8 by {
            assert(forall|y: u8| #![auto] (0xC0u8 | y) != 0u8) by (bit_vector);
            assert(forall|y: u8| #![auto] (0xE0u8 | y) != 0u8) by (bit_vector);
            assert(forall|y: u8| #![auto] (0xF0u8 | y) != 0u8) by (bit_vector);
        }
    }
}

/// The UTF-8 encoding of a text holds a nul byte exactly when the text holds
/// the nul character: every other character encodes to non-zero bytes only.
pub proof fn lemma_nul_byte_iff_nul_char(text: Seq<char>)
    ensures
        encode_utf8(text).contains(0u8) <==> text.contains('\0'),
    decreases text.len(),
{
    if text.len() > 0 {
        let head = encode_scalar(text[0] as u32);
        let rest = encode_utf8(text.drop_first());
        char_is_scalar(text[0]);
        lemma_scalar_nul(text[0] as u32);
        lemma_nul_byte_iff_nul_char(text.drop_first());
        let all = encode_utf8(text);
        assert(all == head + rest);
        if all.contains(0u8) {
            let i = choose|i: int| 0 <= i < all.len() && all[i] == 0u8;
            if i < head.len() {
                assert(head[i] == 0u8);
                assert(text[0] as u32 == 0);
                char_u32_cast(text[0], 0);
                assert(0u32 as char == '\0');
                assert(text[0] == '\0');
            } else {
                assert(rest[i - head.len()] == 0u8);
                let k = choose|k: int| 0 <= k < text.drop_first().len() && text.drop_first()[k] == '\0';
                assert(text[k + 1] == '\0');
            }
        }
        if text.contains('\0') {
            let k = choose|k: int| 0 <= k < text.len() && text[k] == '\0';
            if k == 0 {
                assert(('\0' as u32) == 0);
                let i = choose|i: int| 0 <= i < head.len() && head[i] == 0u8;
                assert(all[i] == 0u8);
            } else {
                assert(text.drop_first()[k - 1] == '\0');
                let i = choose|i: int| 0 <= i < rest.len() && rest[i] == 0u8;
                assert(all[i + head.len()] == 0u8);
            }
        }
    }
}

/// Converts `text` into the nul-terminated bytes that the native layer reads.
/// Fails, pointing at the first nul byte, when `text` holds a nul character.
pub fn to_nul_terminated(text: &str) -> (r: Result<Vec<u8>, NulError>)
    ensures
        r is Ok <==> !text@.contains('\0'),
        r matches Ok(bytes) ==> bytes@ == nul_terminated(text@),
        r matches Err(e) ==> is_first_nul(encode_utf8(text@), e.spec_nul_position() as int),
{
    proof {
        lemma_nul_byte_iff_nul_char(text@);
    }
    let bytes = text.as_bytes();
    let mut out: Vec<u8> = Vec::new();
    let mut i: usize = 0;
    while i < bytes.len()
        invariant
            bytes@ == encode_utf8(text@),
            bytes@.contains(0u8) <==> text@.contains('\0'),
            0 <= i <= bytes@.len(),
            out@ == bytes@.subrange(0, i as int),
            forall|j: int| 0 <= j < i ==> bytes@[j] != 0u8,
        decreases bytes@.len() - i,
    {
        if bytes[i] == 0 {
            assert(bytes@.contains(0u8)) by {
                assert(bytes@[i as int] == 0u8);
            }
            return Err(NulError { position: i });
        }
        out.push(bytes[i]);
        i = i + 1;
    }
    out.push(0);
    assert(!bytes@.contains(0u8));
    assert(bytes@.subrange(0, bytes@.len() as int) == bytes@);
    Ok(out)
}

} // verus!
