//! Text in the form in which it crosses the boundary: a run of bytes that a
//! zero byte ends. A zero byte inside the text would cut it short, so such a
//! text has no boundary form.

use vstd::prelude::*;
use vstd::slice::slice_to_vec;
use vstd::utf8::char_is_scalar;
use vstd::utf8::char_u32_cast;
use vstd::utf8::encode_scalar;
use vstd::utf8::encode_utf8;
use vstd::utf8::is_scalar;

verus! {

/// The bytes of a text.
pub open spec fn text_bytes(text: Seq<char>) -> Seq<u8> {
    encode_utf8(text)
}

/// Some byte of `bytes` is zero.
pub open spec fn has_nul(bytes: Seq<u8>) -> bool {
    exists|i: int| 0 <= i < bytes.len() && bytes[i] == 0
}

/// The first zero byte of `bytes` is at `at`.
pub open spec fn is_first_nul(bytes: Seq<u8>, at: int) -> bool {
    &&& 0 <= at < bytes.len()
    &&& bytes[at] == 0
    &&& forall|i: int| 0 <= i < at ==> bytes[i] != 0
}

/// Of the bytes that encode one character, one is zero only if the character
/// is the one with the number 0, whose only byte is zero.
proof fn lemma_nul_byte_of_scalar(scalar: u32)
    requires
        is_scalar(scalar),
    ensures
        has_nul(encode_scalar(scalar)) <==> scalar == 0,
{
    let bytes = encode_scalar(scalar);
    assert(forall|i: int| 0 <= i < bytes.len() ==> (bytes[i] == 0 <==> scalar == 0)) by {
        lemma_nul_bits(scalar);
    }
    if scalar == 0 {
        assert(bytes[0] == 0);
    }
}

/// The bit patterns behind `lemma_nul_byte_of_scalar`: the only byte of a
/// character below 0x80 is its number, and every byte of a longer encoding
/// has its highest bit set.
proof fn lemma_nul_bits(scalar: u32)
    by (bit_vector)
    ensures
        scalar <= 0x7F ==> ((scalar & 0x7F) as u8 == 0 <==> scalar == 0),
        0xC0u8 | ((scalar >> 6) & 0x1F) as u8 != 0,
        0xE0u8 | ((scalar >> 12) & 0x0F) as u8 != 0,
        0xF0u8 | ((scalar >> 18) & 0x7) as u8 != 0,
        0x80u8 | (scalar & 0x3F) as u8 != 0,
        0x80u8 | ((scalar >> 6) & 0x3F) as u8 != 0,
        0x80u8 | ((scalar >> 12) & 0x3F) as u8 != 0,
{
}

/// A text has a zero byte exactly when it has the character with the number
/// 0: no other character has a zero byte in its encoding.
pub proof fn lemma_nul_byte_iff_nul_char(text: Seq<char>)
    ensures
        has_nul(text_bytes(text)) <==> text.contains('\0'),
    decreases text.len(),
{
    if text.len() > 0 {
        let head = encode_scalar(text[0] as u32);
        let rest = text.drop_first();
        let tail = text_bytes(rest);
        assert(text_bytes(text) == head + tail);

        // Of the first character: its bytes hold a zero exactly when it is
        // the character with the number 0.
        char_is_scalar(text[0]);
        lemma_nul_byte_of_scalar(text[0] as u32);
        assert(text[0] as u32 == 0 <==> text[0] == '\0') by {
            char_u32_cast(text[0], text[0] as u32);
            char_u32_cast('\0', 0);
        }
        // Of the other characters: by induction.
        lemma_nul_byte_iff_nul_char(rest);

        if has_nul(head) {
            let i = choose|i: int| 0 <= i < head.len() && head[i] == 0;
            assert((head + tail)[i] == 0);
            assert(text[0] == '\0');
        } else if has_nul(tail) {
            let i = choose|i: int| 0 <= i < tail.len() && tail[i] == 0;
            assert((head + tail)[head.len() + i] == 0);
            let j = choose|j: int| 0 <= j < rest.len() && rest[j] == '\0';
            assert(text[j + 1] == '\0');
        } else {
            if has_nul(head + tail) {
                let i = choose|i: int| 0 <= i < (head + tail).len() && (head + tail)[i] == 0;
                assert(i < head.len() ==> head[i] == 0);
                assert(i >= head.len() ==> tail[i - head.len()] == 0);
            }
            if text.contains('\0') {
                let j = choose|j: int| 0 <= j < text.len() && text[j] == '\0';
                assert(j > 0 ==> rest[j - 1] == '\0');
            }
        }
    }
}

/// Finds the first zero byte.
pub fn find_nul(bytes: &[u8]) -> (r: Option<usize>)
    ensures
        match r {
            Some(at) => is_first_nul(bytes@, at as int),
            None => !has_nul(bytes@),
        },
{
    let mut i: usize = 0;
    while i < bytes.len()
        invariant
            i <= bytes@.len(),
            forall|j: int| 0 <= j < i ==> bytes@[j] != 0,
        decreases bytes@.len() - i,
    {
        if bytes[i] == 0 {
            return Some(i);
        }
        i += 1;
    }
    None
}

/// Tells whether a text has a zero byte in it, and so no boundary form.
pub fn contains_nul(text: &str) -> (b: bool)
    ensures
        b == has_nul(text_bytes(text@)),
{
    find_nul(text.as_bytes()).is_some()
}

/// Why a text has no boundary form: it has a zero byte in it.
#[derive(Clone, Copy, Debug, PartialEq, Eq, Structural)]
pub struct NulError {
    position: usize,
}

impl NulError {
    /// The place of the first zero byte of the text.
    pub closed spec fn spec_nul_position(&self) -> usize {
        self.position
    }

    /// The place of the first zero byte of the text.
    #[verifier::when_used_as_spec(spec_nul_position)]
    pub fn nul_position(&self) -> (at: usize)
        ensures
            at == self.spec_nul_position(),
    {
        self.position
    }
}

/// An owned text in boundary form. It holds the bytes of the text; the zero
/// byte that ends them is implied.
#[derive(Debug, PartialEq, Eq)]
pub struct CText {
    bytes: Vec<u8>,
}

impl View for CText {
    type V = Seq<u8>;

    closed spec fn view(&self) -> Seq<u8> {
        self.bytes@
    }
}

impl Clone for CText {
    /// Copies the text into an allocation of its own.
    fn clone(&self) -> (r: CText)
        ensures
            r@ == self@,
    {
        proof {
            use_type_invariant(self);
        }
        CText { bytes: slice_to_vec(self.bytes.as_slice()) }
    }
}

impl CText {
    /// No byte of the text is zero. Every text in boundary form that exists
    /// while the program runs is of this form.
    #[verifier::type_invariant]
    pub open spec fn wf(&self) -> bool {
        !has_nul(self@)
    }

    /// Converts a text into boundary form, or says where its first zero byte
    /// is.
    pub fn new(text: String) -> (r: Result<CText, NulError>)
        ensures
            r is Ok <==> !has_nul(text_bytes(text@)),
            match r {
                Ok(t) => t.wf() && t@ == text_bytes(text@),
                Err(e) => is_first_nul(text_bytes(text@), e.spec_nul_position() as int),
            },
    {
        let bytes = text.as_str().as_bytes();
        match find_nul(bytes) {
            Some(position) => Err(NulError { position }),
            None => Ok(CText { bytes: slice_to_vec(bytes) }),
        }
    }

    /// The bytes of the text, without the zero byte that ends them.
    pub fn as_bytes(&self) -> (bytes: &[u8])
        ensures
            bytes@ == self@,
            !has_nul(bytes@),
    {
        proof {
            use_type_invariant(self);
        }
        self.bytes.as_slice()
    }

    /// Gives up the text for its bytes with the zero byte that ends them.
    /// The result has one zero byte, its last.
    pub fn into_bytes_with_nul(self) -> (bytes: Vec<u8>)
        ensures
            bytes@ == self@.push(0u8),
            is_first_nul(bytes@, bytes@.len() - 1),
    {
        proof {
            use_type_invariant(&self);
        }
        let mut bytes = self.bytes;
        bytes.push(0);
        bytes
    }
}

} // verus!
