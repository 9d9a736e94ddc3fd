//! The brand string: three leaves' worth of register words read as text.

use crate::query::{cpuid, Registers, RequestType};
use vstd::prelude::*;
use vstd::utf8::{decode_utf8, encode_utf8, is_ascii_chars, valid_utf8};

verus! {

/// The number of bytes in a brand string: three queries of four registers of
/// four bytes.
pub const BRAND_STRING_LENGTH: usize = 48;

/// Byte `at` of `word`, counting from the least significant.
pub open spec fn word_byte(word: u32, at: int) -> u8 {
    ((word >> ((8 * at) as u32)) & 0xffu32) as u8
}

/// The four bytes of `word`, least significant first.
pub open spec fn word_bytes(word: u32) -> Seq<u8> {
    seq![word_byte(word, 0), word_byte(word, 1), word_byte(word, 2), word_byte(word, 3)]
}

/// The sixteen bytes of one answer: `eax`, `ebx`, `ecx`, `edx`, each least
/// significant byte first.
pub open spec fn quad_bytes(found: Registers) -> Seq<u8> {
    word_bytes(found.eax) + word_bytes(found.ebx) + word_bytes(found.ecx) + word_bytes(found.edx)
}

/// The buffer assembled from the answers to the three brand string leaves, in
/// the order of the leaves.
pub open spec fn brand_bytes(first: Registers, second: Registers, third: Registers) -> Seq<u8> {
    quad_bytes(first) + quad_bytes(second) + quad_bytes(third)
}

/// The number of bytes before the first zero byte of `bytes`, or the length
/// of `bytes` where none is zero.
pub open spec fn text_len(bytes: Seq<u8>) -> int
    decreases bytes.len(),
{
    if bytes.len() == 0 || bytes[0] == 0 {
        0
    } else {
        1 + text_len(bytes.drop_first())
    }
}

/// The bytes of `bytes` that belong to the text: those before the first zero
/// byte.
pub open spec fn text_bytes(bytes: Seq<u8>) -> Seq<u8> {
    bytes.take(text_len(bytes))
}

/// Whether every byte of `bytes` is an ASCII character.
pub open spec fn all_ascii(bytes: Seq<u8>) -> bool {
    forall|at: int| 0 <= at < bytes.len() ==> #[trigger] bytes[at] < 128
}

/// The characters that ASCII bytes stand for.
pub open spec fn ascii_text(bytes: Seq<u8>) -> Seq<char> {
    Seq::new(bytes.len(), |at: int| bytes[at] as char)
}

/// `text_len` is the one position that has no zero byte before it and either
/// ends the buffer or holds a zero byte.
pub proof fn lemma_text_len(bytes: Seq<u8>)
    ensures
        0 <= text_len(bytes) <= bytes.len(),
        forall|at: int| 0 <= at < text_len(bytes) ==> bytes[at] != 0,
        text_len(bytes) < bytes.len() ==> bytes[text_len(bytes)] == 0,
    decreases bytes.len(),
{
    if bytes.len() != 0 && bytes[0] != 0 {
        let rest = bytes.drop_first();
        lemma_text_len(rest);
        assert forall|at: int| 0 <= at < text_len(bytes) implies bytes[at] != 0 by {
            if at > 0 {
                assert(bytes[at] == rest[at - 1]);
            }
        }
        if text_len(bytes) < bytes.len() {
            assert(bytes[text_len(bytes)] == rest[text_len(rest)]);
        }
    }
}

/// A position with no zero byte before it, which ends the buffer or holds a
/// zero byte, is `text_len`.
pub proof fn lemma_text_len_unique(bytes: Seq<u8>, len: int)
    requires
        0 <= len <= bytes.len(),
        forall|at: int| 0 <= at < len ==> bytes[at] != 0,
        len < bytes.len() ==> bytes[len] == 0,
    ensures
        text_len(bytes) == len,
{
    lemma_text_len(bytes);
    let found = text_len(bytes);
    if found < len {
        assert(bytes[found] != 0);
    } else if len < found {
        assert(bytes[len] != 0);
    }
}

/// The four bytes of a word are its base-256 digits, lowest first.
pub proof fn lemma_word_bytes_value(word: u32)
    ensures
        word_bytes(word).len() == 4,
        word == word_byte(word, 0) + 0x100 * word_byte(word, 1) + 0x1_0000 * word_byte(word, 2)
            + 0x100_0000 * word_byte(word, 3),
{
    assert(word == (((word >> 0u32) & 0xffu32) as u8) + 0x100 * (((word >> 8u32) & 0xffu32) as u8)
        + 0x1_0000 * (((word >> 16u32) & 0xffu32) as u8) + 0x100_0000 * (((word >> 24u32)
        & 0xffu32) as u8)) by (bit_vector);
}

/// The assembled buffer depends on the three answers alone and keeps their
/// order: it has 48 bytes, each answer fills the next 16 of them, and within
/// an answer each register fills the next 4.
pub proof fn lemma_brand_bytes_order(first: Registers, second: Registers, third: Registers)
    ensures
        brand_bytes(first, second, third).len() == BRAND_STRING_LENGTH,
        brand_bytes(first, second, third).subrange(0, 16) == quad_bytes(first),
        brand_bytes(first, second, third).subrange(16, 32) == quad_bytes(second),
        brand_bytes(first, second, third).subrange(32, 48) == quad_bytes(third),
        forall|found: Registers|
            #![trigger quad_bytes(found)]
            {
                &&& quad_bytes(found).len() == 16
                &&& quad_bytes(found).subrange(0, 4) == word_bytes(found.eax)
                &&& quad_bytes(found).subrange(4, 8) == word_bytes(found.ebx)
                &&& quad_bytes(found).subrange(8, 12) == word_bytes(found.ecx)
                &&& quad_bytes(found).subrange(12, 16) == word_bytes(found.edx)
            },
{
    assert forall|found: Registers| #![trigger quad_bytes(found)]
        {
            &&& quad_bytes(found).len() == 16
            &&& quad_bytes(found).subrange(0, 4) == word_bytes(found.eax)
            &&& quad_bytes(found).subrange(4, 8) == word_bytes(found.ebx)
            &&& quad_bytes(found).subrange(8, 12) == word_bytes(found.ecx)
            &&& quad_bytes(found).subrange(12, 16) == word_bytes(found.edx)
        } by {
        assert(quad_bytes(found).subrange(0, 4) =~= word_bytes(found.eax));
        assert(quad_bytes(found).subrange(4, 8) =~= word_bytes(found.ebx));
        assert(quad_bytes(found).subrange(8, 12) =~= word_bytes(found.ecx));
        assert(quad_bytes(found).subrange(12, 16) =~= word_bytes(found.edx));
    }
    let all = brand_bytes(first, second, third);
    assert(all.subrange(0, 16) =~= quad_bytes(first));
    assert(all.subrange(16, 32) =~= quad_bytes(second));
    assert(all.subrange(32, 48) =~= quad_bytes(third));
}

/// ASCII bytes are well-formed UTF-8, and decode to one character per byte.
pub proof fn lemma_ascii_is_utf8(bytes: Seq<u8>)
    requires
        all_ascii(bytes),
    ensures
        valid_utf8(bytes),
        decode_utf8(bytes) == ascii_text(bytes),
{
    let chars = ascii_text(bytes);
    assert(is_ascii_chars(chars)) by {
        assert forall|at: int| 0 <= at < chars.len() implies '\0' <= #[trigger] chars[at]
            <= '\u{7f}' by {
            assert(bytes[at] < 128);
        }
    }
    vstd::utf8::is_ascii_chars_encode_utf8(chars);
    assert(encode_utf8(chars) =~= bytes) by {
        assert forall|at: int| 0 <= at < bytes.len() implies encode_utf8(chars)[at]
            == bytes[at] by {
            assert(bytes[at] < 128);
            assert(chars[at] as u8 == bytes[at]);
        }
    }
    vstd::utf8::encode_utf8_valid_utf8(chars);
    vstd::utf8::encode_utf8_decode_utf8(chars);
}

/// Reads `bytes` as text through `core::str::from_utf8`: the slice itself,
/// seen as a string, where it is well-formed UTF-8, and nothing where it is
/// not.
#[verifier::external_body]
fn str_from_utf8(bytes: &[u8]) -> (text: Option<&str>)
    ensures
        text is Some <==> valid_utf8(bytes@),
        text matches Some(text) ==> encode_utf8(text@) == bytes@,
{
    core::str::from_utf8(bytes).ok()
}

/// The brand of the processor.
pub struct BrandString {
    bytes: [u8; BRAND_STRING_LENGTH],
}

impl View for BrandString {
    type V = Seq<u8>;

    /// The whole buffer, text and what follows it.
    closed spec fn view(&self) -> Seq<u8> {
        self.bytes@
    }
}

/// Byte `at` of `word`, counting from the least significant.
fn byte_of(word: u32, at: u32) -> (byte: u8)
    requires
        at < 4,
    ensures
        byte == word_byte(word, at as int),
{
    let shift: u32 = 8 * at;
    let low: u32 = (word >> shift) & 0xff;
    assert(low <= 0xff) by (bit_vector)
        requires
            low == (word >> shift) & 0xffu32,
    ;
    low as u8
}

/// The four bytes of `word` as they lie in memory, least significant first.
pub fn as_bytes(word: u32) -> (bytes: [u8; 4])
    ensures
        bytes@ == word_bytes(word),
{
    let bytes = [byte_of(word, 0), byte_of(word, 1), byte_of(word, 2), byte_of(word, 3)];
    assert(bytes@ =~= word_bytes(word));
    bytes
}

/// Writes the four bytes of `word` into `bytes`, from position `at` on.
fn write_word(bytes: &mut [u8; BRAND_STRING_LENGTH], at: usize, word: u32)
    requires
        at + 4 <= BRAND_STRING_LENGTH,
    ensures
        final(bytes)@ == old(bytes)@.take(at as int) + word_bytes(word) + old(bytes)@.skip(
            at + 4,
        ),
{
    let found = as_bytes(word);
    bytes[at] = found[0];
    bytes[at + 1] = found[1];
    bytes[at + 2] = found[2];
    bytes[at + 3] = found[3];
    assert(bytes@ =~= old(bytes)@.take(at as int) + word_bytes(word) + old(bytes)@.skip(at + 4));
}

/// Writes the sixteen bytes of one answer into `bytes`, from position `at`
/// on.
fn write_registers(bytes: &mut [u8; BRAND_STRING_LENGTH], at: usize, found: Registers)
    requires
        at + 16 <= BRAND_STRING_LENGTH,
    ensures
        final(bytes)@ == old(bytes)@.take(at as int) + quad_bytes(found) + old(bytes)@.skip(
            at + 16,
        ),
{
    write_word(bytes, at, found.eax);
    write_word(bytes, at + 4, found.ebx);
    write_word(bytes, at + 8, found.ecx);
    write_word(bytes, at + 12, found.edx);
    assert(bytes@ =~= old(bytes)@.take(at as int) + quad_bytes(found) + old(bytes)@.skip(
        at + 16,
    ));
}

impl BrandString {
    /// The buffer of every brand string has the same length.
    pub proof fn lemma_len(self)
        ensures
            self@.len() == BRAND_STRING_LENGTH,
    {
    }

    /// A brand string of zero bytes, whose text is empty.
    pub fn new() -> (brand: BrandString)
        ensures
            brand@ == Seq::new(BRAND_STRING_LENGTH as nat, |at: int| 0u8),
    {
        let brand = BrandString { bytes: [0; BRAND_STRING_LENGTH] };
        assert(brand@ =~= Seq::new(BRAND_STRING_LENGTH as nat, |at: int| 0u8));
        brand
    }

    /// The brand string with the buffer `bytes`.
    pub fn from_bytes(bytes: [u8; BRAND_STRING_LENGTH]) -> (brand: BrandString)
        ensures
            brand@ == bytes@,
    {
        BrandString { bytes }
    }

    /// Assembles the answers to the three brand string leaves, in the order
    /// of the leaves.
    pub fn from_registers(first: Registers, second: Registers, third: Registers) -> (brand:
        BrandString)
        ensures
            brand@ == brand_bytes(first, second, third),
    {
        let mut brand = BrandString::new();
        write_registers(&mut brand.bytes, 0, first);
        write_registers(&mut brand.bytes, 16, second);
        write_registers(&mut brand.bytes, 32, third);
        assert(brand@ =~= brand_bytes(first, second, third));
        brand
    }

    /// The bytes of the text: the buffer up to its first zero byte, or all of
    /// it where no byte is zero.
    pub fn as_bytes(&self) -> (text: &[u8])
        ensures
            text@ == text_bytes(self@),
    {
        let mut len: usize = 0;
        while len < BRAND_STRING_LENGTH && self.bytes[len] != 0
            invariant
                len <= BRAND_STRING_LENGTH,
                forall|at: int| 0 <= at < len ==> self.bytes@[at] != 0,
            decreases BRAND_STRING_LENGTH - len,
        {
            len = len + 1;
        }
        proof {
            lemma_text_len_unique(self@, len as int);
        }
        vstd::slice::slice_subrange(self.bytes.as_slice(), 0, len)
    }

    /// The text: the bytes before the first zero byte, read as a string
    /// without copying them.
    ///
    /// Processors fill the buffer with printable ASCII, which is always a
    /// string. Bytes that are no well-formed UTF-8 have no text.
    pub fn as_str(&self) -> (text: Option<&str>)
        ensures
            text is Some <==> valid_utf8(text_bytes(self@)),
            text matches Some(text) ==> text@ == decode_utf8(text_bytes(self@)),
            all_ascii(text_bytes(self@)) ==> text is Some && text->0@ == ascii_text(
                text_bytes(self@),
            ),
    {
        let text = str_from_utf8(self.as_bytes());
        proof {
            if let Some(text) = text {
                vstd::utf8::encode_utf8_decode_utf8(text@);
            }
            if all_ascii(text_bytes(self@)) {
                lemma_ascii_is_utf8(text_bytes(self@));
            }
        }
        text
    }
}

/// Asks the processor for its brand string.
///
/// The three leaves are asked for in ascending order. Whether the processor
/// supports them is for the caller to find out beforehand.
pub fn brand_string() -> (brand: BrandString)
    ensures
        brand@.len() == BRAND_STRING_LENGTH,
{
    let first = cpuid(RequestType::BrandString1);
    let second = cpuid(RequestType::BrandString2);
    let third = cpuid(RequestType::BrandString3);
    BrandString::from_registers(first, second, third)
}

} // verus!
