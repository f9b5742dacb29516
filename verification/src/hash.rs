//! Object hashes: the bytes that identify an object, and their text, two
//! lower-case hexadecimal digits for each byte.

use crate::trusted::push_char;
use vstd::prelude::*;

verus! {

/// How many bytes a hash has.
pub const HASH_BYTES: usize = 20;

/// The hash of an object, as the bytes that a repository knows it by.
#[derive(Debug, PartialEq, Eq)]
pub struct ObjectId {
    bytes: Vec<u8>,
}

impl View for ObjectId {
    type V = Seq<u8>;

    closed spec fn view(&self) -> Seq<u8> {
        self.bytes@
    }
}

impl ObjectId {
    /// The hash with the given bytes.
    pub fn new(bytes: Vec<u8>) -> (id: ObjectId)
        ensures
            id@ == bytes@,
    {
        ObjectId { bytes }
    }

    /// The bytes of the hash.
    pub fn as_bytes(&self) -> (bytes: &[u8])
        ensures
            bytes@ == self@,
    {
        self.bytes.as_slice()
    }

    /// The hash as text.
    pub fn to_text(&self) -> (text: String)
        ensures
            text@ == hex_text(self@),
    {
        to_hex(self.bytes.as_slice())
    }
}

/// The digit for a value below sixteen.
pub open spec fn hex_digit(value: u8) -> char {
    if value < 10 {
        (value + 48) as char
    } else {
        (value + 87) as char
    }
}

/// The bytes written as text, two digits for each byte, the high half first.
pub open spec fn hex_text(bytes: Seq<u8>) -> Seq<char>
    decreases bytes.len(),
{
    if bytes.len() == 0 {
        Seq::<char>::empty()
    } else {
        hex_text(bytes.drop_last()).push(hex_digit(bytes.last() / 16)).push(
            hex_digit(bytes.last() % 16),
        )
    }
}

/// Whether `c` is a digit that `hex_digit` writes: `0` to `9` or `a` to `f`.
pub open spec fn is_hex_digit(c: char) -> bool {
    ('0' <= c && c <= '9') || ('a' <= c && c <= 'f')
}

/// Whether `text` has the shape of a full hash: forty hexadecimal digits in
/// lower case.
pub open spec fn is_hash_text(text: Seq<char>) -> bool {
    &&& text.len() == 2 * HASH_BYTES
    &&& forall|i: int| 0 <= i < text.len() ==> is_hex_digit(#[trigger] text[i])
}

/// The digit for a value below sixteen.
pub fn digit(value: u8) -> (c: char)
    requires
        value < 16,
    ensures
        c == hex_digit(value),
        is_hex_digit(c),
{
    if value < 10 {
        (value + 48) as char
    } else {
        (value + 87) as char
    }
}

/// Writes bytes as hexadecimal text.
pub fn to_hex(bytes: &[u8]) -> (text: String)
    ensures
        text@ == hex_text(bytes@),
{
    let mut text = String::new();
    let mut i: usize = 0;
    while i < bytes.len()
        invariant
            i <= bytes@.len(),
            text@ == hex_text(bytes@.take(i as int)),
        decreases bytes@.len() - i,
    {
        let b = bytes[i];
        proof {
            let upto = bytes@.take(i as int + 1);
            assert(upto.drop_last() == bytes@.take(i as int));
            assert(upto.last() == b);
        }
        push_char(&mut text, digit(b / 16));
        push_char(&mut text, digit(b % 16));
        i += 1;
    }
    proof {
        assert(bytes@.take(i as int) == bytes@);
    }
    text
}

/// The text of `n` bytes has `2 * n` characters, each a hexadecimal digit in
/// lower case.
pub proof fn lemma_hex_text_shape(bytes: Seq<u8>)
    ensures
        hex_text(bytes).len() == 2 * bytes.len(),
        forall|i: int| 0 <= i < hex_text(bytes).len() ==> is_hex_digit(#[trigger] hex_text(bytes)[i]),
    decreases bytes.len(),
{
    if bytes.len() > 0 {
        lemma_hex_text_shape(bytes.drop_last());
    }
}

/// Different values below sixteen have different digits.
pub proof fn lemma_hex_digit_injective(a: u8, b: u8)
    requires
        a < 16,
        b < 16,
        hex_digit(a) == hex_digit(b),
    ensures
        a == b,
{
}

/// Different byte sequences have different texts.
pub proof fn lemma_hex_text_injective(a: Seq<u8>, b: Seq<u8>)
    requires
        hex_text(a) == hex_text(b),
    ensures
        a == b,
    decreases a.len(),
{
    lemma_hex_text_shape(a);
    lemma_hex_text_shape(b);
    if a.len() > 0 {
        let ta = hex_text(a);
        let tb = hex_text(b);
        let n = ta.len() as int;
        assert(ta[n - 1] == hex_digit(a.last() % 16));
        assert(tb[n - 1] == hex_digit(b.last() % 16));
        assert(ta[n - 2] == hex_digit(a.last() / 16));
        assert(tb[n - 2] == hex_digit(b.last() / 16));
        lemma_hex_digit_injective(a.last() % 16, b.last() % 16);
        lemma_hex_digit_injective(a.last() / 16, b.last() / 16);
        assert(a.last() == b.last());
        assert(hex_text(a.drop_last()) == ta.take(n - 2));
        assert(hex_text(b.drop_last()) == tb.take(n - 2));
        lemma_hex_text_injective(a.drop_last(), b.drop_last());
        assert(a == a.drop_last().push(a.last()));
        assert(b == b.drop_last().push(b.last()));
    } else {
        assert(a == b);
    }
}

} // verus!
