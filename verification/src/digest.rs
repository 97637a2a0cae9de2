//! Content digests and the identifiers derived from them.

use sha2::Digest;
use vstd::prelude::*;

use crate::text::{digitChar, digit_char, textOf};

verus! {

/// The SHA-256 digest of a byte string.
pub uninterp spec fn sha256(data: Seq<u8>) -> Seq<u8>;

/// A SHA-256 computation that takes its input piece by piece.
///
/// Trusted: the state is a `sha2::Sha256`, a type built from outside traits
/// that cannot be declared here, so it is kept out of sight in this struct.
#[verifier::external_body]
pub struct ContentHasher {
    state: sha2::Sha256,
}

/// The bytes that a hasher has been given so far, in order.
pub uninterp spec fn hasher_input(hasher: ContentHasher) -> Seq<u8>;

impl ContentHasher {
    /// A hasher that has been given nothing.
    ///
    /// Trusted: `sha2::Sha256::new`, the initial state of the computation.
    #[verifier::external_body]
    pub(crate) fn new() -> (hasher: ContentHasher)
        ensures
            hasher_input(hasher) == Seq::<u8>::empty(),
    {
        ContentHasher { state: sha2::Sha256::new() }
    }

    /// Gives the hasher more input.
    ///
    /// Trusted: `sha2::Sha256::update`, which processes `data` as the
    /// continuation of what was processed before.
    #[verifier::external_body]
    pub(crate) fn update(&mut self, data: &[u8])
        ensures
            hasher_input(*final(self)) == hasher_input(*old(self)) + data@,
    {
        self.state.update(data);
    }

    /// The digest of all the input given.
    ///
    /// Trusted: `sha2::Sha256::finalize`, which returns the 32 bytes of the
    /// SHA-256 digest of everything the hasher has processed.
    #[verifier::external_body]
    pub(crate) fn finalize(self) -> (digest: [u8; 32])
        ensures
            digest@ == sha256(hasher_input(self)),
    {
        self.state.finalize().into()
    }
}

/// The character that writes the hexadecimal digit `d` in lower case.
pub open spec fn hex_char(d: int) -> char {
    if d < 10 {
        digit_char(d)
    } else {
        ((d + 87) as u8) as char
    }
}

/// Whether `c` is a hexadecimal digit in lower case.
pub open spec fn is_hex_char(c: char) -> bool {
    ('0' <= c <= '9') || ('a' <= c <= 'f')
}

/// The bytes written in hexadecimal, two lower-case digits each.
pub open spec fn hex_of(bytes: Seq<u8>) -> Seq<char>
    decreases bytes.len(),
{
    if bytes.len() == 0 {
        Seq::empty()
    } else {
        hex_of(bytes.drop_last()).push(hex_char(bytes.last() as int / 16)).push(
            hex_char(bytes.last() as int % 16),
        )
    }
}

/// The hexadecimal form of a byte string has two characters for each byte,
/// all of them lower-case hexadecimal digits.
pub proof fn lemma_hex_of_shape(bytes: Seq<u8>)
    ensures
        hex_of(bytes).len() == 2 * bytes.len(),
        forall|i: int| 0 <= i < hex_of(bytes).len() ==> is_hex_char(#[trigger] hex_of(bytes)[i]),
    decreases bytes.len(),
{
    if bytes.len() > 0 {
        lemma_hex_of_shape(bytes.drop_last());
    }
}

/// The character that writes the hexadecimal digit `d` in lower case.
pub(crate) fn hexChar(d: u8) -> (c: char)
    requires
        d < 16,
    ensures
        c == hex_char(d as int),
{
    if d < 10 {
        digitChar(d)
    } else {
        (d + 87) as char
    }
}

/// The bytes written in hexadecimal, two lower-case digits each.
pub fn hexText(bytes: &[u8]) -> (text: String)
    ensures
        text@ == hex_of(bytes@),
{
    let mut chars: Vec<char> = Vec::new();
    let mut i: usize = 0;
    assert(bytes@.take(0) == Seq::<u8>::empty());
    while i < bytes.len()
        invariant
            i <= bytes.len(),
            chars@ == hex_of(bytes@.take(i as int)),
        decreases bytes.len() - i,
    {
        let byte = bytes[i];
        chars.push(hexChar(byte / 16));
        chars.push(hexChar(byte % 16));
        assert(bytes@.take(i + 1).drop_last() == bytes@.take(i as int));
        i += 1;
    }
    assert(bytes@.take(i as int) == bytes@);
    textOf(chars.as_slice())
}

/// The SHA-256 digest of `bytes`, written in hexadecimal: sixty-four
/// lower-case hexadecimal digits.
pub fn sha256Hash(bytes: &[u8]) -> (hash: String)
    ensures
        hash@ == hex_of(sha256(bytes@)),
        hash@.len() == 64,
        forall|i: int| 0 <= i < 64 ==> is_hex_char(#[trigger] hash@[i]),
{
    let mut hasher = ContentHasher::new();
    hasher.update(bytes);
    assert(Seq::<u8>::empty() + bytes@ == bytes@);
    let digest = hasher.finalize();
    proof {
        lemma_hex_of_shape(digest@);
    }
    hexText(digest.as_slice())
}

/// The number of bytes of a digest that make up an identifier.
pub const ID_BYTES: usize = 6;

/// The identifier of content with the given digest: its first six bytes
/// in hexadecimal.
pub open spec fn content_id(digest: Seq<u8>) -> Seq<char> {
    hex_of(digest.take(ID_BYTES as int))
}

/// The identifier of content with the given digest: its first six bytes
/// in hexadecimal, which makes twelve lower-case hexadecimal digits.
pub fn contentId(digest: &[u8; 32]) -> (id: String)
    ensures
        id@ == content_id(digest@),
        id@.len() == 12,
        forall|i: int| 0 <= i < 12 ==> is_hex_char(#[trigger] id@[i]),
{
    proof {
        lemma_hex_of_shape(digest@.take(ID_BYTES as int));
    }
    hexText(vstd::slice::slice_subrange(digest.as_slice(), 0, ID_BYTES))
}

} // verus!
