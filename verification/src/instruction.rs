//! Instruction words: the header packed into the first word, and the payload fields
//! that the individual commands read from the others.

use vstd::prelude::*;

verus! {

/// Advance the shared simulation by one tick.
pub const OP_RUN: u64 = 0;

/// Place an owned object at a position.
pub const OP_PLACE: u64 = 1;

/// Claim an already minted object for the caller.
pub const OP_CLAIM: u64 = 2;

/// Mint a new object for an identity that the caller names.
pub const OP_MINT: u64 = 3;

/// Drop an owned object.
pub const OP_DROP: u64 = 4;

/// Upgrade an owned object.
pub const OP_UPGRADE: u64 = 5;

/// The opcode: the low eight bits of the first word.
pub open spec fn opcode_of(word: u64) -> u64 {
    word & 0xff
}

/// The feature flag: the eight bits above the opcode.
pub open spec fn feature_of(word: u64) -> u64 {
    (word >> 8) & 0xff
}

/// The nonce: everything above the feature flag, forty-eight bits.
pub open spec fn nonce_of(word: u64) -> u64 {
    word >> 16
}

/// The position that a payload word carries: its low sixteen bits.
pub open spec fn position_of(word: u64) -> usize {
    (word & 0xffff) as usize
}

/// The identity that a mint names: two payload words between two zero words.
pub open spec fn mint_target(first: u64, second: u64) -> [u64; 4] {
    [0, first, second, 0]
}

/// The three fields of an instruction's first word.
#[derive(Clone, Copy, Debug, PartialEq, Eq, Structural)]
pub struct Header {
    pub opcode: u64,
    pub feature: u64,
    pub nonce: u64,
}

impl Header {
    /// The header that a first word holds.
    pub open spec fn of(word: u64) -> Header {
        Header { opcode: opcode_of(word), feature: feature_of(word), nonce: nonce_of(word) }
    }

    /// Splits a first word into its fields. Every word decodes to some header.
    pub fn decode(word: u64) -> (header: Header)
        ensures
            header == Header::of(word),
    {
        Header { opcode: word & 0xff, feature: (word >> 8) & 0xff, nonce: word >> 16 }
    }
}

/// Reads the position out of a payload word.
pub fn decode_position(word: u64) -> (position: usize)
    ensures
        position == position_of(word),
        position == word % 0x1_0000,
{
    let low: u64 = word & 0xffff;
    assert(low <= 0xffff && low == word % 0x1_0000) by (bit_vector)
        requires
            low == word & 0xffff,
    ;
    low as usize
}

/// Builds the identity that a mint names from its two payload words.
pub fn decode_mint_target(first: u64, second: u64) -> (target: [u64; 4])
    ensures
        target == mint_target(first, second),
{
    [0, first, second, 0]
}

/// The fields of a header are the digits of the word in base 256 and 65536: the opcode
/// is the remainder modulo 256, the feature flag the next such digit, the nonce the
/// quotient by 65536.
pub proof fn lemma_header_arithmetic(word: u64)
    ensures
        opcode_of(word) == word % 256,
        feature_of(word) == (word / 256) % 256,
        nonce_of(word) == word / 65536,
        nonce_of(word) < 0x1_0000_0000_0000,
{
    assert(word & 0xff == word % 256) by (bit_vector);
    assert((word >> 8) & 0xff == (word / 256) % 256) by (bit_vector);
    assert(word >> 16 == word / 65536) by (bit_vector);
    assert(word >> 16 < 0x1_0000_0000_0000) by (bit_vector);
}

/// Decoding loses nothing: the three fields determine the word.
pub proof fn lemma_header_determines_word(word: u64)
    ensures
        word == nonce_of(word) * 65536 + feature_of(word) * 256 + opcode_of(word),
{
    assert(word == (word >> 16) * 65536 + ((word >> 8) & 0xff) * 256 + (word & 0xff))
        by (bit_vector);
}

/// A position is the word's lowest byte plus 256 times the byte above it.
pub proof fn lemma_position_little_endian(word: u64)
    ensures
        position_of(word) == (word & 0xff) + 256 * ((word >> 8) & 0xff),
        position_of(word) < 0x1_0000,
{
    assert(word & 0xffff == (word & 0xff) + 256 * ((word >> 8) & 0xff)) by (bit_vector);
    assert(word & 0xffff < 0x1_0000) by (bit_vector);
}

} // verus!
