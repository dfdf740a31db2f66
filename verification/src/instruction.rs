//! Decoding of a two-byte CHIP-8 instruction into its fields.

use vstd::prelude::*;
use vstd::std_specs::convert::FromSpecImpl;

verus! {

/// A decoded instruction: the opcode nibble and every operand field that an
/// opcode may read, all cut out of the same sixteen bits.
pub struct Instruction {
    pub instruction_bytes: [u8; 2],
    pub first_nibble: u8,
    pub x: u8,
    pub y: u8,
    pub n: u8,
    pub nn: u8,
    pub nnn: u16,
}

/// What decoding the big-endian pair `[hi, lo]` yields, field by field.
pub open spec fn decode(bytes: [u8; 2]) -> Instruction {
    let hi = bytes[0];
    let lo = bytes[1];
    Instruction {
        instruction_bytes: bytes,
        first_nibble: hi >> 4,
        x: hi & 0x0F,
        y: lo >> 4,
        n: lo & 0x0F,
        nn: lo,
        nnn: (((hi & 0x0F) as u16) << 8) | (lo as u16),
    }
}

/// The fields of `decode` as plain arithmetic on the two bytes.
pub proof fn lemma_decode_arithmetic(bytes: [u8; 2])
    ensures
        decode(bytes).first_nibble == bytes[0] / 16,
        decode(bytes).x == bytes[0] % 16,
        decode(bytes).y == bytes[1] / 16,
        decode(bytes).n == bytes[1] % 16,
        decode(bytes).nn == bytes[1],
        decode(bytes).nnn == (bytes[0] % 16) * 256 + bytes[1],
        decode(bytes).nnn < 0x1000,
{
    let hi = bytes[0];
    let lo = bytes[1];
    assert(hi >> 4 == hi / 16) by (bit_vector);
    assert(hi & 0x0F == hi % 16) by (bit_vector);
    assert(lo >> 4 == lo / 16) by (bit_vector);
    assert(lo & 0x0F == lo % 16) by (bit_vector);
    assert((((hi & 0x0F) as u16) << 8) | (lo as u16) == (hi % 16) * 256 + lo) by (bit_vector);
}

impl Instruction {
    /// Every field is the one that the two stored bytes decode to.
    pub open spec fn wf(&self) -> bool {
        *self == decode(self.instruction_bytes)
    }

    /// The instruction as one sixteen-bit word, high byte first.
    pub fn word(&self) -> (out: u16)
        ensures
            out == self.instruction_bytes[0] * 256 + self.instruction_bytes[1],
    {
        let hi: u8 = self.instruction_bytes[0];
        let lo: u8 = self.instruction_bytes[1];
        assert(((hi as u16) << 8) | (lo as u16) == hi * 256 + lo) by (bit_vector);
        ((hi as u16) << 8) | (lo as u16)
    }
}

impl From<[u8; 2]> for Instruction {
    fn from(bytes: [u8; 2]) -> (out: Instruction) {
        let hi: u8 = bytes[0];
        let lo: u8 = bytes[1];
        let x: u8 = hi & 0x0F;
        Instruction {
            instruction_bytes: bytes,
            first_nibble: hi >> 4,
            x,
            y: lo >> 4,
            n: lo & 0x0F,
            nn: lo,
            nnn: ((x as u16) << 8) | (lo as u16),
        }
    }
}

impl FromSpecImpl<[u8; 2]> for Instruction {
    open spec fn obeys_from_spec() -> bool {
        true
    }

    open spec fn from_spec(bytes: [u8; 2]) -> Instruction {
        decode(bytes)
    }
}

} // verus!
