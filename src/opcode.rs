//! Raw instruction words and their split into nibbles and immediate fields.
use vstd::prelude::*;

verus! {

/// One fetched instruction word, split into its four nibbles, the 12-bit
/// address field and the 8-bit immediate field.
#[derive(Clone, Copy, Debug, PartialEq, Eq, Structural)]
pub struct Opcode {
    pub n0: u8,
    pub n1: u8,
    pub n2: u8,
    pub n3: u8,
    pub addr: u16,
    pub byte: u8,
}

/// The opcode that the two bytes `b0`, `b1` (in memory order) encode.
pub open spec fn opcode_of(b0: u8, b1: u8) -> Opcode {
    Opcode {
        n0: b0 / 16,
        n1: b0 % 16,
        n2: b1 / 16,
        n3: b1 % 16,
        addr: ((b0 % 16) as u16 * 256 + b1) as u16,
        byte: b1,
    }
}

impl Opcode {
    /// Every field lies in its range: nibbles below 16, the address below 0x1000.
    pub open spec fn wf(self) -> bool {
        &&& self.n0 < 16
        &&& self.n1 < 16
        &&& self.n2 < 16
        &&& self.n3 < 16
        &&& self.addr < 0x1000
    }

    /// Decodes the first two bytes of `slice`.
    pub fn from_slice(slice: &[u8]) -> (r: Opcode)
        requires
            slice@.len() >= 2,
        ensures
            r == opcode_of(slice@[0], slice@[1]),
            r.wf(),
    {
        let b0 = slice[0];
        let b1 = slice[1];
        let r = Opcode {
            n0: (b0 & 0xF0) >> 4,
            n1: b0 & 0x0F,
            n2: (b1 & 0xF0) >> 4,
            n3: b1 & 0x0F,
            addr: ((b0 as u16 & 0x0F) << 8) | b1 as u16,
            byte: b1,
        };
        assert((b0 & 0xF0) >> 4 == b0 / 16) by (bit_vector);
        assert(b0 & 0x0F == b0 % 16) by (bit_vector);
        assert((b1 & 0xF0) >> 4 == b1 / 16) by (bit_vector);
        assert(b1 & 0x0F == b1 % 16) by (bit_vector);
        assert((((b0 as u16 & 0x0F) << 8) | b1 as u16) == (b0 % 16) as u16 * 256 + b1 as u16)
            by (bit_vector);
        assert(((b0 % 16) as u16 * 256 + (b1 as u16)) < 0x1000) by (bit_vector);
        r
    }
}

} // verus!
