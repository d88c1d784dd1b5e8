//! Splitting a two-byte instruction word into its four nibbles.

use vstd::prelude::*;

verus! {

/// The four 4-bit fields of an instruction word, most significant first.
pub struct Opcode {
    pub digits: [u16; 4],
}

impl Opcode {
    /// Every field is a nibble.
    pub open spec fn wf(&self) -> bool {
        forall|i: int| 0 <= i < 4 ==> #[trigger] self.digits[i] < 16
    }

    /// The 16-bit instruction word that the four nibbles spell.
    pub open spec fn word(&self) -> int {
        self.digits[0] * 4096 + self.digits[1] * 256 + self.digits[2] * 16 + self.digits[3]
    }

    /// Decodes the first two bytes of `opcode`; any further bytes are ignored.
    pub fn new(opcode: &[u8]) -> (op: Opcode)
        requires
            opcode@.len() >= 2,
        ensures
            op.wf(),
            op.digits[0] == opcode@[0] / 16,
            op.digits[1] == opcode@[0] % 16,
            op.digits[2] == opcode@[1] / 16,
            op.digits[3] == opcode@[1] % 16,
            op.word() == opcode@[0] * 256 + opcode@[1],
    {
        let hi: u8 = opcode[0];
        let lo: u8 = opcode[1];
        assert((hi & 0xF0) >> 4 == hi / 16) by (bit_vector);
        assert(hi & 0x0F == hi % 16) by (bit_vector);
        assert((lo & 0xF0) >> 4 == lo / 16) by (bit_vector);
        assert(lo & 0x0F == lo % 16) by (bit_vector);
        Opcode {
            digits: [
                ((hi & 0xF0) >> 4) as u16,
                (hi & 0x0F) as u16,
                ((lo & 0xF0) >> 4) as u16,
                (lo & 0x0F) as u16,
            ],
        }
    }
}

} // verus!
