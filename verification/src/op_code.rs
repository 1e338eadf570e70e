//! Decoding of two-byte instructions into their fields.

use vstd::prelude::*;

verus! {

/// The fields of one two-byte instruction.
#[derive(Clone, Copy, Debug, PartialEq, Eq, Structural)]
pub struct OpCode {
    /// High nibble of the first byte: the instruction family.
    pub op: u8,
    /// Low nibble of the first byte: usually a register index.
    pub x: u8,
    /// High nibble of the second byte: usually a register index.
    pub y: u8,
    /// Low nibble of the second byte.
    pub n: u8,
    /// The whole second byte.
    pub nn: u8,
    /// The low twelve bits of the instruction.
    pub nnn: u16,
}

impl OpCode {
    /// The instruction that the byte pair `(f_byte, s_byte)` encodes.
    pub open spec fn decoded(f_byte: u8, s_byte: u8) -> OpCode {
        OpCode {
            op: f_byte / 16,
            x: f_byte % 16,
            y: s_byte / 16,
            n: s_byte % 16,
            nn: s_byte,
            nnn: ((f_byte % 16) * 256 + s_byte) as u16,
        }
    }

    /// The fields agree with each other, as they do in every decoded
    /// instruction: nibbles are below 16, `nn` is `y` followed by `n`, and
    /// `nnn` is `x` followed by `nn`.
    pub open spec fn wf(&self) -> bool {
        &&& self.op < 16
        &&& self.x < 16
        &&& self.y < 16
        &&& self.n < 16
        &&& self.nn == self.y * 16 + self.n
        &&& self.nnn == self.x * 256 + self.nn
    }

    /// The sixteen-bit instruction word.
    pub open spec fn word(&self) -> int {
        self.op * 4096 + self.nnn
    }

    /// The instruction belongs to the instruction set: it is well formed,
    /// and its family has an instruction for it. The families `0` and `8` are
    /// told apart by `n`, the families `E` and `F` by `nn`; the other
    /// families have one instruction each.
    pub open spec fn implemented(&self) -> bool {
        self.wf() && if self.op == 0x0 {
            self.n == 0x0 || self.n == 0xE
        } else if self.op == 0x8 {
            self.n <= 0x7 || self.n == 0xE
        } else if self.op == 0xE {
            self.nn == 0x9E || self.nn == 0xA1
        } else if self.op == 0xF {
            ||| self.nn == 0x07
            ||| self.nn == 0x0A
            ||| self.nn == 0x15
            ||| self.nn == 0x18
            ||| self.nn == 0x1E
            ||| self.nn == 0x29
            ||| self.nn == 0x33
            ||| self.nn == 0x55
            ||| self.nn == 0x65
        } else {
            true
        }
    }

    /// Whether the fields agree with each other.
    pub fn is_well_formed(&self) -> (ok: bool)
        ensures
            ok == self.wf(),
    {
        self.op < 16 && self.x < 16 && self.y < 16 && self.n < 16 && self.nn == self.y * 16
            + self.n && self.nnn == (self.x as u16) * 256 + (self.nn as u16)
    }

    /// Splits the two bytes of an instruction into its fields.
    pub fn from_bytes(f_byte: u8, s_byte: u8) -> (code: Self)
        ensures
            code == Self::decoded(f_byte, s_byte),
            code.wf(),
            code.word() == f_byte * 256 + s_byte,
    {
        assert((f_byte >> 4) & 0xF == f_byte / 16) by (bit_vector);
        assert(f_byte & 0xF == f_byte % 16) by (bit_vector);
        assert((s_byte >> 4) & 0xF == s_byte / 16) by (bit_vector);
        assert(s_byte & 0xF == s_byte % 16) by (bit_vector);
        assert((((f_byte & 0xF) as u16) << 8) | (s_byte as u16) == (f_byte % 16) * 256 + s_byte)
            by (bit_vector);
        Self {
            op: (f_byte >> 4) & 0xF,
            x: f_byte & 0xF,
            y: (s_byte >> 4) & 0xF,
            n: s_byte & 0xF,
            nn: s_byte,
            nnn: (((f_byte & 0xF) as u16) << 8) | (s_byte as u16),
        }
    }
}

} // verus!
