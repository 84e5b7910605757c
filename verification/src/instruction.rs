//! The 32-bit MIPS instruction word and its bit fields.

use vstd::prelude::*;

verus! {

/// Primary opcode: bits 26 to 31 of the instruction word.
pub open spec fn spec_opcode(w: u32) -> u32 {
    w / 0x0400_0000
}

/// Source register selector: bits 21 to 25.
pub open spec fn spec_rs(w: u32) -> usize {
    ((w / 0x0020_0000) % 32) as usize
}

/// Target register selector: bits 16 to 20.
pub open spec fn spec_rt(w: u32) -> usize {
    ((w / 0x0001_0000) % 32) as usize
}

/// Destination register selector: bits 11 to 15.
pub open spec fn spec_rd(w: u32) -> usize {
    ((w / 0x0800) % 32) as usize
}

/// Shift amount: bits 6 to 10.
pub open spec fn spec_shamt(w: u32) -> u32 {
    (w / 0x40) % 32
}

/// Function code of an R-type instruction: bits 0 to 5.
pub open spec fn spec_funct(w: u32) -> u32 {
    w % 64
}

/// Zero-extended 16-bit immediate: bits 0 to 15.
pub open spec fn spec_immed(w: u32) -> u32 {
    w % 0x1_0000
}

/// Sign-extended 16-bit immediate, as a 32-bit word.
pub open spec fn spec_simmed(w: u32) -> u32 {
    if w % 0x1_0000 >= 0x8000 {
        ((w % 0x1_0000) + 0xffff_0000) as u32
    } else {
        w % 0x1_0000
    }
}

/// Jump target of a J-type instruction: bits 0 to 25.
pub open spec fn spec_jumptarget(w: u32) -> u32 {
    w % 0x0400_0000
}

/// A 32-bit MIPS instruction word.
///
/// Field boundaries follow the MIPS I encoding; each accessor returns one
/// field, already shifted down to the low bits.
#[derive(Copy, Clone, Debug, Default, PartialEq, Eq, Structural)]
pub struct Instruction(pub u32);

impl Instruction {
    /// Returns the opcode that selects the instruction mnemonic.
    pub fn opcode(&self) -> (r: u32)
        ensures
            r == spec_opcode(self.0),
    {
        self.0 / 0x0400_0000
    }

    /// Returns the numeric selector of the source register.
    pub fn rs(&self) -> (r: usize)
        ensures
            r == spec_rs(self.0),
            r < 32,
    {
        ((self.0 / 0x0020_0000) % 32) as usize
    }

    /// Returns the numeric selector of the target register.
    pub fn rt(&self) -> (r: usize)
        ensures
            r == spec_rt(self.0),
            r < 32,
    {
        ((self.0 / 0x0001_0000) % 32) as usize
    }

    /// Returns the numeric selector of the destination register.
    pub fn rd(&self) -> (r: usize)
        ensures
            r == spec_rd(self.0),
            r < 32,
    {
        ((self.0 / 0x0800) % 32) as usize
    }

    /// Returns the shift amount used by shift instructions.
    pub fn shamt(&self) -> (r: u32)
        ensures
            r == spec_shamt(self.0),
            r < 32,
    {
        (self.0 / 0x40) % 32
    }

    /// Returns the function code used by R-type instructions.
    pub fn funct(&self) -> (r: u32)
        ensures
            r == spec_funct(self.0),
            r < 64,
    {
        self.0 % 64
    }

    /// Returns the zero-extended immediate of an I-type instruction.
    pub fn immed(&self) -> (r: u32)
        ensures
            r == spec_immed(self.0),
            r < 0x1_0000,
    {
        self.0 % 0x1_0000
    }

    /// Returns the sign-extended immediate of an I-type instruction.
    pub fn simmed(&self) -> (r: u32)
        ensures
            r == spec_simmed(self.0),
    {
        let lo: u32 = self.0 % 0x1_0000;
        if lo >= 0x8000 {
            lo + 0xffff_0000
        } else {
            lo
        }
    }

    /// Returns the jump target of a J-type instruction.
    pub fn jumptarget(&self) -> (r: u32)
        ensures
            r == spec_jumptarget(self.0),
            r < 0x0400_0000,
    {
        self.0 % 0x0400_0000
    }
}

} // verus!
