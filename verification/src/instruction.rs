use vstd::prelude::*;

verus! {

/// One decoded instruction: a tagged variant per opcode shape, carrying
/// its operand fields (register indices, an 8-bit immediate, a 12-bit
/// address, or a 4-bit sprite height).
#[derive(Clone, Copy, Debug, PartialEq, Eq, Structural)]
pub enum Instruction {
    /// Clear the display.
    ClearDisplay,
    /// Return from a subroutine.
    Return,
    /// Jump to address `nnn`.
    JumpToAddress(u16),
    /// Call the subroutine at `nnn`.
    CallAddress(u16),
    /// Skip the next instruction if `Vx == kk`.
    SkipIfVxEqualKk(u8, u8),
    /// Skip the next instruction if `Vx != kk`.
    SkipIfVxNotEqualKk(u8, u8),
    /// Skip the next instruction if `Vx == Vy`.
    SkipIfVxEqualVy(u8, u8),
    /// Set `Vx = kk`.
    LoadVxKk(u8, u8),
    /// Set `Vx = Vx + kk`, wrapping, without touching VF.
    AddVxKk(u8, u8),
    /// Set `Vx = Vy`.
    LoadVxVy(u8, u8),
    /// Set `Vx = Vx | Vy`.
    OrVxVy(u8, u8),
    /// Set `Vx = Vx & Vy`.
    AndVxVy(u8, u8),
    /// Set `Vx = Vx ^ Vy`.
    XorVxVy(u8, u8),
    /// Set `Vx = Vx + Vy`, wrapping, and VF to the carry bit.
    AddVxVy(u8, u8),
    /// Set `Vx = Vx - Vy`, wrapping, and VF to 1 iff `Vx > Vy` before.
    SubVxVy(u8, u8),
    /// Shift `Vx` right by one; VF takes the bit shifted out.
    ShiftRight(u8, u8),
    /// Set `Vx = Vy - Vx`, wrapping, and VF to 1 iff `Vy > Vx` before.
    SubNVxVy(u8, u8),
    /// Shift `Vx` left by one; VF takes the bit shifted out.
    ShiftLeft(u8, u8),
    /// Skip the next instruction if `Vx != Vy`.
    SkipIfVxNotEqualVy(u8, u8),
    /// Set `I = nnn`.
    LoadAddr(u16),
    /// Jump to address `nnn + V0`.
    JumpToAddressPlusV0(u16),
    /// Set `Vx` to a random byte ANDed with `kk`.
    RandomAnd(u8, u8),
    /// Draw the `n`-byte sprite at memory location `I` at `(Vx, Vy)`;
    /// VF reports the collision.
    DrawVxVyN(u8, u8, u8),
    /// Skip the next instruction if the key named by `Vx` is pressed.
    SkipIfKeyPressed(u8),
    /// Skip the next instruction if the key named by `Vx` is not pressed.
    SkipIfKeyNotPressed(u8),
    /// Set `Vx` to the delay timer value.
    LoadDelayTimer(u8),
    /// Wait for a key press and store the key's index in `Vx`.
    WaitForKey(u8),
    /// Set the delay timer to `Vx`.
    SetDelayTimer(u8),
    /// Set the sound timer to `Vx`.
    SetSoundTimer(u8),
    /// Set `I = I + Vx`, wrapping.
    AddVxToI(u8),
    /// Set `I` to the font sprite location of the digit in `Vx`.
    LoadSpriteLocationToI(u8),
    /// Store the decimal digits of `Vx` at `I`, `I + 1`, `I + 2`.
    LoadBcdToI(u8),
    /// Store registers `V0` through `Vx` in memory starting at `I`.
    LoadV0ThroughVxToI(u8),
    /// Read registers `V0` through `Vx` from memory starting at `I`.
    LoadIToV0ThroughVx(u8),
    /// A nibble pattern matching no defined shape; carries the four
    /// nibbles of the word.
    Invalid(u8, u8, u8, u8),
}

/// The instruction a big-endian byte pair decodes to. Decoding is
/// total: every pattern yields a variant, with `Invalid` standing for
/// the shapes the processor does not define.
pub open spec fn spec_parse(b0: u8, b1: u8) -> Instruction {
    let n0 = b0 >> 4;
    let x = b0 & 0x0f;
    let n2 = b1 >> 4;
    let n3 = b1 & 0x0f;
    let nnn = (((b0 as u16) << 8) | (b1 as u16)) & 0x0fff;
    let y = n2;
    let kk = b1;
    if n0 == 0 && x == 0 && n2 == 0xE && n3 == 0 {
        Instruction::ClearDisplay
    } else if n0 == 0 && x == 0 && n2 == 0xE && n3 == 0xE {
        Instruction::Return
    } else if n0 == 1 {
        Instruction::JumpToAddress(nnn)
    } else if n0 == 2 {
        Instruction::CallAddress(nnn)
    } else if n0 == 3 {
        Instruction::SkipIfVxEqualKk(x, kk)
    } else if n0 == 4 {
        Instruction::SkipIfVxNotEqualKk(x, kk)
    } else if n0 == 5 && n3 == 0 {
        Instruction::SkipIfVxEqualVy(x, y)
    } else if n0 == 6 {
        Instruction::LoadVxKk(x, kk)
    } else if n0 == 7 {
        Instruction::AddVxKk(x, kk)
    } else if n0 == 8 && n3 == 0 {
        Instruction::LoadVxVy(x, y)
    } else if n0 == 8 && n3 == 1 {
        Instruction::OrVxVy(x, y)
    } else if n0 == 8 && n3 == 2 {
        Instruction::AndVxVy(x, y)
    } else if n0 == 8 && n3 == 3 {
        Instruction::XorVxVy(x, y)
    } else if n0 == 8 && n3 == 4 {
        Instruction::AddVxVy(x, y)
    } else if n0 == 8 && n3 == 5 {
        Instruction::SubVxVy(x, y)
    } else if n0 == 8 && n3 == 6 {
        Instruction::ShiftRight(x, y)
    } else if n0 == 8 && n3 == 7 {
        Instruction::SubNVxVy(x, y)
    } else if n0 == 8 && n3 == 0xE {
        Instruction::ShiftLeft(x, y)
    } else if n0 == 9 && n3 == 0 {
        Instruction::SkipIfVxNotEqualVy(x, y)
    } else if n0 == 0xA {
        Instruction::LoadAddr(nnn)
    } else if n0 == 0xB {
        Instruction::JumpToAddressPlusV0(nnn)
    } else if n0 == 0xC {
        Instruction::RandomAnd(x, kk)
    } else if n0 == 0xD {
        Instruction::DrawVxVyN(x, y, n3)
    } else if n0 == 0xE && n2 == 9 && n3 == 0xE {
        Instruction::SkipIfKeyPressed(x)
    } else if n0 == 0xE && n2 == 0xA && n3 == 1 {
        Instruction::SkipIfKeyNotPressed(x)
    } else if n0 == 0xF && n2 == 0 && n3 == 7 {
        Instruction::LoadDelayTimer(x)
    } else if n0 == 0xF && n2 == 0 && n3 == 0xA {
        Instruction::WaitForKey(x)
    } else if n0 == 0xF && n2 == 1 && n3 == 5 {
        Instruction::SetDelayTimer(x)
    } else if n0 == 0xF && n2 == 1 && n3 == 8 {
        Instruction::SetSoundTimer(x)
    } else if n0 == 0xF && n2 == 1 && n3 == 0xE {
        Instruction::AddVxToI(x)
    } else if n0 == 0xF && n2 == 2 && n3 == 9 {
        Instruction::LoadSpriteLocationToI(x)
    } else if n0 == 0xF && n2 == 3 && n3 == 3 {
        Instruction::LoadBcdToI(x)
    } else if n0 == 0xF && n2 == 5 && n3 == 5 {
        Instruction::LoadV0ThroughVxToI(x)
    } else if n0 == 0xF && n2 == 6 && n3 == 5 {
        Instruction::LoadIToV0ThroughVx(x)
    } else {
        Instruction::Invalid(n0, x, n2, n3)
    }
}

/// Every operand a decoded instruction carries is in range: register
/// indices and nibbles below 16, addresses below 4096.
pub open spec fn wf_instruction(instruction: Instruction) -> bool {
    match instruction {
        Instruction::ClearDisplay => true,
        Instruction::Return => true,
        Instruction::JumpToAddress(nnn) => nnn < 4096,
        Instruction::CallAddress(nnn) => nnn < 4096,
        Instruction::SkipIfVxEqualKk(x, _kk) => x < 16,
        Instruction::SkipIfVxNotEqualKk(x, _kk) => x < 16,
        Instruction::SkipIfVxEqualVy(x, y) => x < 16 && y < 16,
        Instruction::LoadVxKk(x, _kk) => x < 16,
        Instruction::AddVxKk(x, _kk) => x < 16,
        Instruction::LoadVxVy(x, y) => x < 16 && y < 16,
        Instruction::OrVxVy(x, y) => x < 16 && y < 16,
        Instruction::AndVxVy(x, y) => x < 16 && y < 16,
        Instruction::XorVxVy(x, y) => x < 16 && y < 16,
        Instruction::AddVxVy(x, y) => x < 16 && y < 16,
        Instruction::SubVxVy(x, y) => x < 16 && y < 16,
        Instruction::ShiftRight(x, y) => x < 16 && y < 16,
        Instruction::SubNVxVy(x, y) => x < 16 && y < 16,
        Instruction::ShiftLeft(x, y) => x < 16 && y < 16,
        Instruction::SkipIfVxNotEqualVy(x, y) => x < 16 && y < 16,
        Instruction::LoadAddr(nnn) => nnn < 4096,
        Instruction::JumpToAddressPlusV0(nnn) => nnn < 4096,
        Instruction::RandomAnd(x, _kk) => x < 16,
        Instruction::DrawVxVyN(x, y, n) => x < 16 && y < 16 && n < 16,
        Instruction::SkipIfKeyPressed(x) => x < 16,
        Instruction::SkipIfKeyNotPressed(x) => x < 16,
        Instruction::LoadDelayTimer(x) => x < 16,
        Instruction::WaitForKey(x) => x < 16,
        Instruction::SetDelayTimer(x) => x < 16,
        Instruction::SetSoundTimer(x) => x < 16,
        Instruction::AddVxToI(x) => x < 16,
        Instruction::LoadSpriteLocationToI(x) => x < 16,
        Instruction::LoadBcdToI(x) => x < 16,
        Instruction::LoadV0ThroughVxToI(x) => x < 16,
        Instruction::LoadIToV0ThroughVx(x) => x < 16,
        Instruction::Invalid(a, b, c, d) => a < 16 && b < 16 && c < 16 && d < 16,
    }
}

impl Instruction {
    /// Decode a big-endian byte pair. Decoding never fails: a pattern
    /// matching no defined shape yields the `Invalid` variant.
    pub fn parse(data: (u8, u8)) -> (r: Instruction)
        ensures
            r == spec_parse(data.0, data.1),
            wf_instruction(r),
    {
        let (b0, b1) = data;
        let n0 = b0 >> 4;
        let x = b0 & 0x0f;
        let n2 = b1 >> 4;
        let n3 = b1 & 0x0f;
        let nnn = (((b0 as u16) << 8) | (b1 as u16)) & 0x0fff;
        let y = n2;
        let kk = b1;
        proof {
            assert(b0 >> 4 < 16 && (b0 & 0x0f) < 16 && b1 >> 4 < 16 && (b1 & 0x0f) < 16 && ((((
            b0 as u16) << 8) | (b1 as u16)) & 0x0fff) < 4096) by (bit_vector);
        }
        if n0 == 0 && x == 0 && n2 == 0xE && n3 == 0 {
            Instruction::ClearDisplay
        } else if n0 == 0 && x == 0 && n2 == 0xE && n3 == 0xE {
            Instruction::Return
        } else if n0 == 1 {
            Instruction::JumpToAddress(nnn)
        } else if n0 == 2 {
            Instruction::CallAddress(nnn)
        } else if n0 == 3 {
            Instruction::SkipIfVxEqualKk(x, kk)
        } else if n0 == 4 {
            Instruction::SkipIfVxNotEqualKk(x, kk)
        } else if n0 == 5 && n3 == 0 {
            Instruction::SkipIfVxEqualVy(x, y)
        } else if n0 == 6 {
            Instruction::LoadVxKk(x, kk)
        } else if n0 == 7 {
            Instruction::AddVxKk(x, kk)
        } else if n0 == 8 && n3 == 0 {
            Instruction::LoadVxVy(x, y)
        } else if n0 == 8 && n3 == 1 {
            Instruction::OrVxVy(x, y)
        } else if n0 == 8 && n3 == 2 {
            Instruction::AndVxVy(x, y)
        } else if n0 == 8 && n3 == 3 {
            Instruction::XorVxVy(x, y)
        } else if n0 == 8 && n3 == 4 {
            Instruction::AddVxVy(x, y)
        } else if n0 == 8 && n3 == 5 {
            Instruction::SubVxVy(x, y)
        } else if n0 == 8 && n3 == 6 {
            Instruction::ShiftRight(x, y)
        } else if n0 == 8 && n3 == 7 {
            Instruction::SubNVxVy(x, y)
        } else if n0 == 8 && n3 == 0xE {
            Instruction::ShiftLeft(x, y)
        } else if n0 == 9 && n3 == 0 {
            Instruction::SkipIfVxNotEqualVy(x, y)
        } else if n0 == 0xA {
            Instruction::LoadAddr(nnn)
        } else if n0 == 0xB {
            Instruction::JumpToAddressPlusV0(nnn)
        } else if n0 == 0xC {
            Instruction::RandomAnd(x, kk)
        } else if n0 == 0xD {
            Instruction::DrawVxVyN(x, y, n3)
        } else if n0 == 0xE && n2 == 9 && n3 == 0xE {
            Instruction::SkipIfKeyPressed(x)
        } else if n0 == 0xE && n2 == 0xA && n3 == 1 {
            Instruction::SkipIfKeyNotPressed(x)
        } else if n0 == 0xF && n2 == 0 && n3 == 7 {
            Instruction::LoadDelayTimer(x)
        } else if n0 == 0xF && n2 == 0 && n3 == 0xA {
            Instruction::WaitForKey(x)
        } else if n0 == 0xF && n2 == 1 && n3 == 5 {
            Instruction::SetDelayTimer(x)
        } else if n0 == 0xF && n2 == 1 && n3 == 8 {
            Instruction::SetSoundTimer(x)
        } else if n0 == 0xF && n2 == 1 && n3 == 0xE {
            Instruction::AddVxToI(x)
        } else if n0 == 0xF && n2 == 2 && n3 == 9 {
            Instruction::LoadSpriteLocationToI(x)
        } else if n0 == 0xF && n2 == 3 && n3 == 3 {
            Instruction::LoadBcdToI(x)
        } else if n0 == 0xF && n2 == 5 && n3 == 5 {
            Instruction::LoadV0ThroughVxToI(x)
        } else if n0 == 0xF && n2 == 6 && n3 == 5 {
            Instruction::LoadIToV0ThroughVx(x)
        } else {
            Instruction::Invalid(n0, x, n2, n3)
        }
    }
}

} // verus!
