//! Instruction decoding: a 16-bit instruction word is split by fixed-width
//! fields into a tagged instruction, dispatching first on the top nibble and
//! then, for the 0x0, 0x8, 0xE and 0xF classes, on the low selector field.

use vstd::prelude::*;

verus! {

/// A decoded CHIP-8 instruction. `x` and `y` are register indices (always
/// below 16), `kk` a byte immediate, `n` a nibble immediate and `nnn` a
/// 12-bit address immediate.
#[derive(Clone, Copy, Debug, PartialEq, Eq, Structural)]
pub enum Instr {
    /// 00E0: clear the framebuffer.
    Cls,
    /// 00EE: return from a subroutine.
    Ret,
    /// 0nnn: legacy machine-code call; a no-op.
    Sys(u16),
    /// 1nnn: jump to nnn.
    Jp(u16),
    /// 2nnn: call the subroutine at nnn.
    Call(u16),
    /// 3xkk: skip the next instruction if V[x] == kk.
    SeByte(u8, u8),
    /// 4xkk: skip the next instruction if V[x] != kk.
    SneByte(u8, u8),
    /// 5xy0: skip the next instruction if V[x] == V[y].
    SeReg(u8, u8),
    /// 6xkk: V[x] = kk.
    LdByte(u8, u8),
    /// 7xkk: V[x] += kk, truncated to 8 bits, carry flag untouched.
    AddByte(u8, u8),
    /// 8xy0: V[x] = V[y].
    LdReg(u8, u8),
    /// 8xy1: V[x] |= V[y].
    Or(u8, u8),
    /// 8xy2: V[x] &= V[y].
    And(u8, u8),
    /// 8xy3: V[x] ^= V[y].
    Xor(u8, u8),
    /// 8xy4: 9-bit add with VF as the carry flag.
    AddReg(u8, u8),
    /// 8xy5: V[x] -= V[y] with wraparound, VF as the no-borrow flag.
    Sub(u8, u8),
    /// 8xy6: shift V[x] right by one, VF gets the old low bit.
    Shr(u8, u8),
    /// 8xy7: V[x] = V[y] - V[x] with wraparound, VF as the no-borrow flag.
    Subn(u8, u8),
    /// 8xyE: shift V[x] left by one truncated, VF gets the old high bit.
    Shl(u8, u8),
    /// 9xy0: skip the next instruction if V[x] != V[y].
    SneReg(u8, u8),
    /// Annn: I = nnn.
    LdI(u16),
    /// Bnnn: jump to nnn + V[0].
    JpV0(u16),
    /// Cxkk: V[x] = random byte AND kk.
    Rnd(u8, u8),
    /// Dxyn: draw the n-byte sprite at memory[I] at (V[x], V[y]).
    Drw(u8, u8, u8),
    /// Ex9E: skip the next instruction if key V[x] & 0xF is held.
    Skp(u8),
    /// ExA1: skip the next instruction if key V[x] & 0xF is released.
    Sknp(u8),
    /// Fx07: V[x] = delay timer.
    LdFromDt(u8),
    /// Fx0A: wait for a key press, then V[x] = its index.
    WaitKey(u8),
    /// Fx15: delay timer = V[x], resetting the 60 Hz reference timestamp.
    SetDt(u8),
    /// Fx18: sound timer = V[x].
    SetSt(u8),
    /// Fx1E: I += V[x], bounds-checked against the address space.
    AddI(u8),
    /// Fx29: I = address of the font glyph for V[x].
    LdFont(u8),
    /// Fx33: store the decimal digits of V[x] at memory[I..I+3].
    Bcd(u8),
    /// Fx55: copy V[0..=x] into memory starting at I.
    StoreRegs(u8),
    /// Fx65: copy memory starting at I into V[0..=x].
    LoadRegs(u8),
    /// Any unassigned encoding; executes as a no-op.
    Unknown(u16),
}

/// Field extraction and two-level dispatch for a 16-bit instruction word.
pub open spec fn spec_decode(instr: u16) -> Instr {
    let op = instr / 0x1000;
    let x = ((instr / 0x100) % 0x10) as u8;
    let y = ((instr / 0x10) % 0x10) as u8;
    let n = (instr % 0x10) as u8;
    let nn = (instr % 0x100) as u8;
    let nnn = instr % 0x1000;
    if op == 0x0 {
        if nnn == 0x0E0 {
            Instr::Cls
        } else if nnn == 0x0EE {
            Instr::Ret
        } else {
            Instr::Sys(nnn)
        }
    } else if op == 0x1 {
        Instr::Jp(nnn)
    } else if op == 0x2 {
        Instr::Call(nnn)
    } else if op == 0x3 {
        Instr::SeByte(x, nn)
    } else if op == 0x4 {
        Instr::SneByte(x, nn)
    } else if op == 0x5 {
        Instr::SeReg(x, y)
    } else if op == 0x6 {
        Instr::LdByte(x, nn)
    } else if op == 0x7 {
        Instr::AddByte(x, nn)
    } else if op == 0x8 {
        if n == 0x0 {
            Instr::LdReg(x, y)
        } else if n == 0x1 {
            Instr::Or(x, y)
        } else if n == 0x2 {
            Instr::And(x, y)
        } else if n == 0x3 {
            Instr::Xor(x, y)
        } else if n == 0x4 {
            Instr::AddReg(x, y)
        } else if n == 0x5 {
            Instr::Sub(x, y)
        } else if n == 0x6 {
            Instr::Shr(x, y)
        } else if n == 0x7 {
            Instr::Subn(x, y)
        } else if n == 0xE {
            Instr::Shl(x, y)
        } else {
            Instr::Unknown(instr)
        }
    } else if op == 0x9 {
        Instr::SneReg(x, y)
    } else if op == 0xA {
        Instr::LdI(nnn)
    } else if op == 0xB {
        Instr::JpV0(nnn)
    } else if op == 0xC {
        Instr::Rnd(x, nn)
    } else if op == 0xD {
        Instr::Drw(x, y, n)
    } else if op == 0xE {
        if nn == 0x9E {
            Instr::Skp(x)
        } else if nn == 0xA1 {
            Instr::Sknp(x)
        } else {
            Instr::Unknown(instr)
        }
    } else {
        if nn == 0x07 {
            Instr::LdFromDt(x)
        } else if nn == 0x0A {
            Instr::WaitKey(x)
        } else if nn == 0x15 {
            Instr::SetDt(x)
        } else if nn == 0x18 {
            Instr::SetSt(x)
        } else if nn == 0x1E {
            Instr::AddI(x)
        } else if nn == 0x29 {
            Instr::LdFont(x)
        } else if nn == 0x33 {
            Instr::Bcd(x)
        } else if nn == 0x55 {
            Instr::StoreRegs(x)
        } else if nn == 0x65 {
            Instr::LoadRegs(x)
        } else {
            Instr::Unknown(instr)
        }
    }
}

/// Every register index carried by a decoded instruction is a nibble, every
/// address immediate is 12 bits, and every nibble immediate is 4 bits.
pub open spec fn instr_fields_bounded(inst: Instr) -> bool {
    match inst {
        Instr::Cls => true,
        Instr::Ret => true,
        Instr::Sys(nnn) => nnn < 0x1000,
        Instr::Jp(nnn) => nnn < 0x1000,
        Instr::Call(nnn) => nnn < 0x1000,
        Instr::SeByte(x, _kk) => x < 16,
        Instr::SneByte(x, _kk) => x < 16,
        Instr::SeReg(x, y) => x < 16 && y < 16,
        Instr::LdByte(x, _kk) => x < 16,
        Instr::AddByte(x, _kk) => x < 16,
        Instr::LdReg(x, y) => x < 16 && y < 16,
        Instr::Or(x, y) => x < 16 && y < 16,
        Instr::And(x, y) => x < 16 && y < 16,
        Instr::Xor(x, y) => x < 16 && y < 16,
        Instr::AddReg(x, y) => x < 16 && y < 16,
        Instr::Sub(x, y) => x < 16 && y < 16,
        Instr::Shr(x, y) => x < 16 && y < 16,
        Instr::Subn(x, y) => x < 16 && y < 16,
        Instr::Shl(x, y) => x < 16 && y < 16,
        Instr::SneReg(x, y) => x < 16 && y < 16,
        Instr::LdI(nnn) => nnn < 0x1000,
        Instr::JpV0(nnn) => nnn < 0x1000,
        Instr::Rnd(x, _kk) => x < 16,
        Instr::Drw(x, y, n) => x < 16 && y < 16 && n < 16,
        Instr::Skp(x) => x < 16,
        Instr::Sknp(x) => x < 16,
        Instr::LdFromDt(x) => x < 16,
        Instr::WaitKey(x) => x < 16,
        Instr::SetDt(x) => x < 16,
        Instr::SetSt(x) => x < 16,
        Instr::AddI(x) => x < 16,
        Instr::LdFont(x) => x < 16,
        Instr::Bcd(x) => x < 16,
        Instr::StoreRegs(x) => x < 16,
        Instr::LoadRegs(x) => x < 16,
        Instr::Unknown(_) => true,
    }
}

/// Decode a 16-bit instruction word into its tagged form.
pub fn decode(instr: u16) -> (r: Instr)
    ensures
        r == spec_decode(instr),
        instr_fields_bounded(r),
{
    let op = instr / 0x1000;
    let x = ((instr / 0x100) % 0x10) as u8;
    let y = ((instr / 0x10) % 0x10) as u8;
    let n = (instr % 0x10) as u8;
    let nn = (instr % 0x100) as u8;
    let nnn = instr % 0x1000;
    match op {
        0x0 => match nnn {
            0x0E0 => Instr::Cls,
            0x0EE => Instr::Ret,
            _ => Instr::Sys(nnn),
        },
        0x1 => Instr::Jp(nnn),
        0x2 => Instr::Call(nnn),
        0x3 => Instr::SeByte(x, nn),
        0x4 => Instr::SneByte(x, nn),
        0x5 => Instr::SeReg(x, y),
        0x6 => Instr::LdByte(x, nn),
        0x7 => Instr::AddByte(x, nn),
        0x8 => match n {
            0x0 => Instr::LdReg(x, y),
            0x1 => Instr::Or(x, y),
            0x2 => Instr::And(x, y),
            0x3 => Instr::Xor(x, y),
            0x4 => Instr::AddReg(x, y),
            0x5 => Instr::Sub(x, y),
            0x6 => Instr::Shr(x, y),
            0x7 => Instr::Subn(x, y),
            0xE => Instr::Shl(x, y),
            _ => Instr::Unknown(instr),
        },
        0x9 => Instr::SneReg(x, y),
        0xA => Instr::LdI(nnn),
        0xB => Instr::JpV0(nnn),
        0xC => Instr::Rnd(x, nn),
        0xD => Instr::Drw(x, y, n),
        0xE => match nn {
            0x9E => Instr::Skp(x),
            0xA1 => Instr::Sknp(x),
            _ => Instr::Unknown(instr),
        },
        _ => match nn {
            0x07 => Instr::LdFromDt(x),
            0x0A => Instr::WaitKey(x),
            0x15 => Instr::SetDt(x),
            0x18 => Instr::SetSt(x),
            0x1E => Instr::AddI(x),
            0x29 => Instr::LdFont(x),
            0x33 => Instr::Bcd(x),
            0x55 => Instr::StoreRegs(x),
            0x65 => Instr::LoadRegs(x),
            _ => Instr::Unknown(instr),
        },
    }
}

} // verus!
