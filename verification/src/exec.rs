//! The 35 instruction handlers. Each one mirrors its row of the opcode table:
//! the decoder has already advanced the program counter past the instruction,
//! so jump, call, return and skip handlers overwrite it here. Handlers that
//! index memory or the call stack check bounds first and report a fatal
//! `CpuError` instead of touching anything.

use vstd::prelude::*;

use crate::state::{
    CpuError, CpuView, Processor, view_wf, DISPLAY_SIZE, FONT_BASE, MEMORY_SIZE, STACK_SIZE,
};

verus! {

/// The view with register `x` set to `val`.
pub open spec fn with_reg(s: CpuView, x: int, val: u8) -> CpuView {
    CpuView { v: s.v.update(x, val), ..s }
}

/// The view with the program counter set to `pc`.
pub open spec fn with_pc(s: CpuView, pc: u16) -> CpuView {
    CpuView { pc, ..s }
}

/// The view with the program counter moved past the next instruction.
pub open spec fn skipped(s: CpuView) -> CpuView {
    with_pc(s, (s.pc + 2) as u16)
}

/// 8-bit addition truncated to the low 8 bits.
pub open spec fn wrap_add(a: u8, b: u8) -> u8 {
    ((a + b) % 256) as u8
}

/// 8-bit subtraction with wraparound on borrow.
pub open spec fn wrap_sub(a: u8, b: u8) -> u8 {
    if a >= b {
        (a - b) as u8
    } else {
        (a + 256 - b) as u8
    }
}

/// An all-off framebuffer.
pub open spec fn cleared_vram() -> Seq<u8> {
    Seq::new(DISPLAY_SIZE as nat, |p: int| 0u8)
}

/// 0nnn - SYS addr. A machine-code call on the original hardware; modern
/// interpreters ignore it.
pub fn inst_0nnn(cpu: &mut Processor, nnn: u16)
    ensures
        final(cpu)@ == old(cpu)@,
{
    let _ = nnn;
}

/// 00E0 - CLS. Clear the framebuffer to all-off.
pub fn inst_00E0(cpu: &mut Processor)
    requires
        view_wf(old(cpu)@),
    ensures
        view_wf(final(cpu)@),
        final(cpu)@ == (CpuView { vram: cleared_vram(), ..old(cpu)@ }),
{
    let mut p: usize = 0;
    while p < DISPLAY_SIZE
        invariant
            view_wf(cpu@),
            p <= DISPLAY_SIZE,
            cpu@ == (CpuView { vram: cpu@.vram, ..old(cpu)@ }),
            cpu@.vram.len() == DISPLAY_SIZE,
            forall|k: int| 0 <= k < p ==> cpu@.vram[k] == 0,
            forall|k: int| p <= k < DISPLAY_SIZE ==> cpu@.vram[k] == old(cpu)@.vram[k],
        decreases DISPLAY_SIZE - p,
    {
        cpu.vram.set(p, 0);
        p += 1;
    }
    proof {
        assert(cpu@.vram =~= cleared_vram());
    }
}

/// 00EE - RET. Return from a subroutine: the program counter is restored from
/// the top of the stack and the stack pointer steps down. A return with an
/// empty stack is fatal.
pub fn inst_00EE(cpu: &mut Processor) -> (r: Result<(), CpuError>)
    requires
        view_wf(old(cpu)@),
    ensures
        view_wf(final(cpu)@),
        old(cpu)@.sp == 0 ==> r == Err::<(), CpuError>(CpuError::StackUnderflow) && final(cpu)@
            == old(cpu)@,
        old(cpu)@.sp > 0 ==> r == Ok::<(), CpuError>(()) && final(cpu)@ == (CpuView {
            pc: old(cpu)@.stack[old(cpu)@.sp as int],
            sp: (old(cpu)@.sp - 1) as u8,
            ..old(cpu)@
        }),
{
    if cpu.sp == 0 {
        return Err(CpuError::StackUnderflow);
    }
    cpu.pc = cpu.stack[cpu.sp as usize];
    cpu.sp = cpu.sp - 1;
    Ok(())
}

/// 1nnn - JP addr. Jump: the program counter is set to nnn.
pub fn inst_1nnn(cpu: &mut Processor, nnn: u16)
    ensures
        final(cpu)@ == with_pc(old(cpu)@, nnn),
{
    cpu.pc = nnn;
}

/// 2nnn - CALL addr. Call the subroutine at nnn: the stack pointer steps up,
/// the address after the call is stored at the new top, and the program
/// counter is set to nnn. A sixteenth nested call is fatal.
pub fn inst_2nnn(cpu: &mut Processor, nnn: u16) -> (r: Result<(), CpuError>)
    requires
        view_wf(old(cpu)@),
    ensures
        view_wf(final(cpu)@),
        old(cpu)@.sp + 1 >= STACK_SIZE ==> r == Err::<(), CpuError>(CpuError::StackOverflow)
            && final(cpu)@ == old(cpu)@,
        old(cpu)@.sp + 1 < STACK_SIZE ==> r == Ok::<(), CpuError>(()) && final(cpu)@ == (CpuView {
            sp: (old(cpu)@.sp + 1) as u8,
            stack: old(cpu)@.stack.update(old(cpu)@.sp + 1, old(cpu)@.pc),
            pc: nnn,
            ..old(cpu)@
        }),
{
    if cpu.sp + 1 >= STACK_SIZE as u8 {
        return Err(CpuError::StackOverflow);
    }
    cpu.sp = cpu.sp + 1;
    cpu.stack.set(cpu.sp as usize, cpu.pc);
    cpu.pc = nnn;
    Ok(())
}

/// 3xkk - SE Vx, byte. Skip the next instruction iff V[x] == kk.
pub fn inst_3xkk(cpu: &mut Processor, x: u8, kk: u8)
    requires
        view_wf(old(cpu)@),
        x < 16,
        old(cpu)@.pc + 2 <= u16::MAX,
    ensures
        view_wf(final(cpu)@),
        final(cpu)@ == if old(cpu)@.v[x as int] == kk {
            skipped(old(cpu)@)
        } else {
            old(cpu)@
        },
{
    if cpu.v[x as usize] == kk {
        cpu.pc = cpu.pc + 2;
    }
}

/// 4xkk - SNE Vx, byte. Skip the next instruction iff V[x] != kk.
pub fn inst_4xkk(cpu: &mut Processor, x: u8, kk: u8)
    requires
        view_wf(old(cpu)@),
        x < 16,
        old(cpu)@.pc + 2 <= u16::MAX,
    ensures
        view_wf(final(cpu)@),
        final(cpu)@ == if old(cpu)@.v[x as int] != kk {
            skipped(old(cpu)@)
        } else {
            old(cpu)@
        },
{
    if cpu.v[x as usize] != kk {
        cpu.pc = cpu.pc + 2;
    }
}

/// 5xy0 - SE Vx, Vy. Skip the next instruction iff V[x] == V[y].
pub fn inst_5xy0(cpu: &mut Processor, x: u8, y: u8)
    requires
        view_wf(old(cpu)@),
        x < 16,
        y < 16,
        old(cpu)@.pc + 2 <= u16::MAX,
    ensures
        view_wf(final(cpu)@),
        final(cpu)@ == if old(cpu)@.v[x as int] == old(cpu)@.v[y as int] {
            skipped(old(cpu)@)
        } else {
            old(cpu)@
        },
{
    if cpu.v[x as usize] == cpu.v[y as usize] {
        cpu.pc = cpu.pc + 2;
    }
}

/// 6xkk - LD Vx, byte. V[x] = kk.
pub fn inst_6xkk(cpu: &mut Processor, x: u8, kk: u8)
    requires
        view_wf(old(cpu)@),
        x < 16,
    ensures
        view_wf(final(cpu)@),
        final(cpu)@ == with_reg(old(cpu)@, x as int, kk),
{
    cpu.v.set(x as usize, kk);
}

/// 7xkk - ADD Vx, byte. V[x] += kk truncated to 8 bits; the carry flag is not
/// touched.
pub fn inst_7xkk(cpu: &mut Processor, x: u8, kk: u8)
    requires
        view_wf(old(cpu)@),
        x < 16,
    ensures
        view_wf(final(cpu)@),
        final(cpu)@ == with_reg(old(cpu)@, x as int, wrap_add(old(cpu)@.v[x as int], kk)),
{
    let sum: u16 = cpu.v[x as usize] as u16 + kk as u16;
    cpu.v.set(x as usize, (sum % 256) as u8);
}

/// 8xy0 - LD Vx, Vy. V[x] = V[y].
pub fn inst_8xy0(cpu: &mut Processor, x: u8, y: u8)
    requires
        view_wf(old(cpu)@),
        x < 16,
        y < 16,
    ensures
        view_wf(final(cpu)@),
        final(cpu)@ == with_reg(old(cpu)@, x as int, old(cpu)@.v[y as int]),
{
    let vy = cpu.v[y as usize];
    cpu.v.set(x as usize, vy);
}

/// 8xy1 - OR Vx, Vy. V[x] |= V[y].
pub fn inst_8xy1(cpu: &mut Processor, x: u8, y: u8)
    requires
        view_wf(old(cpu)@),
        x < 16,
        y < 16,
    ensures
        view_wf(final(cpu)@),
        final(cpu)@ == with_reg(
            old(cpu)@,
            x as int,
            old(cpu)@.v[x as int] | old(cpu)@.v[y as int],
        ),
{
    let r = cpu.v[x as usize] | cpu.v[y as usize];
    cpu.v.set(x as usize, r);
}

/// 8xy2 - AND Vx, Vy. V[x] &= V[y].
pub fn inst_8xy2(cpu: &mut Processor, x: u8, y: u8)
    requires
        view_wf(old(cpu)@),
        x < 16,
        y < 16,
    ensures
        view_wf(final(cpu)@),
        final(cpu)@ == with_reg(
            old(cpu)@,
            x as int,
            old(cpu)@.v[x as int] & old(cpu)@.v[y as int],
        ),
{
    let r = cpu.v[x as usize] & cpu.v[y as usize];
    cpu.v.set(x as usize, r);
}

/// 8xy3 - XOR Vx, Vy. V[x] ^= V[y].
pub fn inst_8xy3(cpu: &mut Processor, x: u8, y: u8)
    requires
        view_wf(old(cpu)@),
        x < 16,
        y < 16,
    ensures
        view_wf(final(cpu)@),
        final(cpu)@ == with_reg(
            old(cpu)@,
            x as int,
            old(cpu)@.v[x as int] ^ old(cpu)@.v[y as int],
        ),
{
    let r = cpu.v[x as usize] ^ cpu.v[y as usize];
    cpu.v.set(x as usize, r);
}

/// 8xy4 - ADD Vx, Vy. 9-bit add: VF becomes 1 exactly when the true sum
/// exceeds 255, and V[x] keeps the low 8 bits of the sum.
pub fn inst_8xy4(cpu: &mut Processor, x: u8, y: u8)
    requires
        view_wf(old(cpu)@),
        x < 16,
        y < 16,
    ensures
        view_wf(final(cpu)@),
        final(cpu)@ == ({
            let vx = old(cpu)@.v[x as int];
            let vy = old(cpu)@.v[y as int];
            let carry: u8 = if vx + vy > 255 {
                1
            } else {
                0
            };
            with_reg(with_reg(old(cpu)@, 0xF, carry), x as int, wrap_add(vx, vy))
        }),
{
    let sum: u16 = cpu.v[x as usize] as u16 + cpu.v[y as usize] as u16;
    let carry: u8 = if sum > 255 {
        1
    } else {
        0
    };
    cpu.v.set(0xF, carry);
    cpu.v.set(x as usize, (sum % 256) as u8);
}

/// 8xy5 - SUB Vx, Vy. VF becomes the no-borrow flag (1 iff V[x] > V[y]), and
/// V[x] -= V[y] with 8-bit wraparound on borrow.
pub fn inst_8xy5(cpu: &mut Processor, x: u8, y: u8)
    requires
        view_wf(old(cpu)@),
        x < 16,
        y < 16,
    ensures
        view_wf(final(cpu)@),
        final(cpu)@ == ({
            let vx = old(cpu)@.v[x as int];
            let vy = old(cpu)@.v[y as int];
            let no_borrow: u8 = if vx > vy {
                1
            } else {
                0
            };
            with_reg(with_reg(old(cpu)@, 0xF, no_borrow), x as int, wrap_sub(vx, vy))
        }),
{
    let vx = cpu.v[x as usize];
    let vy = cpu.v[y as usize];
    let no_borrow: u8 = if vx > vy {
        1
    } else {
        0
    };
    cpu.v.set(0xF, no_borrow);
    let diff: u8 = if vx >= vy {
        vx - vy
    } else {
        (vx as u16 + 256 - vy as u16) as u8
    };
    cpu.v.set(x as usize, diff);
}

/// 8xy6 - SHR Vx. VF gets the low bit of V[x]; V[x] is halved. The modern
/// Vx-only shift: y is ignored.
pub fn inst_8xy6(cpu: &mut Processor, x: u8, y: u8)
    requires
        view_wf(old(cpu)@),
        x < 16,
    ensures
        view_wf(final(cpu)@),
        final(cpu)@ == ({
            let vx = old(cpu)@.v[x as int];
            with_reg(with_reg(old(cpu)@, 0xF, (vx % 2) as u8), x as int, vx / 2)
        }),
{
    let _ = y;
    let vx = cpu.v[x as usize];
    cpu.v.set(0xF, vx % 2);
    cpu.v.set(x as usize, vx / 2);
}

/// 8xy7 - SUBN Vx, Vy. VF becomes 1 iff V[y] > V[x], and V[x] = V[y] - V[x]
/// with wraparound.
pub fn inst_8xy7(cpu: &mut Processor, x: u8, y: u8)
    requires
        view_wf(old(cpu)@),
        x < 16,
        y < 16,
    ensures
        view_wf(final(cpu)@),
        final(cpu)@ == ({
            let vx = old(cpu)@.v[x as int];
            let vy = old(cpu)@.v[y as int];
            let no_borrow: u8 = if vy > vx {
                1
            } else {
                0
            };
            with_reg(with_reg(old(cpu)@, 0xF, no_borrow), x as int, wrap_sub(vy, vx))
        }),
{
    let vx = cpu.v[x as usize];
    let vy = cpu.v[y as usize];
    let no_borrow: u8 = if vy > vx {
        1
    } else {
        0
    };
    cpu.v.set(0xF, no_borrow);
    let diff: u8 = if vy >= vx {
        vy - vx
    } else {
        (vy as u16 + 256 - vx as u16) as u8
    };
    cpu.v.set(x as usize, diff);
}

/// 8xyE - SHL Vx. VF gets the high bit of V[x]; V[x] is doubled, truncated to
/// 8 bits. The modern Vx-only shift: y is ignored.
pub fn inst_8xyE(cpu: &mut Processor, x: u8, y: u8)
    requires
        view_wf(old(cpu)@),
        x < 16,
    ensures
        view_wf(final(cpu)@),
        final(cpu)@ == ({
            let vx = old(cpu)@.v[x as int];
            with_reg(
                with_reg(old(cpu)@, 0xF, (vx / 128) as u8),
                x as int,
                ((vx * 2) % 256) as u8,
            )
        }),
{
    let _ = y;
    let vx = cpu.v[x as usize];
    cpu.v.set(0xF, vx / 128);
    cpu.v.set(x as usize, ((vx as u16 * 2) % 256) as u8);
}

/// 9xy0 - SNE Vx, Vy. Skip the next instruction iff V[x] != V[y].
pub fn inst_9xy0(cpu: &mut Processor, x: u8, y: u8)
    requires
        view_wf(old(cpu)@),
        x < 16,
        y < 16,
        old(cpu)@.pc + 2 <= u16::MAX,
    ensures
        view_wf(final(cpu)@),
        final(cpu)@ == if old(cpu)@.v[x as int] != old(cpu)@.v[y as int] {
            skipped(old(cpu)@)
        } else {
            old(cpu)@
        },
{
    if cpu.v[x as usize] != cpu.v[y as usize] {
        cpu.pc = cpu.pc + 2;
    }
}

/// Annn - LD I, addr. The index register is set to nnn.
pub fn inst_Annn(cpu: &mut Processor, nnn: u16)
    ensures
        final(cpu)@ == (CpuView { i: nnn, ..old(cpu)@ }),
{
    cpu.i = nnn;
}

/// Bnnn - JP V0, addr. Jump to nnn + V[0].
pub fn inst_Bnnn(cpu: &mut Processor, nnn: u16)
    requires
        view_wf(old(cpu)@),
        nnn < 0x1000,
    ensures
        view_wf(final(cpu)@),
        final(cpu)@ == with_pc(old(cpu)@, (nnn + old(cpu)@.v[0]) as u16),
{
    cpu.pc = nnn + cpu.v[0] as u16;
}

/// Cxkk - RND Vx, byte. V[x] = rnd & kk, where rnd is the byte the entropy
/// source handed this cycle.
pub fn inst_Cxkk(cpu: &mut Processor, x: u8, kk: u8, rnd: u8)
    requires
        view_wf(old(cpu)@),
        x < 16,
    ensures
        view_wf(final(cpu)@),
        final(cpu)@ == with_reg(old(cpu)@, x as int, rnd & kk),
{
    cpu.v.set(x as usize, rnd & kk);
}

/// Ex9E - SKP Vx. Skip the next instruction iff key V[x] & 0xF is held in
/// this cycle's keyboard snapshot.
pub fn inst_Ex9E(cpu: &mut Processor, x: u8, keyboard_input: [bool; 16])
    requires
        view_wf(old(cpu)@),
        x < 16,
        old(cpu)@.pc + 2 <= u16::MAX,
    ensures
        view_wf(final(cpu)@),
        final(cpu)@ == if keyboard_input@[(old(cpu)@.v[x as int] % 16) as int] {
            skipped(old(cpu)@)
        } else {
            old(cpu)@
        },
{
    let key = (cpu.v[x as usize] % 16) as usize;
    if keyboard_input[key] {
        cpu.pc = cpu.pc + 2;
    }
}

/// ExA1 - SKNP Vx. Skip the next instruction iff key V[x] & 0xF is released
/// in this cycle's keyboard snapshot.
pub fn inst_ExA1(cpu: &mut Processor, x: u8, keyboard_input: [bool; 16])
    requires
        view_wf(old(cpu)@),
        x < 16,
        old(cpu)@.pc + 2 <= u16::MAX,
    ensures
        view_wf(final(cpu)@),
        final(cpu)@ == if !keyboard_input@[(old(cpu)@.v[x as int] % 16) as int] {
            skipped(old(cpu)@)
        } else {
            old(cpu)@
        },
{
    let key = (cpu.v[x as usize] % 16) as usize;
    if !keyboard_input[key] {
        cpu.pc = cpu.pc + 2;
    }
}

/// Fx07 - LD Vx, DT. V[x] = delay timer.
pub fn inst_Fx07(cpu: &mut Processor, x: u8)
    requires
        view_wf(old(cpu)@),
        x < 16,
    ensures
        view_wf(final(cpu)@),
        final(cpu)@ == with_reg(old(cpu)@, x as int, old(cpu)@.delay_timer),
{
    let dt = cpu.delay_timer;
    cpu.v.set(x as usize, dt);
}

/// The lowest held key index at or after `i` in the 16-key snapshot, or 16
/// when none is held there.
pub open spec fn first_pressed(keys: Seq<bool>, i: int) -> int
    decreases 16 - i,
{
    if i < 0 || i >= 16 {
        16
    } else if keys[i] {
        i
    } else {
        first_pressed(keys, i + 1)
    }
}

/// Fx0A - LD Vx, K. Wait for a key press: with no key held this cycle the
/// program counter steps back onto this instruction, so the next cycle decodes
/// it again; once a key is held, V[x] gets the lowest held key index.
pub fn inst_Fx0A(cpu: &mut Processor, x: u8, keyboard_input: [bool; 16])
    requires
        view_wf(old(cpu)@),
        x < 16,
        old(cpu)@.pc >= 2,
    ensures
        view_wf(final(cpu)@),
        final(cpu)@ == ({
            let k = first_pressed(keyboard_input@, 0);
            if k < 16 {
                with_reg(old(cpu)@, x as int, k as u8)
            } else {
                with_pc(old(cpu)@, (old(cpu)@.pc - 2) as u16)
            }
        }),
{
    let mut k: usize = 0;
    while k < 16
        invariant
            view_wf(cpu@),
            cpu@ == old(cpu)@,
            x < 16,
            k <= 16,
            first_pressed(keyboard_input@, 0) == first_pressed(keyboard_input@, k as int),
        decreases 16 - k,
    {
        if keyboard_input[k] {
            cpu.v.set(x as usize, k as u8);
            return ;
        }
        k += 1;
    }
    cpu.pc = cpu.pc - 2;
}

/// Fx15 - LD DT, Vx. The delay timer is set to V[x] and the 60 Hz reference
/// timestamp is reset to `now_ms`, so a fresh value is not immediately
/// decremented by stale elapsed time.
pub fn inst_Fx15(cpu: &mut Processor, x: u8, now_ms: u64)
    requires
        view_wf(old(cpu)@),
        x < 16,
    ensures
        view_wf(final(cpu)@),
        final(cpu)@ == (CpuView {
            delay_timer: old(cpu)@.v[x as int],
            last_tick_ms: now_ms,
            ..old(cpu)@
        }),
{
    cpu.delay_timer = cpu.v[x as usize];
    cpu.last_tick_ms = now_ms;
}

/// Fx18 - LD ST, Vx. The sound timer is set to V[x].
pub fn inst_Fx18(cpu: &mut Processor, x: u8)
    requires
        view_wf(old(cpu)@),
        x < 16,
    ensures
        view_wf(final(cpu)@),
        final(cpu)@ == (CpuView { sound_timer: old(cpu)@.v[x as int], ..old(cpu)@ }),
{
    cpu.sound_timer = cpu.v[x as usize];
}

/// Fx1E - ADD I, Vx. I += V[x], rejected as fatal if the sum would leave the
/// 4 KB address space rather than silently wrapping.
pub fn inst_Fx1E(cpu: &mut Processor, x: u8) -> (r: Result<(), CpuError>)
    requires
        view_wf(old(cpu)@),
        x < 16,
    ensures
        view_wf(final(cpu)@),
        old(cpu)@.i + old(cpu)@.v[x as int] >= MEMORY_SIZE ==> r == Err::<(), CpuError>(
            CpuError::MemoryOutOfBounds,
        ) && final(cpu)@ == old(cpu)@,
        old(cpu)@.i + old(cpu)@.v[x as int] < MEMORY_SIZE ==> r == Ok::<(), CpuError>(())
            && final(cpu)@ == (CpuView {
            i: (old(cpu)@.i + old(cpu)@.v[x as int]) as u16,
            ..old(cpu)@
        }),
{
    let vx = cpu.v[x as usize];
    if cpu.i as u32 + vx as u32 >= MEMORY_SIZE as u32 {
        return Err(CpuError::MemoryOutOfBounds);
    }
    cpu.i = cpu.i + vx as u16;
    Ok(())
}

/// Fx29 - LD F, Vx. I = the address of the five-byte font glyph for V[x]:
/// FONT_BASE + V[x] * 5.
pub fn inst_Fx29(cpu: &mut Processor, x: u8)
    requires
        view_wf(old(cpu)@),
        x < 16,
    ensures
        view_wf(final(cpu)@),
        final(cpu)@ == (CpuView {
            i: (FONT_BASE + old(cpu)@.v[x as int] * 5) as u16,
            ..old(cpu)@
        }),
{
    let vx = cpu.v[x as usize];
    cpu.i = FONT_BASE as u16 + vx as u16 * 5;
}

/// Fx33 - LD B, Vx. The decimal digits of V[x] (hundreds, tens, ones) are
/// stored at memory[I], memory[I+1], memory[I+2]; an access past the address
/// space is fatal.
pub fn inst_Fx33(cpu: &mut Processor, x: u8) -> (r: Result<(), CpuError>)
    requires
        view_wf(old(cpu)@),
        x < 16,
    ensures
        view_wf(final(cpu)@),
        old(cpu)@.i + 2 >= MEMORY_SIZE ==> r == Err::<(), CpuError>(CpuError::MemoryOutOfBounds)
            && final(cpu)@ == old(cpu)@,
        old(cpu)@.i + 2 < MEMORY_SIZE ==> r == Ok::<(), CpuError>(()) && final(cpu)@ == ({
            let vx = old(cpu)@.v[x as int];
            let a = old(cpu)@.i as int;
            CpuView {
                memory: old(cpu)@.memory.update(a, (vx / 100) as u8).update(
                    a + 1,
                    ((vx / 10) % 10) as u8,
                ).update(a + 2, (vx % 10) as u8),
                ..old(cpu)@
            }
        }),
{
    if cpu.i as u32 + 2 >= MEMORY_SIZE as u32 {
        return Err(CpuError::MemoryOutOfBounds);
    }
    let vx = cpu.v[x as usize];
    let a = cpu.i as usize;
    write_mem(cpu, a, vx / 100);
    write_mem(cpu, a + 1, (vx / 10) % 10);
    write_mem(cpu, a + 2, vx % 10);
    Ok(())
}

/// Write one memory byte.
fn write_mem(cpu: &mut Processor, a: usize, val: u8)
    requires
        view_wf(old(cpu)@),
        a < MEMORY_SIZE,
    ensures
        view_wf(final(cpu)@),
        final(cpu)@ == (CpuView { memory: old(cpu)@.memory.update(a as int, val), ..old(cpu)@ }),
{
    cpu.memory.set(a, val);
}

/// Fx55 - LD [I], Vx. Registers V[0..=x] are copied into memory starting at
/// I; an access past the address space is fatal.
pub fn inst_Fx55(cpu: &mut Processor, x: u8) -> (r: Result<(), CpuError>)
    requires
        view_wf(old(cpu)@),
        x < 16,
    ensures
        view_wf(final(cpu)@),
        old(cpu)@.i + x >= MEMORY_SIZE ==> r == Err::<(), CpuError>(CpuError::MemoryOutOfBounds)
            && final(cpu)@ == old(cpu)@,
        old(cpu)@.i + x < MEMORY_SIZE ==> {
            &&& r == Ok::<(), CpuError>(())
            &&& final(cpu)@ == (CpuView { memory: final(cpu)@.memory, ..old(cpu)@ })
            &&& final(cpu)@.memory.len() == MEMORY_SIZE
            &&& forall|k: int|
                0 <= k <= x ==> final(cpu)@.memory[old(cpu)@.i + k] == old(cpu)@.v[k]
            &&& forall|a: int|
                0 <= a < MEMORY_SIZE && !(old(cpu)@.i <= a <= old(cpu)@.i + x)
                    ==> final(cpu)@.memory[a] == old(cpu)@.memory[a]
        },
{
    let vx = x as usize;
    let base = cpu.i as usize;
    if cpu.i as u32 + x as u32 >= MEMORY_SIZE as u32 {
        return Err(CpuError::MemoryOutOfBounds);
    }
    let mut k: usize = 0;
    while k <= vx
        invariant
            view_wf(cpu@),
            vx == x as int,
            x < 16,
            base == old(cpu)@.i,
            base + x < MEMORY_SIZE,
            k <= vx + 1,
            cpu@ == (CpuView { memory: cpu@.memory, ..old(cpu)@ }),
            cpu@.memory.len() == MEMORY_SIZE,
            forall|j: int| 0 <= j < k ==> cpu@.memory[base + j] == old(cpu)@.v[j],
            forall|a: int|
                0 <= a < MEMORY_SIZE && !(base <= a < base + k) ==> cpu@.memory[a] == old(
                    cpu,
                )@.memory[a],
        decreases vx + 1 - k,
    {
        let val = cpu.v[k];
        cpu.memory.set(base + k, val);
        k += 1;
    }
    Ok(())
}

/// Fx65 - LD Vx, [I]. Registers V[0..=x] are filled from memory starting at
/// I; an access past the address space is fatal.
pub fn inst_Fx65(cpu: &mut Processor, x: u8) -> (r: Result<(), CpuError>)
    requires
        view_wf(old(cpu)@),
        x < 16,
    ensures
        view_wf(final(cpu)@),
        old(cpu)@.i + x >= MEMORY_SIZE ==> r == Err::<(), CpuError>(CpuError::MemoryOutOfBounds)
            && final(cpu)@ == old(cpu)@,
        old(cpu)@.i + x < MEMORY_SIZE ==> {
            &&& r == Ok::<(), CpuError>(())
            &&& final(cpu)@ == (CpuView { v: final(cpu)@.v, ..old(cpu)@ })
            &&& final(cpu)@.v.len() == 16
            &&& forall|k: int|
                0 <= k <= x ==> final(cpu)@.v[k] == old(cpu)@.memory[old(cpu)@.i + k]
            &&& forall|k: int| x < k < 16 ==> final(cpu)@.v[k] == old(cpu)@.v[k]
        },
{
    let vx = x as usize;
    let base = cpu.i as usize;
    if cpu.i as u32 + x as u32 >= MEMORY_SIZE as u32 {
        return Err(CpuError::MemoryOutOfBounds);
    }
    let mut k: usize = 0;
    while k <= vx
        invariant
            view_wf(cpu@),
            vx == x as int,
            x < 16,
            base == old(cpu)@.i,
            base + x < MEMORY_SIZE,
            k <= vx + 1,
            cpu@ == (CpuView { v: cpu@.v, ..old(cpu)@ }),
            cpu@.v.len() == 16,
            forall|j: int| 0 <= j < k ==> cpu@.v[j] == old(cpu)@.memory[base + j],
            forall|j: int| k <= j < 16 ==> cpu@.v[j] == old(cpu)@.v[j],
        decreases vx + 1 - k,
    {
        let val = cpu.memory[base + k];
        cpu.v.set(k, val);
        k += 1;
    }
    Ok(())
}

} // verus!
