//! One cycle of the machine: advance the 60 Hz timers by wall-clock time,
//! fetch the big-endian instruction word at the program counter, advance the
//! program counter past it, and execute the decoded instruction against this
//! cycle's keyboard snapshot. `step_rel` is the complete small-step relation;
//! `step` is verified against it for every timestamp and random byte, and
//! `cycle` supplies those two values from the host.

use vstd::prelude::*;

use crate::decode::{decode, spec_decode, Instr};
use crate::draw::{draw_applied, draw_changed, draw_collision, inst_Dxyn};
use crate::exec::{
    cleared_vram, first_pressed, inst_00E0, inst_00EE, inst_0nnn, inst_1nnn, inst_2nnn, inst_3xkk,
    inst_4xkk, inst_5xy0, inst_6xkk, inst_7xkk, inst_8xy0, inst_8xy1, inst_8xy2, inst_8xy3,
    inst_8xy4, inst_8xy5, inst_8xy6, inst_8xy7, inst_8xyE, inst_9xy0, inst_Annn, inst_Bnnn,
    inst_Cxkk, inst_Ex9E, inst_ExA1, inst_Fx07, inst_Fx0A, inst_Fx15, inst_Fx18, inst_Fx1E,
    inst_Fx29, inst_Fx33, inst_Fx55, inst_Fx65, skipped, with_pc, with_reg, wrap_add, wrap_sub,
};
use crate::host::{now_millis, random_byte};
use crate::state::{
    powered_on, view_wf, CpuError, CpuView, Processor, FONT_BASE, MEMORY_SIZE, STACK_SIZE,
};

verus! {

/// What one cycle hands back to the host: a snapshot of the framebuffer and
/// whether this cycle's instruction flipped any pixel (only the draw
/// instruction reports a change).
pub struct CycleResult {
    /// Row-major 64x32 snapshot, one byte (0 or 1) per pixel.
    pub video_out: Vec<u8>,
    /// Whether the draw instruction executed this cycle flipped a pixel.
    pub video_changed: bool,
}

/// The timers after one wall-clock check: when more than a sixtieth of a
/// second (16 ms in whole milliseconds) has passed since the last decrement,
/// each nonzero timer steps down once - never more, however late the check
/// runs - and the reference timestamp moves to `now`.
pub open spec fn tick_view(s: CpuView, now: u64) -> CpuView {
    if now - s.last_tick_ms > 16 {
        CpuView {
            delay_timer: if s.delay_timer > 0 {
                (s.delay_timer - 1) as u8
            } else {
                0
            },
            sound_timer: if s.sound_timer > 0 {
                (s.sound_timer - 1) as u8
            } else {
                0
            },
            last_tick_ms: now,
            ..s
        }
    } else {
        s
    }
}

/// The big-endian instruction word at the program counter.
pub open spec fn spec_fetch(s: CpuView) -> u16
    recommends
        s.pc + 1 < s.memory.len(),
{
    (s.memory[s.pc as int] * 256 + s.memory[s.pc as int + 1]) as u16
}

/// The effect of one decoded instruction on the fetched state `f` (program
/// counter already advanced past the instruction): `post` is the machine
/// after it, `changed` whether it flipped a pixel, and `err` the fatal
/// condition it detected, if any (in which case the machine is untouched).
pub open spec fn exec_rel(
    f: CpuView,
    inst: Instr,
    keys: Seq<bool>,
    rnd: u8,
    now: u64,
    post: CpuView,
    changed: bool,
    err: Option<CpuError>,
) -> bool {
    match inst {
        Instr::Cls => post == (CpuView { vram: cleared_vram(), ..f }) && !changed && err
            == None::<CpuError>,
        Instr::Ret => if f.sp == 0 {
            post == f && !changed && err == Some(CpuError::StackUnderflow)
        } else {
            post == (CpuView { pc: f.stack[f.sp as int], sp: (f.sp - 1) as u8, ..f }) && !changed
                && err == None::<CpuError>
        },
        Instr::Sys(_) => post == f && !changed && err == None::<CpuError>,
        Instr::Jp(nnn) => post == with_pc(f, nnn) && !changed && err == None::<CpuError>,
        Instr::Call(nnn) => if f.sp + 1 >= STACK_SIZE {
            post == f && !changed && err == Some(CpuError::StackOverflow)
        } else {
            post == (CpuView {
                sp: (f.sp + 1) as u8,
                stack: f.stack.update(f.sp + 1, f.pc),
                pc: nnn,
                ..f
            }) && !changed && err == None::<CpuError>
        },
        Instr::SeByte(x, kk) => post == (if f.v[x as int] == kk {
            skipped(f)
        } else {
            f
        }) && !changed && err == None::<CpuError>,
        Instr::SneByte(x, kk) => post == (if f.v[x as int] != kk {
            skipped(f)
        } else {
            f
        }) && !changed && err == None::<CpuError>,
        Instr::SeReg(x, y) => post == (if f.v[x as int] == f.v[y as int] {
            skipped(f)
        } else {
            f
        }) && !changed && err == None::<CpuError>,
        Instr::LdByte(x, kk) => post == with_reg(f, x as int, kk) && !changed && err
            == None::<CpuError>,
        Instr::AddByte(x, kk) => post == with_reg(f, x as int, wrap_add(f.v[x as int], kk))
            && !changed && err == None::<CpuError>,
        Instr::LdReg(x, y) => post == with_reg(f, x as int, f.v[y as int]) && !changed && err
            == None::<CpuError>,
        Instr::Or(x, y) => post == with_reg(f, x as int, f.v[x as int] | f.v[y as int]) && !changed
            && err == None::<CpuError>,
        Instr::And(x, y) => post == with_reg(f, x as int, f.v[x as int] & f.v[y as int])
            && !changed && err == None::<CpuError>,
        Instr::Xor(x, y) => post == with_reg(f, x as int, f.v[x as int] ^ f.v[y as int])
            && !changed && err == None::<CpuError>,
        Instr::AddReg(x, y) => post == ({
            let vx = f.v[x as int];
            let vy = f.v[y as int];
            let carry: u8 = if vx + vy > 255 {
                1
            } else {
                0
            };
            with_reg(with_reg(f, 0xF, carry), x as int, wrap_add(vx, vy))
        }) && !changed && err == None::<CpuError>,
        Instr::Sub(x, y) => post == ({
            let vx = f.v[x as int];
            let vy = f.v[y as int];
            let no_borrow: u8 = if vx > vy {
                1
            } else {
                0
            };
            with_reg(with_reg(f, 0xF, no_borrow), x as int, wrap_sub(vx, vy))
        }) && !changed && err == None::<CpuError>,
        Instr::Shr(x, _y) => post == ({
            let vx = f.v[x as int];
            with_reg(with_reg(f, 0xF, (vx % 2) as u8), x as int, vx / 2)
        }) && !changed && err == None::<CpuError>,
        Instr::Subn(x, y) => post == ({
            let vx = f.v[x as int];
            let vy = f.v[y as int];
            let no_borrow: u8 = if vy > vx {
                1
            } else {
                0
            };
            with_reg(with_reg(f, 0xF, no_borrow), x as int, wrap_sub(vy, vx))
        }) && !changed && err == None::<CpuError>,
        Instr::Shl(x, _y) => post == ({
            let vx = f.v[x as int];
            with_reg(with_reg(f, 0xF, (vx / 128) as u8), x as int, ((vx * 2) % 256) as u8)
        }) && !changed && err == None::<CpuError>,
        Instr::SneReg(x, y) => post == (if f.v[x as int] != f.v[y as int] {
            skipped(f)
        } else {
            f
        }) && !changed && err == None::<CpuError>,
        Instr::LdI(nnn) => post == (CpuView { i: nnn, ..f }) && !changed && err
            == None::<CpuError>,
        Instr::JpV0(nnn) => post == with_pc(f, (nnn + f.v[0]) as u16) && !changed && err
            == None::<CpuError>,
        Instr::Rnd(x, kk) => post == with_reg(f, x as int, rnd & kk) && !changed && err
            == None::<CpuError>,
        Instr::Drw(x, y, n) => ({
            let base = f.i as int;
            let rx = f.v[x as int];
            let ry = f.v[y as int];
            if f.i + n > MEMORY_SIZE {
                post == f && !changed && err == Some(CpuError::MemoryOutOfBounds)
            } else {
                &&& post == (CpuView {
                    v: f.v.update(0xF, draw_collision(f.vram, f.memory, base, rx, ry, n)),
                    vram: post.vram,
                    ..f
                })
                &&& draw_applied(f.vram, post.vram, f.memory, base, rx, ry, n)
                &&& changed == draw_changed(f.memory, base, n)
                &&& err == None::<CpuError>
            }
        }),
        Instr::Skp(x) => post == (if keys[(f.v[x as int] % 16) as int] {
            skipped(f)
        } else {
            f
        }) && !changed && err == None::<CpuError>,
        Instr::Sknp(x) => post == (if !keys[(f.v[x as int] % 16) as int] {
            skipped(f)
        } else {
            f
        }) && !changed && err == None::<CpuError>,
        Instr::LdFromDt(x) => post == with_reg(f, x as int, f.delay_timer) && !changed && err
            == None::<CpuError>,
        Instr::WaitKey(x) => post == ({
            let k = first_pressed(keys, 0);
            if k < 16 {
                with_reg(f, x as int, k as u8)
            } else {
                with_pc(f, (f.pc - 2) as u16)
            }
        }) && !changed && err == None::<CpuError>,
        Instr::SetDt(x) => post == (CpuView {
            delay_timer: f.v[x as int],
            last_tick_ms: now,
            ..f
        }) && !changed && err == None::<CpuError>,
        Instr::SetSt(x) => post == (CpuView { sound_timer: f.v[x as int], ..f }) && !changed && err
            == None::<CpuError>,
        Instr::AddI(x) => if f.i + f.v[x as int] >= MEMORY_SIZE {
            post == f && !changed && err == Some(CpuError::MemoryOutOfBounds)
        } else {
            post == (CpuView { i: (f.i + f.v[x as int]) as u16, ..f }) && !changed && err
                == None::<CpuError>
        },
        Instr::LdFont(x) => post == (CpuView {
            i: (FONT_BASE + f.v[x as int] * 5) as u16,
            ..f
        }) && !changed && err == None::<CpuError>,
        Instr::Bcd(x) => if f.i + 2 >= MEMORY_SIZE {
            post == f && !changed && err == Some(CpuError::MemoryOutOfBounds)
        } else {
            post == ({
                let vx = f.v[x as int];
                let a = f.i as int;
                CpuView {
                    memory: f.memory.update(a, (vx / 100) as u8).update(
                        a + 1,
                        ((vx / 10) % 10) as u8,
                    ).update(a + 2, (vx % 10) as u8),
                    ..f
                }
            }) && !changed && err == None::<CpuError>
        },
        Instr::StoreRegs(x) => if f.i + x >= MEMORY_SIZE {
            post == f && !changed && err == Some(CpuError::MemoryOutOfBounds)
        } else {
            &&& post == (CpuView { memory: post.memory, ..f })
            &&& post.memory.len() == MEMORY_SIZE
            &&& forall|k: int| 0 <= k <= x ==> post.memory[f.i + k] == f.v[k]
            &&& forall|a: int|
                0 <= a < MEMORY_SIZE && !(f.i <= a <= f.i + x) ==> post.memory[a] == f.memory[a]
            &&& !changed
            &&& err == None::<CpuError>
        },
        Instr::LoadRegs(x) => if f.i + x >= MEMORY_SIZE {
            post == f && !changed && err == Some(CpuError::MemoryOutOfBounds)
        } else {
            &&& post == (CpuView { v: post.v, ..f })
            &&& post.v.len() == 16
            &&& forall|k: int| 0 <= k <= x ==> post.v[k] == f.memory[f.i + k]
            &&& forall|k: int| x < k < 16 ==> post.v[k] == f.v[k]
            &&& !changed
            &&& err == None::<CpuError>
        },
        Instr::Unknown(_) => post == f && !changed && err == None::<CpuError>,
    }
}

/// The complete small-step relation of one cycle: timers tick by wall time,
/// then the instruction at the program counter is fetched (a fetch past the
/// address space is fatal), the program counter advances by 2, and the
/// instruction executes.
pub open spec fn step_rel(
    pre: CpuView,
    keys: Seq<bool>,
    now: u64,
    rnd: u8,
    post: CpuView,
    changed: bool,
    err: Option<CpuError>,
) -> bool {
    let t = tick_view(pre, now);
    if t.pc + 1 >= MEMORY_SIZE {
        post == t && !changed && err == Some(CpuError::MemoryOutOfBounds)
    } else {
        let f = with_pc(t, (t.pc + 2) as u16);
        exec_rel(f, spec_decode(spec_fetch(t)), keys, rnd, now, post, changed, err)
    }
}

/// `step_rel` applied to the value a cycle returns: on success the snapshot
/// equals the new framebuffer; on failure the error is the one the relation
/// demands.
pub open spec fn step_result_matches(
    pre: CpuView,
    post: CpuView,
    keys: Seq<bool>,
    now: u64,
    rnd: u8,
    r: Result<CycleResult, CpuError>,
) -> bool {
    match r {
        Ok(out) => step_rel(pre, keys, now, rnd, post, out.video_changed, None::<CpuError>)
            && out.video_out@ == post.vram,
        Err(e) => step_rel(pre, keys, now, rnd, post, false, Some(e)),
    }
}

/// A fresh copy of the framebuffer for the host.
fn snapshot(v: &Vec<u8>) -> (out: Vec<u8>)
    ensures
        out@ == v@,
{
    let mut out: Vec<u8> = Vec::new();
    let mut k: usize = 0;
    while k < v.len()
        invariant
            k <= v@.len(),
            out@ == v@.subrange(0, k as int),
        decreases v@.len() - k,
    {
        out.push(v[k]);
        proof {
            assert(out@ =~= v@.subrange(0, k + 1));
        }
        k += 1;
    }
    proof {
        assert(out@ =~= v@);
    }
    out
}

impl Processor {
    /// A freshly powered-on CPU, timestamped with the host's wall clock.
    pub fn new() -> (cpu: Processor)
        ensures
            exists|t: u64| powered_on(cpu@, t),
    {
        let t = now_millis();
        let cpu = Processor::new_at(t);
        proof {
            assert(powered_on(cpu@, t));
        }
        cpu
    }

    /// One cycle against the given wall-clock timestamp and random byte:
    /// verified against `step_rel` for every value of either.
    #[verifier::rlimit(100)]
    pub fn step(&mut self, keyboard_input: [bool; 16], now_ms: u64, rnd: u8) -> (r: Result<
        CycleResult,
        CpuError,
    >)
        requires
            view_wf(old(self)@),
        ensures
            view_wf(final(self)@),
            step_result_matches(old(self)@, final(self)@, keyboard_input@, now_ms, rnd, r),
    {
        if now_ms > self.last_tick_ms && now_ms - self.last_tick_ms > 16 {
            if self.delay_timer > 0 {
                self.delay_timer = self.delay_timer - 1;
            }
            if self.sound_timer > 0 {
                self.sound_timer = self.sound_timer - 1;
            }
            self.last_tick_ms = now_ms;
        }
        proof {
            assert(self@ == tick_view(old(self)@, now_ms));
        }
        if self.pc >= (MEMORY_SIZE - 1) as u16 {
            return Err(CpuError::MemoryOutOfBounds);
        }
        let hi = self.memory[self.pc as usize];
        let lo = self.memory[self.pc as usize + 1];
        let instr: u16 = (hi as u16) * 256 + (lo as u16);
        self.pc = self.pc + 2;
        let inst = decode(instr);
        let mut video_changed = false;
        match inst {
            Instr::Cls => inst_00E0(self),
            Instr::Ret => match inst_00EE(self) {
                Ok(()) => (),
                Err(e) => {
                    return Err(e);
                },
            },
            Instr::Sys(nnn) => inst_0nnn(self, nnn),
            Instr::Jp(nnn) => inst_1nnn(self, nnn),
            Instr::Call(nnn) => match inst_2nnn(self, nnn) {
                Ok(()) => (),
                Err(e) => {
                    return Err(e);
                },
            },
            Instr::SeByte(x, kk) => inst_3xkk(self, x, kk),
            Instr::SneByte(x, kk) => inst_4xkk(self, x, kk),
            Instr::SeReg(x, y) => inst_5xy0(self, x, y),
            Instr::LdByte(x, kk) => inst_6xkk(self, x, kk),
            Instr::AddByte(x, kk) => inst_7xkk(self, x, kk),
            Instr::LdReg(x, y) => inst_8xy0(self, x, y),
            Instr::Or(x, y) => inst_8xy1(self, x, y),
            Instr::And(x, y) => inst_8xy2(self, x, y),
            Instr::Xor(x, y) => inst_8xy3(self, x, y),
            Instr::AddReg(x, y) => inst_8xy4(self, x, y),
            Instr::Sub(x, y) => inst_8xy5(self, x, y),
            Instr::Shr(x, y) => inst_8xy6(self, x, y),
            Instr::Subn(x, y) => inst_8xy7(self, x, y),
            Instr::Shl(x, y) => inst_8xyE(self, x, y),
            Instr::SneReg(x, y) => inst_9xy0(self, x, y),
            Instr::LdI(nnn) => inst_Annn(self, nnn),
            Instr::JpV0(nnn) => inst_Bnnn(self, nnn),
            Instr::Rnd(x, kk) => inst_Cxkk(self, x, kk, rnd),
            Instr::Drw(x, y, n) => match inst_Dxyn(self, x, y, n) {
                Ok(c) => {
                    video_changed = c;
                },
                Err(e) => {
                    return Err(e);
                },
            },
            Instr::Skp(x) => inst_Ex9E(self, x, keyboard_input),
            Instr::Sknp(x) => inst_ExA1(self, x, keyboard_input),
            Instr::LdFromDt(x) => inst_Fx07(self, x),
            Instr::WaitKey(x) => inst_Fx0A(self, x, keyboard_input),
            Instr::SetDt(x) => inst_Fx15(self, x, now_ms),
            Instr::SetSt(x) => inst_Fx18(self, x),
            Instr::AddI(x) => match inst_Fx1E(self, x) {
                Ok(()) => (),
                Err(e) => {
                    return Err(e);
                },
            },
            Instr::LdFont(x) => inst_Fx29(self, x),
            Instr::Bcd(x) => match inst_Fx33(self, x) {
                Ok(()) => (),
                Err(e) => {
                    return Err(e);
                },
            },
            Instr::StoreRegs(x) => match inst_Fx55(self, x) {
                Ok(()) => (),
                Err(e) => {
                    return Err(e);
                },
            },
            Instr::LoadRegs(x) => match inst_Fx65(self, x) {
                Ok(()) => (),
                Err(e) => {
                    return Err(e);
                },
            },
            Instr::Unknown(_) => (),
        }
        let video_out = snapshot(&self.vram);
        Ok(CycleResult { video_out, video_changed })
    }

    /// One cycle of the machine against this cycle's keyboard snapshot. The
    /// wall-clock timestamp and the random byte come from the host, so the
    /// new state is related to the old by `step_rel` for some value of each.
    pub fn cycle(&mut self, keyboard_input: [bool; 16]) -> (r: Result<CycleResult, CpuError>)
        requires
            view_wf(old(self)@),
        ensures
            view_wf(final(self)@),
            exists|now_ms: u64, rnd: u8|
                step_result_matches(
                    old(self)@,
                    final(self)@,
                    keyboard_input@,
                    now_ms,
                    rnd,
                    r,
                ),
    {
        let now_ms = now_millis();
        let rnd = random_byte();
        let r = self.step(keyboard_input, now_ms, rnd);
        proof {
            assert(step_result_matches(old(self)@, self@, keyboard_input@, now_ms, rnd, r));
        }
        r
    }
}

} // verus!
