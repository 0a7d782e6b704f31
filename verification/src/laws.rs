//! Machine-level laws, proved from the small-step relation alone: how the
//! field arithmetic of an encoded instruction word decodes, that a compare
//! after a load always skips, that a call is undone by the next return, and
//! that drawing the same sprite twice restores the framebuffer.

use vstd::prelude::*;

use crate::cycle::{spec_fetch, step_rel, tick_view};
use crate::decode::{spec_decode, Instr};
use crate::draw::{
    cell_index, collision_before, draw_applied, draw_collision, sprite_bit, touched_before,
};
use crate::state::{view_wf, CpuError, CpuView, DISPLAY_SIZE, MEMORY_SIZE, STACK_SIZE};

verus! {

/// The six fixed-width fields of an instruction word assembled from a top
/// nibble `op`, a register nibble `x` and a byte `nn`.
pub proof fn lemma_decode_fields(instr: u16, op: u16, x: u8, nn: u8)
    requires
        op < 16,
        x < 16,
        instr == op * 0x1000 + x * 0x100 + nn,
    ensures
        instr / 0x1000 == op,
        (instr / 0x100) % 0x10 == x,
        (instr / 0x10) % 0x10 == nn / 16,
        instr % 0x10 == nn % 16,
        instr % 0x100 == nn,
        instr % 0x1000 == x * 0x100 + nn,
{
    vstd::arithmetic::div_mod::lemma_fundamental_div_mod_converse(
        instr as int,
        0x1000,
        op as int,
        x * 0x100 + nn,
    );
    vstd::arithmetic::div_mod::lemma_fundamental_div_mod_converse(
        instr as int,
        0x100,
        op * 0x10 + x,
        nn as int,
    );
    vstd::arithmetic::div_mod::lemma_fundamental_div_mod_converse(
        (op * 0x10 + x) as int,
        0x10,
        op as int,
        x as int,
    );
    vstd::arithmetic::div_mod::lemma_fundamental_div_mod(nn as int, 16);
    vstd::arithmetic::div_mod::lemma_fundamental_div_mod_converse(
        instr as int,
        0x10,
        op * 0x100 + x * 0x10 + nn / 16,
        (nn % 16) as int,
    );
    vstd::arithmetic::div_mod::lemma_fundamental_div_mod_converse(
        (op * 0x100 + x * 0x10 + nn / 16) as int,
        0x10,
        (op * 0x10 + x) as int,
        (nn / 16) as int,
    );
}

/// Loading a byte and comparing against the same byte always skips: after a
/// 6xkk at the program counter and a 3xkk right behind it, the first cycle
/// advances the program counter by 2 and the second by 4, for every byte kk,
/// every register x, and every timestamp and random byte the host supplies.
pub proof fn lemma_load_then_skip_taken(
    s: CpuView,
    post1: CpuView,
    post2: CpuView,
    keys1: Seq<bool>,
    keys2: Seq<bool>,
    now1: u64,
    now2: u64,
    rnd1: u8,
    rnd2: u8,
    x: u8,
    kk: u8,
    c1: bool,
    c2: bool,
)
    requires
        view_wf(s),
        x < 16,
        s.pc + 3 < MEMORY_SIZE,
        s.memory[s.pc as int] == 0x60 + x,
        s.memory[s.pc as int + 1] == kk,
        s.memory[s.pc as int + 2] == 0x30 + x,
        s.memory[s.pc as int + 3] == kk,
        step_rel(s, keys1, now1, rnd1, post1, c1, None::<CpuError>),
        step_rel(post1, keys2, now2, rnd2, post2, c2, None::<CpuError>),
    ensures
        post1.pc == s.pc + 2,
        post1.v[x as int] == kk,
        post2.pc == s.pc + 6,
        post2.v[x as int] == kk,
{
    let t1 = tick_view(s, now1);
    let instr1: u16 = ((0x60 + x) * 256 + kk) as u16;
    assert(instr1 == 6 * 0x1000 + x * 0x100 + kk);
    lemma_decode_fields(instr1, 6, x, kk);
    assert(spec_decode(instr1) == Instr::LdByte(x, kk));
    let t2 = tick_view(post1, now2);
    let instr2: u16 = ((0x30 + x) * 256 + kk) as u16;
    assert(instr2 == 3 * 0x1000 + x * 0x100 + kk);
    lemma_decode_fields(instr2, 3, x, kk);
    assert(spec_decode(instr2) == Instr::SeByte(x, kk));
}

/// A call is undone by the return it reaches: with a 2nnn at the program
/// counter and a 00EE at nnn, two cycles later the program counter sits at
/// the address immediately after the 2nnn and the stack pointer is back to
/// its old value, whatever the host's timestamps and random bytes.
pub proof fn lemma_call_return_round_trip(
    s: CpuView,
    post1: CpuView,
    post2: CpuView,
    keys1: Seq<bool>,
    keys2: Seq<bool>,
    now1: u64,
    now2: u64,
    rnd1: u8,
    rnd2: u8,
    nnn: u16,
    c1: bool,
    c2: bool,
)
    requires
        view_wf(s),
        s.pc + 1 < MEMORY_SIZE,
        nnn + 1 < MEMORY_SIZE,
        s.sp + 1 < STACK_SIZE,
        s.memory[s.pc as int] == 0x20 + nnn / 256,
        s.memory[s.pc as int + 1] == nnn % 256,
        s.memory[nnn as int] == 0x00,
        s.memory[nnn as int + 1] == 0xEE,
        step_rel(s, keys1, now1, rnd1, post1, c1, None::<CpuError>),
        step_rel(post1, keys2, now2, rnd2, post2, c2, None::<CpuError>),
    ensures
        post1.pc == nnn,
        post1.sp == s.sp + 1,
        post2.pc == s.pc + 2,
        post2.sp == s.sp,
{
    let t1 = tick_view(s, now1);
    vstd::arithmetic::div_mod::lemma_fundamental_div_mod(nnn as int, 256);
    let instr1: u16 = ((0x20 + nnn / 256) * 256 + nnn % 256) as u16;
    assert(instr1 == 2 * 0x1000 + (nnn / 256) * 0x100 + nnn % 256);
    assert(nnn / 256 < 16);
    lemma_decode_fields(instr1, 2, (nnn / 256) as u8, (nnn % 256) as u8);
    assert(instr1 % 0x1000 == nnn);
    assert(spec_decode(instr1) == Instr::Call(nnn));
    let t2 = tick_view(post1, now2);
    let instr2: u16 = 0x00EE;
    assert(spec_decode(instr2) == Instr::Ret) by {
        lemma_decode_fields(0x00EE, 0, 0, 0xEE);
    }
    assert(post1.stack[post1.sp as int] == s.pc + 2);
}

/// The delay timer moves by at most one per cycle: unless the instruction of
/// the cycle itself writes the timer, a nonzero delay timer steps down by
/// exactly 1 when more than a sixtieth of a second has passed since the last
/// decrement, and does not move at all otherwise - however much wall time has
/// passed.
pub proof fn lemma_timer_single_decrement(
    s: CpuView,
    post: CpuView,
    keys: Seq<bool>,
    now: u64,
    rnd: u8,
    changed: bool,
    err: Option<CpuError>,
)
    requires
        view_wf(s),
        step_rel(s, keys, now, rnd, post, changed, err),
        !(spec_decode(spec_fetch(tick_view(s, now))) is SetDt),
    ensures
        s.delay_timer > 0 && now - s.last_tick_ms > 16 ==> post.delay_timer == s.delay_timer - 1,
        !(s.delay_timer > 0 && now - s.last_tick_ms > 16) ==> post.delay_timer == s.delay_timer,
{
}

/// Drawing the identical sprite at the identical coordinates twice restores
/// the framebuffer to its state before the first draw, and the second draw's
/// collision flag is 1 exactly when the first draw turned some pixel on.
pub proof fn lemma_draw_twice_restores(
    pre: Seq<u8>,
    mid: Seq<u8>,
    post: Seq<u8>,
    mem: Seq<u8>,
    base: int,
    rx: u8,
    ry: u8,
    n: u8,
)
    requires
        pre.len() == DISPLAY_SIZE,
        forall|p: int| 0 <= p < DISPLAY_SIZE ==> pre[p] <= 1,
        n < 16,
        draw_applied(pre, mid, mem, base, rx, ry, n),
        draw_applied(mid, post, mem, base, rx, ry, n),
    ensures
        post == pre,
        draw_collision(mid, mem, base, rx, ry, n) == 1 <==> exists|k: int, j: int|
            0 <= k < n && 0 <= j < 8 && #[trigger] sprite_bit(mem, base, k, j) == 1 && pre[
                cell_index(ry, rx, k, j)
            ] == 0,
{
    assert forall|p: int| 0 <= p < DISPLAY_SIZE implies post[p] == pre[p] by {
        if touched_before(ry, rx, 8 * n, p) {
            let (k, j): (int, int) = choose|k: int, j: int|
                0 <= k && 0 <= j < 8 && 8 * k + j < 8 * n && p == #[trigger] cell_index(
                    ry,
                    rx,
                    k,
                    j,
                );
            assert(mid[p] == crate::draw::flip01(pre[p], sprite_bit(mem, base, k, j)));
            assert(post[p] == crate::draw::flip01(mid[p], sprite_bit(mem, base, k, j)));
        }
    }
    assert(post =~= pre);
    if draw_collision(mid, mem, base, rx, ry, n) == 1 {
        let (k, j): (int, int) = choose|k: int, j: int|
            0 <= k && 0 <= j < 8 && 8 * k + j < 8 * n && #[trigger] sprite_bit(mem, base, k, j)
                == 1 && mid[cell_index(ry, rx, k, j)] == 1;
        assert(0 <= cell_index(ry, rx, k, j) < DISPLAY_SIZE) by {
            crate::draw::lemma_cell_in_range(ry, rx, k, j);
        }
        assert(mid[cell_index(ry, rx, k, j)] == crate::draw::flip01(
            pre[cell_index(ry, rx, k, j)],
            sprite_bit(mem, base, k, j),
        ));
        assert(k < n);
        assert(pre[cell_index(ry, rx, k, j)] == 0);
    }
    if exists|k: int, j: int|
        0 <= k < n && 0 <= j < 8 && #[trigger] sprite_bit(mem, base, k, j) == 1 && pre[cell_index(
            ry,
            rx,
            k,
            j,
        )] == 0 {
        let (k, j): (int, int) = choose|k: int, j: int|
            0 <= k < n && 0 <= j < 8 && #[trigger] sprite_bit(mem, base, k, j) == 1 && pre[
                cell_index(ry, rx, k, j)
            ] == 0;
        assert(0 <= cell_index(ry, rx, k, j) < DISPLAY_SIZE) by {
            crate::draw::lemma_cell_in_range(ry, rx, k, j);
        }
        assert(8 * k + j < 8 * n);
        assert(mid[cell_index(ry, rx, k, j)] == crate::draw::flip01(
            pre[cell_index(ry, rx, k, j)],
            sprite_bit(mem, base, k, j),
        ));
        assert(mid[cell_index(ry, rx, k, j)] == 1);
        assert(collision_before(mid, mem, base, rx, ry, 8 * n) == 1);
    }
}

} // verus!
