//! The Dxyn draw instruction: n sprite bytes, 8 pixels each (most significant
//! bit first), XORed onto the framebuffer at (V[x], V[y]) with toroidal
//! coordinate wraparound. VF reports whether any lit pixel was turned off, and
//! the instruction reports whether any pixel flipped at all.

use vstd::prelude::*;

use crate::state::{CpuError, CpuView, Processor, view_wf, DISPLAY_SIZE, MEMORY_SIZE};

verus! {

/// The framebuffer index written by sprite row `k`, column `j` of a sprite
/// anchored at column `rx`, row `ry`: coordinates wrap, they never clip.
pub open spec fn cell_index(ry: u8, rx: u8, k: int, j: int) -> int {
    ((ry + k) % 32) * 64 + ((rx + j) % 64)
}

/// Bit `j` (most significant first) of sprite row `k`, read from
/// `mem[base + k]`.
pub open spec fn sprite_bit(mem: Seq<u8>, base: int, k: int, j: int) -> u8 {
    (mem[base + k] >> ((7 - j) as u8)) & 1
}

/// XOR on single-bit pixel values.
pub open spec fn flip01(p: u8, b: u8) -> u8
    recommends
        p <= 1,
{
    if b == 1 {
        (1 - p) as u8
    } else {
        p
    }
}

/// Whether framebuffer index `p` is written by one of the first `t` sprite
/// cells in row-major order (cell (k, j) has order 8k + j).
pub open spec fn touched_before(ry: u8, rx: u8, t: int, p: int) -> bool {
    exists|k: int, j: int|
        0 <= k && 0 <= j < 8 && 8 * k + j < t && p == #[trigger] cell_index(ry, rx, k, j)
}

/// The framebuffer delta of the first `t` sprite cells: every written cell is
/// the XOR of its old value and its sprite bit, every other cell is untouched.
pub open spec fn draw_applied_upto(
    pre: Seq<u8>,
    post: Seq<u8>,
    mem: Seq<u8>,
    base: int,
    rx: u8,
    ry: u8,
    t: int,
) -> bool {
    &&& post.len() == DISPLAY_SIZE
    &&& forall|k: int, j: int|
        0 <= k && 0 <= j < 8 && 8 * k + j < t ==> post[#[trigger] cell_index(ry, rx, k, j)]
            == flip01(pre[cell_index(ry, rx, k, j)], sprite_bit(mem, base, k, j))
    &&& forall|p: int|
        0 <= p < DISPLAY_SIZE && !touched_before(ry, rx, t, p) ==> post[p] == pre[p]
}

/// The full framebuffer delta of an n-row draw.
pub open spec fn draw_applied(
    pre: Seq<u8>,
    post: Seq<u8>,
    mem: Seq<u8>,
    base: int,
    rx: u8,
    ry: u8,
    n: u8,
) -> bool {
    draw_applied_upto(pre, post, mem, base, rx, ry, 8 * n)
}

/// The collision flag over the first `t` sprite cells: 1 exactly when some
/// set sprite bit lands on a pixel that was already on.
pub open spec fn collision_before(
    pre: Seq<u8>,
    mem: Seq<u8>,
    base: int,
    rx: u8,
    ry: u8,
    t: int,
) -> u8 {
    if exists|k: int, j: int|
        0 <= k && 0 <= j < 8 && 8 * k + j < t && #[trigger] sprite_bit(mem, base, k, j) == 1
            && pre[cell_index(ry, rx, k, j)] == 1 {
        1
    } else {
        0
    }
}

/// The collision flag of an n-row draw.
pub open spec fn draw_collision(pre: Seq<u8>, mem: Seq<u8>, base: int, rx: u8, ry: u8, n: u8) -> u8 {
    collision_before(pre, mem, base, rx, ry, 8 * n)
}

/// Whether any of the first `t` sprite cells flips a pixel: XOR flips exactly
/// where the sprite bit is set.
pub open spec fn changed_before(mem: Seq<u8>, base: int, t: int) -> bool {
    exists|k: int, j: int|
        0 <= k && 0 <= j < 8 && 8 * k + j < t && #[trigger] sprite_bit(mem, base, k, j) == 1
}

/// Whether an n-row draw flips any pixel.
pub open spec fn draw_changed(mem: Seq<u8>, base: int, n: u8) -> bool {
    changed_before(mem, base, 8 * n)
}

/// Distinct sprite cells of one draw land on distinct framebuffer indices:
/// rows differ by less than 32 so they stay distinct modulo 32, and columns
/// differ by less than 64.
pub proof fn lemma_cell_injective(ry: u8, rx: u8, k1: int, j1: int, k2: int, j2: int)
    requires
        0 <= k1 < 32,
        0 <= j1 < 64,
        0 <= k2 < 32,
        0 <= j2 < 64,
        cell_index(ry, rx, k1, j1) == cell_index(ry, rx, k2, j2),
    ensures
        k1 == k2,
        j1 == j2,
{
    let r1 = (ry + k1) % 32;
    let c1 = (rx + j1) % 64;
    let r2 = (ry + k2) % 32;
    let c2 = (rx + j2) % 64;
    assert(0 <= r1 < 32 && 0 <= r2 < 32 && 0 <= c1 < 64 && 0 <= c2 < 64);
    assert(r1 == r2 && c1 == c2);
    vstd::arithmetic::div_mod::lemma_fundamental_div_mod(ry + k1, 32);
    vstd::arithmetic::div_mod::lemma_fundamental_div_mod(ry + k2, 32);
    assert(k1 - k2 == 32 * ((ry + k1) / 32 - (ry + k2) / 32));
    vstd::arithmetic::div_mod::lemma_fundamental_div_mod(rx + j1, 64);
    vstd::arithmetic::div_mod::lemma_fundamental_div_mod(rx + j2, 64);
    assert(j1 - j2 == 64 * ((rx + j1) / 64 - (rx + j2) / 64));
}

/// A framebuffer index touched by a sprite cell stays inside the framebuffer.
pub proof fn lemma_cell_in_range(ry: u8, rx: u8, k: int, j: int)
    requires
        0 <= k,
        0 <= j,
    ensures
        0 <= cell_index(ry, rx, k, j) < DISPLAY_SIZE,
{
    assert(0 <= (ry + k) % 32 < 32);
    assert(0 <= (rx + j) % 64 < 64);
}

/// Dxyn - DRW Vx, Vy, nibble. Draw the n-byte sprite at memory[I] at
/// (V[x], V[y]): each sprite bit is XORed onto its (wrapped) framebuffer
/// cell, VF becomes the collision flag, and the returned value reports
/// whether any pixel flipped. Reading sprite bytes past the address space is
/// fatal and leaves the machine untouched.
pub fn inst_Dxyn(cpu: &mut Processor, x: u8, y: u8, n: u8) -> (r: Result<bool, CpuError>)
    requires
        view_wf(old(cpu)@),
        x < 16,
        y < 16,
        n < 16,
    ensures
        view_wf(final(cpu)@),
        old(cpu)@.i + n > MEMORY_SIZE ==> r == Err::<bool, CpuError>(CpuError::MemoryOutOfBounds)
            && final(cpu)@ == old(cpu)@,
        old(cpu)@.i + n <= MEMORY_SIZE ==> ({
            let base = old(cpu)@.i as int;
            let rx = old(cpu)@.v[x as int];
            let ry = old(cpu)@.v[y as int];
            &&& r == Ok::<bool, CpuError>(draw_changed(old(cpu)@.memory, base, n))
            &&& final(cpu)@ == (CpuView {
                v: old(cpu)@.v.update(
                    0xF,
                    draw_collision(old(cpu)@.vram, old(cpu)@.memory, base, rx, ry, n),
                ),
                vram: final(cpu)@.vram,
                ..old(cpu)@
            })
            &&& draw_applied(old(cpu)@.vram, final(cpu)@.vram, old(cpu)@.memory, base, rx, ry, n)
        }),
{
    if cpu.i as u32 + n as u32 > MEMORY_SIZE as u32 {
        return Err(CpuError::MemoryOutOfBounds);
    }
    let ghost pre = old(cpu)@.vram;
    let ghost mem = old(cpu)@.memory;
    let rx = cpu.v[x as usize];
    let ry = cpu.v[y as usize];
    let base = cpu.i as usize;
    cpu.v.set(0xF, 0);
    let mut changed = false;
    let mut k: u8 = 0;
    while k < n
        invariant
            view_wf(old(cpu)@),
            view_wf(cpu@),
            x < 16,
            y < 16,
            n < 16,
            k <= n,
            base == old(cpu)@.i,
            base + n <= MEMORY_SIZE,
            rx == old(cpu)@.v[x as int],
            ry == old(cpu)@.v[y as int],
            cpu@ == (CpuView { v: cpu@.v, vram: cpu@.vram, ..old(cpu)@ }),
            cpu@.v == old(cpu)@.v.update(
                0xF,
                collision_before(pre, mem, base as int, rx, ry, 8 * k),
            ),
            changed == changed_before(mem, base as int, 8 * k),
            draw_applied_upto(pre, cpu@.vram, mem, base as int, rx, ry, 8 * k),
            pre == old(cpu)@.vram,
            mem == old(cpu)@.memory,
        decreases n - k,
    {
        let row = (ry as usize + k as usize) % 32;
        let byte = cpu.memory[base + k as usize];
        let mut j: u8 = 0;
        while j < 8
            invariant
                view_wf(old(cpu)@),
                view_wf(cpu@),
                x < 16,
                y < 16,
                n < 16,
                k < n,
                j <= 8,
                base == old(cpu)@.i,
                base + n <= MEMORY_SIZE,
                rx == old(cpu)@.v[x as int],
                ry == old(cpu)@.v[y as int],
                row == (ry + k) % 32,
                byte == mem[base + k],
                cpu@ == (CpuView { v: cpu@.v, vram: cpu@.vram, ..old(cpu)@ }),
                cpu@.v == old(cpu)@.v.update(
                    0xF,
                    collision_before(pre, mem, base as int, rx, ry, 8 * k + j),
                ),
                changed == changed_before(mem, base as int, 8 * k + j),
                draw_applied_upto(pre, cpu@.vram, mem, base as int, rx, ry, 8 * k + j),
                pre == old(cpu)@.vram,
                mem == old(cpu)@.memory,
            decreases 8 - j,
        {
            let ghost t = 8 * k + j;
            let col = (rx as usize + j as usize) % 64;
            let p = row * 64 + col;
            let bit = (byte >> (7 - j)) & 1;
            proof {
                lemma_cell_in_range(ry, rx, k as int, j as int);
                assert(p == cell_index(ry, rx, k as int, j as int));
                assert(bit == sprite_bit(mem, base as int, k as int, j as int));
                // The cell written now was not written by any earlier sprite cell.
                assert(!touched_before(ry, rx, t, p as int)) by {
                    if touched_before(ry, rx, t, p as int) {
                        let (kk, jj): (int, int) = choose|kk: int, jj: int|
                            0 <= kk && 0 <= jj < 8 && 8 * kk + jj < t && p == #[trigger] cell_index(
                                ry,
                                rx,
                                kk,
                                jj,
                            );
                        lemma_cell_injective(ry, rx, kk, jj, k as int, j as int);
                    }
                }
            }
            let oldp = cpu.vram[p];
            assert(oldp == pre[p as int]);
            if bit == 1 {
                if oldp == 1 {
                    cpu.v.set(0xF, 1);
                    proof {
                        assert(collision_before(pre, mem, base as int, rx, ry, t + 1) == 1);
                        assert(old(cpu)@.v.update(0xF, collision_before(pre, mem, base as int, rx, ry, t)).update(0xF, 1u8)
                            =~= old(cpu)@.v.update(0xF, 1u8));
                    }
                }
                changed = true;
                cpu.vram.set(p, 1 - oldp);
            }
            proof {
                // Each sprite cell of order t + 1 is either an earlier cell,
                // unaffected by this write, or the cell just written.
                assert forall|kk: int, jj: int|
                    0 <= kk && 0 <= jj < 8 && 8 * kk + jj < t + 1 implies cpu@.vram[#[trigger] cell_index(
                    ry,
                    rx,
                    kk,
                    jj,
                )] == flip01(pre[cell_index(ry, rx, kk, jj)], sprite_bit(mem, base as int, kk, jj)) by {
                    lemma_cell_in_range(ry, rx, kk, jj);
                    if 8 * kk + jj < t {
                        if cell_index(ry, rx, kk, jj) == p {
                            lemma_cell_injective(ry, rx, kk, jj, k as int, j as int);
                        }
                    } else {
                        assert(kk == k && jj == j);
                    }
                }
                assert forall|q: int|
                    0 <= q < DISPLAY_SIZE && !touched_before(ry, rx, t + 1, q) implies cpu@.vram[q]
                    == pre[q] by {
                    assert(!touched_before(ry, rx, t, q));
                    assert(q != p);
                }
                // Collision and change flags over t + 1 cells.
                if bit == 1 && oldp == 1 {
                    assert(collision_before(pre, mem, base as int, rx, ry, t + 1) == 1);
                } else {
                    assert(collision_before(pre, mem, base as int, rx, ry, t + 1)
                        == collision_before(pre, mem, base as int, rx, ry, t)) by {
                        if exists|kk: int, jj: int|
                            0 <= kk && 0 <= jj < 8 && 8 * kk + jj < t + 1 && #[trigger] sprite_bit(
                                mem,
                                base as int,
                                kk,
                                jj,
                            ) == 1 && pre[cell_index(ry, rx, kk, jj)] == 1 {
                            let (kk, jj): (int, int) = choose|kk: int, jj: int|
                                0 <= kk && 0 <= jj < 8 && 8 * kk + jj < t + 1
                                    && #[trigger] sprite_bit(mem, base as int, kk, jj) == 1
                                    && pre[cell_index(ry, rx, kk, jj)] == 1;
                            assert(!(kk == k && jj == j));
                            assert(8 * kk + jj < t);
                        }
                    }
                }
                if bit == 1 {
                    assert(changed_before(mem, base as int, t + 1));
                } else {
                    assert(changed_before(mem, base as int, t + 1) == changed_before(
                        mem,
                        base as int,
                        t,
                    )) by {
                        if exists|kk: int, jj: int|
                            0 <= kk && 0 <= jj < 8 && 8 * kk + jj < t + 1 && #[trigger] sprite_bit(
                                mem,
                                base as int,
                                kk,
                                jj,
                            ) == 1 {
                            let (kk, jj): (int, int) = choose|kk: int, jj: int|
                                0 <= kk && 0 <= jj < 8 && 8 * kk + jj < t + 1
                                    && #[trigger] sprite_bit(mem, base as int, kk, jj) == 1;
                            assert(!(kk == k && jj == j));
                            assert(8 * kk + jj < t);
                        }
                    }
                }
            }
            j += 1;
        }
        k += 1;
    }
    Ok(changed)
}

} // verus!
