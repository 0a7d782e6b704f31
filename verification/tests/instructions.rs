//! Per-instruction behavior, driven through the public handlers.

use chip8::decode::decode;
use chip8::draw::inst_Dxyn;
use chip8::exec::{
    inst_00E0, inst_00EE, inst_1nnn, inst_2nnn, inst_3xkk, inst_4xkk, inst_5xy0, inst_6xkk,
    inst_7xkk, inst_8xy0, inst_8xy1, inst_8xy2, inst_8xy3, inst_8xy4, inst_8xy5, inst_8xy6,
    inst_8xy7, inst_8xyE, inst_9xy0, inst_Annn, inst_Bnnn, inst_Cxkk, inst_Ex9E, inst_ExA1,
    inst_Fx07, inst_Fx0A, inst_Fx15, inst_Fx18, inst_Fx1E, inst_Fx29, inst_Fx33, inst_Fx55,
    inst_Fx65,
};
use chip8::{CpuError, Instr, Processor};

fn fresh() -> Processor {
    Processor::new_at(0)
}

#[test]
fn decode_picks_each_class() {
    assert_eq!(decode(0x00E0), Instr::Cls);
    assert_eq!(decode(0x00EE), Instr::Ret);
    assert_eq!(decode(0x0123), Instr::Sys(0x123));
    assert_eq!(decode(0x1ABC), Instr::Jp(0xABC));
    assert_eq!(decode(0x2ABC), Instr::Call(0xABC));
    assert_eq!(decode(0x3A7F), Instr::SeByte(0xA, 0x7F));
    assert_eq!(decode(0x4A7F), Instr::SneByte(0xA, 0x7F));
    assert_eq!(decode(0x5AB0), Instr::SeReg(0xA, 0xB));
    assert_eq!(decode(0x6A7F), Instr::LdByte(0xA, 0x7F));
    assert_eq!(decode(0x7A7F), Instr::AddByte(0xA, 0x7F));
    assert_eq!(decode(0x8AB0), Instr::LdReg(0xA, 0xB));
    assert_eq!(decode(0x8AB1), Instr::Or(0xA, 0xB));
    assert_eq!(decode(0x8AB2), Instr::And(0xA, 0xB));
    assert_eq!(decode(0x8AB3), Instr::Xor(0xA, 0xB));
    assert_eq!(decode(0x8AB4), Instr::AddReg(0xA, 0xB));
    assert_eq!(decode(0x8AB5), Instr::Sub(0xA, 0xB));
    assert_eq!(decode(0x8AB6), Instr::Shr(0xA, 0xB));
    assert_eq!(decode(0x8AB7), Instr::Subn(0xA, 0xB));
    assert_eq!(decode(0x8ABE), Instr::Shl(0xA, 0xB));
    assert_eq!(decode(0x8AB8), Instr::Unknown(0x8AB8));
    assert_eq!(decode(0x9AB0), Instr::SneReg(0xA, 0xB));
    assert_eq!(decode(0xAABC), Instr::LdI(0xABC));
    assert_eq!(decode(0xBABC), Instr::JpV0(0xABC));
    assert_eq!(decode(0xCA7F), Instr::Rnd(0xA, 0x7F));
    assert_eq!(decode(0xDAB5), Instr::Drw(0xA, 0xB, 0x5));
    assert_eq!(decode(0xEA9E), Instr::Skp(0xA));
    assert_eq!(decode(0xEAA1), Instr::Sknp(0xA));
    assert_eq!(decode(0xEA55), Instr::Unknown(0xEA55));
    assert_eq!(decode(0xFA07), Instr::LdFromDt(0xA));
    assert_eq!(decode(0xFA0A), Instr::WaitKey(0xA));
    assert_eq!(decode(0xFA15), Instr::SetDt(0xA));
    assert_eq!(decode(0xFA18), Instr::SetSt(0xA));
    assert_eq!(decode(0xFA1E), Instr::AddI(0xA));
    assert_eq!(decode(0xFA29), Instr::LdFont(0xA));
    assert_eq!(decode(0xFA33), Instr::Bcd(0xA));
    assert_eq!(decode(0xFA55), Instr::StoreRegs(0xA));
    assert_eq!(decode(0xFA65), Instr::LoadRegs(0xA));
    assert_eq!(decode(0xFAFF), Instr::Unknown(0xFAFF));
}

#[test]
fn load_and_add_bytes() {
    let mut p = fresh();
    inst_6xkk(&mut p, 3, 0xAB);
    assert_eq!(p.reg(3), 0xAB);
    inst_7xkk(&mut p, 3, 0x54);
    assert_eq!(p.reg(3), 0xFF);
    inst_7xkk(&mut p, 3, 0x02);
    assert_eq!(p.reg(3), 0x01); // 0xFF + 2 truncated
}

#[test]
fn skip_instructions_compare() {
    let mut p = fresh();
    let pc0 = p.pc();
    inst_6xkk(&mut p, 0, 7);
    inst_3xkk(&mut p, 0, 7);
    assert_eq!(p.pc(), pc0 + 2);
    inst_3xkk(&mut p, 0, 8);
    assert_eq!(p.pc(), pc0 + 2);
    inst_4xkk(&mut p, 0, 8);
    assert_eq!(p.pc(), pc0 + 4);
    inst_6xkk(&mut p, 1, 7);
    inst_5xy0(&mut p, 0, 1);
    assert_eq!(p.pc(), pc0 + 6);
    inst_9xy0(&mut p, 0, 1);
    assert_eq!(p.pc(), pc0 + 6);
    inst_6xkk(&mut p, 1, 9);
    inst_9xy0(&mut p, 0, 1);
    assert_eq!(p.pc(), pc0 + 8);
}

#[test]
fn register_moves_and_bit_ops() {
    let mut p = fresh();
    inst_6xkk(&mut p, 1, 0b1100);
    inst_8xy0(&mut p, 0, 1);
    assert_eq!(p.reg(0), 0b1100);
    inst_6xkk(&mut p, 0, 0b1010);
    inst_8xy1(&mut p, 0, 1);
    assert_eq!(p.reg(0), 0b1110);
    inst_6xkk(&mut p, 0, 0b1010);
    inst_8xy2(&mut p, 0, 1);
    assert_eq!(p.reg(0), 0b1000);
    inst_6xkk(&mut p, 0, 0b1010);
    inst_8xy3(&mut p, 0, 1);
    assert_eq!(p.reg(0), 0b0110);
}

#[test]
fn add_with_carry_cases() {
    // The 9-bit add: 200 + 100 = 300 leaves 44 and carry 1; 10 + 20 leaves 30
    // and carry 0.
    let mut p = fresh();
    inst_6xkk(&mut p, 0, 200);
    inst_6xkk(&mut p, 1, 100);
    inst_8xy4(&mut p, 0, 1);
    assert_eq!(p.reg(0), 44);
    assert_eq!(p.reg(0xF), 1);
    inst_6xkk(&mut p, 0, 10);
    inst_6xkk(&mut p, 1, 20);
    inst_8xy4(&mut p, 0, 1);
    assert_eq!(p.reg(0), 30);
    assert_eq!(p.reg(0xF), 0);
}

#[test]
fn subtract_sets_no_borrow_flag() {
    let mut p = fresh();
    inst_6xkk(&mut p, 0, 20);
    inst_6xkk(&mut p, 1, 10);
    inst_8xy5(&mut p, 0, 1);
    assert_eq!(p.reg(0), 10);
    assert_eq!(p.reg(0xF), 1);
    inst_6xkk(&mut p, 0, 10);
    inst_6xkk(&mut p, 1, 20);
    inst_8xy5(&mut p, 0, 1);
    assert_eq!(p.reg(0), 246); // 10 - 20 with 8-bit wraparound
    assert_eq!(p.reg(0xF), 0);
}

#[test]
fn subtract_reversed_sets_no_borrow_flag() {
    let mut p = fresh();
    inst_6xkk(&mut p, 0, 10);
    inst_6xkk(&mut p, 1, 20);
    inst_8xy7(&mut p, 0, 1);
    assert_eq!(p.reg(0), 10); // 20 - 10
    assert_eq!(p.reg(0xF), 1);
    inst_6xkk(&mut p, 0, 20);
    inst_6xkk(&mut p, 1, 10);
    inst_8xy7(&mut p, 0, 1);
    assert_eq!(p.reg(0), 246); // 10 - 20 with wraparound
    assert_eq!(p.reg(0xF), 0);
}

#[test]
fn shifts_capture_edge_bits() {
    let mut p = fresh();
    inst_6xkk(&mut p, 0, 5);
    inst_8xy6(&mut p, 0, 1);
    assert_eq!(p.reg(0), 2);
    assert_eq!(p.reg(0xF), 1);
    inst_6xkk(&mut p, 0, 0x81);
    inst_8xyE(&mut p, 0, 1);
    assert_eq!(p.reg(0), 2); // 0x81 * 2 truncated
    assert_eq!(p.reg(0xF), 1);
    inst_6xkk(&mut p, 0, 0x40);
    inst_8xyE(&mut p, 0, 1);
    assert_eq!(p.reg(0), 0x80);
    assert_eq!(p.reg(0xF), 0);
}

#[test]
fn jumps_set_program_counter() {
    let mut p = fresh();
    inst_1nnn(&mut p, 0x456);
    assert_eq!(p.pc(), 0x456);
    inst_6xkk(&mut p, 0, 0x10);
    inst_Bnnn(&mut p, 0x300);
    assert_eq!(p.pc(), 0x310);
}

#[test]
fn call_and_return_manage_stack() {
    let mut p = fresh();
    let pc0 = p.pc();
    assert_eq!(inst_2nnn(&mut p, 0x400), Ok(()));
    assert_eq!(p.pc(), 0x400);
    assert_eq!(inst_00EE(&mut p), Ok(()));
    assert_eq!(p.pc(), pc0);
}

#[test]
fn stack_underflow_is_reported() {
    let mut p = fresh();
    assert_eq!(inst_00EE(&mut p), Err(CpuError::StackUnderflow));
}

#[test]
fn stack_overflow_is_reported() {
    let mut p = fresh();
    for _ in 0..15 {
        assert_eq!(inst_2nnn(&mut p, 0x400), Ok(()));
    }
    assert_eq!(inst_2nnn(&mut p, 0x400), Err(CpuError::StackOverflow));
}

#[test]
fn random_byte_is_masked() {
    let mut p = fresh();
    inst_Cxkk(&mut p, 0, 0x0F, 0b1010_1010);
    assert_eq!(p.reg(0), 0b0000_1010);
    inst_Cxkk(&mut p, 0, 0x00, 0xFF);
    assert_eq!(p.reg(0), 0);
}

#[test]
fn keyboard_skips_follow_snapshot() {
    let mut keys = [false; 16];
    keys[0xB] = true;
    let mut p = fresh();
    let pc0 = p.pc();
    inst_6xkk(&mut p, 0, 0xB);
    inst_Ex9E(&mut p, 0, keys);
    assert_eq!(p.pc(), pc0 + 2);
    inst_ExA1(&mut p, 0, keys);
    assert_eq!(p.pc(), pc0 + 2);
    keys[0xB] = false;
    inst_Ex9E(&mut p, 0, keys);
    assert_eq!(p.pc(), pc0 + 2);
    inst_ExA1(&mut p, 0, keys);
    assert_eq!(p.pc(), pc0 + 4);
}

#[test]
fn wait_for_key_stalls_and_reads_lowest() {
    let mut p = fresh();
    let pc0 = p.pc();
    inst_Fx0A(&mut p, 0, [false; 16]);
    assert_eq!(p.pc(), pc0 - 2);
    let mut keys = [false; 16];
    keys[0x5] = true;
    keys[0x9] = true;
    inst_Fx0A(&mut p, 0, keys);
    assert_eq!(p.reg(0), 0x5);
    assert_eq!(p.pc(), pc0 - 2);
}

#[test]
fn timer_loads_and_reads() {
    let mut p = fresh();
    inst_6xkk(&mut p, 0, 42);
    inst_Fx15(&mut p, 0, 1234);
    assert_eq!(p.delay_timer, 42);
    assert_eq!(p.last_tick_ms, 1234);
    inst_Fx18(&mut p, 0);
    assert_eq!(p.sound_timer, 42);
    inst_Fx07(&mut p, 1);
    assert_eq!(p.reg(1), 42);
}

#[test]
fn index_register_arithmetic() {
    let mut p = fresh();
    inst_Annn(&mut p, 0x300);
    assert_eq!(p.index_register(), 0x300);
    inst_6xkk(&mut p, 0, 0x20);
    assert_eq!(inst_Fx1E(&mut p, 0), Ok(()));
    assert_eq!(p.index_register(), 0x320);
}

#[test]
fn index_register_overflow_is_fatal() {
    let mut p = fresh();
    inst_Annn(&mut p, 0xFFF);
    inst_6xkk(&mut p, 0, 1);
    assert_eq!(inst_Fx1E(&mut p, 0), Err(CpuError::MemoryOutOfBounds));
    assert_eq!(p.index_register(), 0xFFF);
}

#[test]
fn font_address_resolution() {
    // Fx29 with reg[x] = 0xA points I at font_base + 50.
    let mut p = fresh();
    inst_6xkk(&mut p, 0, 0xA);
    inst_Fx29(&mut p, 0);
    assert_eq!(p.index_register(), 0x50 + 50);
}

#[test]
fn bcd_stores_decimal_digits() {
    let mut p = fresh();
    inst_6xkk(&mut p, 0, 234);
    inst_Annn(&mut p, 0x300);
    assert_eq!(inst_Fx33(&mut p, 0), Ok(()));
    assert_eq!(p.memory[0x300], 2);
    assert_eq!(p.memory[0x301], 3);
    assert_eq!(p.memory[0x302], 4);
    inst_6xkk(&mut p, 0, 7);
    assert_eq!(inst_Fx33(&mut p, 0), Ok(()));
    assert_eq!(p.memory[0x300], 0);
    assert_eq!(p.memory[0x301], 0);
    assert_eq!(p.memory[0x302], 7);
}

#[test]
fn bcd_out_of_bounds_is_fatal() {
    let mut p = fresh();
    inst_Annn(&mut p, 0xFFE);
    assert_eq!(inst_Fx33(&mut p, 0), Err(CpuError::MemoryOutOfBounds));
}

#[test]
fn store_and_load_registers_round_trip() {
    let mut p = fresh();
    inst_6xkk(&mut p, 0, 11);
    inst_6xkk(&mut p, 1, 22);
    inst_6xkk(&mut p, 2, 33);
    inst_Annn(&mut p, 0x400);
    assert_eq!(inst_Fx55(&mut p, 2), Ok(()));
    assert_eq!(p.memory[0x400], 11);
    assert_eq!(p.memory[0x401], 22);
    assert_eq!(p.memory[0x402], 33);
    inst_6xkk(&mut p, 0, 0);
    inst_6xkk(&mut p, 1, 0);
    inst_6xkk(&mut p, 2, 0);
    assert_eq!(inst_Fx65(&mut p, 2), Ok(()));
    assert_eq!(p.reg(0), 11);
    assert_eq!(p.reg(1), 22);
    assert_eq!(p.reg(2), 33);
    assert_eq!(p.reg(3), 0);
}

#[test]
fn register_copy_out_of_bounds_is_fatal() {
    let mut p = fresh();
    inst_Annn(&mut p, 0xFFE);
    assert_eq!(inst_Fx55(&mut p, 2), Err(CpuError::MemoryOutOfBounds));
    assert_eq!(inst_Fx65(&mut p, 2), Err(CpuError::MemoryOutOfBounds));
}

#[test]
fn clear_turns_every_pixel_off() {
    let mut p = fresh();
    // Draw the font glyph for 0 somewhere first so the screen is not blank.
    inst_Annn(&mut p, 0x50);
    inst_6xkk(&mut p, 0, 3);
    inst_6xkk(&mut p, 1, 4);
    assert_eq!(inst_Dxyn(&mut p, 0, 1, 5), Ok(true));
    assert_eq!(p.pixel(4, 3), 1);
    inst_00E0(&mut p);
    for row in 0..32 {
        for col in 0..64 {
            assert_eq!(p.pixel(row, col), 0);
        }
    }
}

#[test]
fn draw_reports_collision_and_restores_on_second_draw() {
    // Double-XOR: the identical sprite at the identical coordinates undoes
    // the first draw, and the second draw collides exactly because the first
    // turned pixels on.
    let mut p = fresh();
    inst_Annn(&mut p, 0x50);
    inst_6xkk(&mut p, 0, 10);
    inst_6xkk(&mut p, 1, 7);
    assert_eq!(inst_Dxyn(&mut p, 0, 1, 5), Ok(true));
    assert_eq!(p.reg(0xF), 0);
    assert_eq!(p.pixel(7, 10), 1); // 0xF0: top row of the 0 glyph
    assert_eq!(inst_Dxyn(&mut p, 0, 1, 5), Ok(true));
    assert_eq!(p.reg(0xF), 1);
    for row in 0..32 {
        for col in 0..64 {
            assert_eq!(p.pixel(row, col), 0);
        }
    }
}

#[test]
fn draw_wraps_at_the_right_edge() {
    // A sprite anchored at column 63 puts its second column on column 0.
    let mut p = fresh();
    inst_Annn(&mut p, 0x50); // 0xF0: leftmost four sprite bits set
    inst_6xkk(&mut p, 0, 63);
    inst_6xkk(&mut p, 1, 0);
    assert_eq!(inst_Dxyn(&mut p, 0, 1, 1), Ok(true));
    assert_eq!(p.pixel(0, 63), 1);
    assert_eq!(p.pixel(0, 0), 1);
    assert_eq!(p.pixel(0, 1), 1);
    assert_eq!(p.pixel(0, 2), 1);
    assert_eq!(p.pixel(0, 3), 0);
}

#[test]
fn draw_wraps_at_the_bottom_edge() {
    let mut p = fresh();
    inst_Annn(&mut p, 0x50);
    inst_6xkk(&mut p, 0, 0);
    inst_6xkk(&mut p, 1, 31);
    assert_eq!(inst_Dxyn(&mut p, 0, 1, 2), Ok(true));
    assert_eq!(p.pixel(31, 0), 1);
    assert_eq!(p.pixel(0, 0), 1); // second sprite row wrapped to the top
}

#[test]
fn draw_out_of_bounds_is_fatal() {
    let mut p = fresh();
    inst_Annn(&mut p, 0xFFD);
    assert_eq!(inst_Dxyn(&mut p, 0, 1, 5), Err(CpuError::MemoryOutOfBounds));
}

#[test]
fn draw_of_blank_rows_changes_nothing() {
    let mut p = fresh();
    inst_Annn(&mut p, 0x200); // fresh memory is zero there
    assert_eq!(inst_Dxyn(&mut p, 0, 1, 5), Ok(false));
    assert_eq!(p.reg(0xF), 0);
}
