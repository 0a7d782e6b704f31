//! The CPU state: 4096 bytes of memory with the font sprites resident at
//! [0x50, 0xA0), sixteen 8-bit registers, the 16-bit index register, the
//! program counter, a 16-entry call stack, the two 60 Hz timers and the
//! 64x32 one-bit framebuffer.

use vstd::prelude::*;

verus! {

/// Total bytes of addressable memory.
pub const MEMORY_SIZE: usize = 4096;
/// Number of general-purpose registers.
pub const REGISTER_COUNT: usize = 16;
/// Number of call-stack slots.
pub const STACK_SIZE: usize = 16;
/// Framebuffer width in pixels.
pub const DISPLAY_WIDTH: usize = 64;
/// Framebuffer height in pixels.
pub const DISPLAY_HEIGHT: usize = 32;
/// Pixel count of the framebuffer.
pub const DISPLAY_SIZE: usize = 2048;
/// First address of the resident font sprites.
pub const FONT_BASE: usize = 0x50;
/// Address at which a loaded program begins, and the initial program counter.
pub const PROGRAM_START: usize = 0x200;
/// Largest program image that fits between PROGRAM_START and the end of memory.
pub const MAX_PROGRAM_SIZE: usize = 3584;

/// The built-in sprites for the hexadecimal digits 0-F, five bytes each.
pub const FONT: [u8; 80] = [
    0xF0, 0x90, 0x90, 0x90, 0xF0, // 0
    0x20, 0x60, 0x20, 0x20, 0x70, // 1
    0xF0, 0x10, 0xF0, 0x80, 0xF0, // 2
    0xF0, 0x10, 0xF0, 0x10, 0xF0, // 3
    0x90, 0x90, 0xF0, 0x10, 0x10, // 4
    0xF0, 0x80, 0xF0, 0x10, 0xF0, // 5
    0xF0, 0x80, 0xF0, 0x90, 0xF0, // 6
    0xF0, 0x10, 0x20, 0x40, 0x40, // 7
    0xF0, 0x90, 0xF0, 0x90, 0xF0, // 8
    0xF0, 0x90, 0xF0, 0x10, 0xF0, // 9
    0xF0, 0x90, 0xF0, 0x90, 0x90, // A
    0xE0, 0x90, 0xE0, 0x90, 0xE0, // B
    0xF0, 0x80, 0x80, 0x80, 0xF0, // C
    0xE0, 0x90, 0x90, 0x90, 0xE0, // D
    0xF0, 0x80, 0xF0, 0x80, 0xF0, // E
    0xF0, 0x80, 0xF0, 0x80, 0x80, // F
];

/// The fatal conditions a faithful interpreter must detect: call-stack
/// discipline violations, memory accesses past the 4 KB address space, and a
/// program image that does not fit the program region.
#[derive(Clone, Copy, Debug, PartialEq, Eq, Structural)]
pub enum CpuError {
    /// A subroutine call would push past the 16-entry stack.
    StackOverflow,
    /// A return was executed with an empty stack.
    StackUnderflow,
    /// The program counter or an index-register access left the address space.
    MemoryOutOfBounds,
    /// The cartridge image exceeds MAX_PROGRAM_SIZE bytes.
    ProgramTooLarge,
}

/// The mathematical model of the CPU: every field of `Processor` as a plain
/// ghost value. Contracts and lemmas speak of this view.
pub ghost struct CpuView {
    pub memory: Seq<u8>,
    pub v: Seq<u8>,
    pub i: u16,
    pub sound_timer: u8,
    pub delay_timer: u8,
    pub pc: u16,
    pub sp: u8,
    pub stack: Seq<u16>,
    pub vram: Seq<u8>,
    pub last_tick_ms: u64,
}

/// Well-formedness of a CPU view: every component has its architectural size,
/// the stack pointer stays inside the 16-slot stack, and each framebuffer cell
/// is a single bit.
pub open spec fn view_wf(s: CpuView) -> bool {
    &&& s.memory.len() == MEMORY_SIZE
    &&& s.v.len() == REGISTER_COUNT
    &&& s.stack.len() == STACK_SIZE
    &&& s.vram.len() == DISPLAY_SIZE
    &&& s.sp < STACK_SIZE
    &&& forall|p: int| 0 <= p < DISPLAY_SIZE ==> s.vram[p] <= 1
}

/// The CHIP-8 CPU: memory, register file, call stack, timers and framebuffer.
/// The fields are public so that a host can inspect the machine between
/// cycles; every verified operation requires and preserves `view_wf`.
pub struct Processor {
    /// 4096-byte address space; the font sprites live at [FONT_BASE, FONT_BASE + 80).
    pub memory: Vec<u8>,
    /// The sixteen general-purpose registers V0-VF; VF doubles as the flag register.
    pub v: Vec<u8>,
    /// The 16-bit index register, used as a memory-access base.
    pub i: u16,
    /// 8-bit sound timer, decremented at 60 Hz down to 0.
    pub sound_timer: u8,
    /// 8-bit delay timer, decremented at 60 Hz down to 0.
    pub delay_timer: u8,
    /// The program counter.
    pub pc: u16,
    /// Index of the current top of the call stack; 0 means empty.
    pub sp: u8,
    /// The 16 return-address slots of the call stack.
    pub stack: Vec<u16>,
    /// The 64x32 framebuffer, row-major, one byte (0 or 1) per pixel.
    pub vram: Vec<u8>,
    /// Timestamp (in milliseconds) of the last 60 Hz timer decrement.
    pub last_tick_ms: u64,
}

impl View for Processor {
    type V = CpuView;

    open spec fn view(&self) -> CpuView {
        CpuView {
            memory: self.memory@,
            v: self.v@,
            i: self.i,
            sound_timer: self.sound_timer,
            delay_timer: self.delay_timer,
            pc: self.pc,
            sp: self.sp,
            stack: self.stack@,
            vram: self.vram@,
            last_tick_ms: self.last_tick_ms,
        }
    }
}

/// A freshly powered-on CPU as `Processor::new_at(now_ms)` leaves it: the font
/// resident at FONT_BASE, everything else zeroed, and the program counter at
/// the program entry point.
pub open spec fn powered_on(s: CpuView, now_ms: u64) -> bool {
    &&& view_wf(s)
    &&& s.pc == PROGRAM_START
    &&& s.i == 0
    &&& s.sp == 0
    &&& s.delay_timer == 0
    &&& s.sound_timer == 0
    &&& s.last_tick_ms == now_ms
    &&& forall|a: int| 0 <= a < REGISTER_COUNT ==> s.v[a] == 0
    &&& forall|a: int| 0 <= a < STACK_SIZE ==> s.stack[a] == 0
    &&& forall|p: int| 0 <= p < DISPLAY_SIZE ==> s.vram[p] == 0
    &&& forall|a: int| FONT_BASE <= a < FONT_BASE + 80 ==> s.memory[a] == FONT[a - FONT_BASE]
    &&& forall|a: int|
        0 <= a < MEMORY_SIZE && !(FONT_BASE <= a < FONT_BASE + 80) ==> s.memory[a] == 0
}

impl Processor {
    /// A freshly powered-on CPU with the given timer timestamp: font loaded at
    /// FONT_BASE, all registers, timers, stack and framebuffer zeroed, and the
    /// program counter at PROGRAM_START.
    pub fn new_at(now_ms: u64) -> (cpu: Processor)
        ensures
            powered_on(cpu@, now_ms),
    {
        let mut memory: Vec<u8> = Vec::new();
        let mut a: usize = 0;
        while a < MEMORY_SIZE
            invariant
                memory@.len() == a,
                a <= MEMORY_SIZE,
                forall|k: int| 0 <= k < a ==> memory@[k] == 0,
            decreases MEMORY_SIZE - a,
        {
            memory.push(0);
            a += 1;
        }
        let mut f: usize = 0;
        while f < 80
            invariant
                memory@.len() == MEMORY_SIZE,
                f <= 80,
                forall|k: int| FONT_BASE <= k < FONT_BASE + f ==> memory@[k] == FONT[k - FONT_BASE],
                forall|k: int|
                    0 <= k < MEMORY_SIZE && !(FONT_BASE <= k < FONT_BASE + f) ==> memory@[k] == 0,
            decreases 80 - f,
        {
            memory.set(FONT_BASE + f, FONT[f]);
            f += 1;
        }
        let mut v: Vec<u8> = Vec::new();
        let mut r: usize = 0;
        while r < REGISTER_COUNT
            invariant
                v@.len() == r,
                r <= REGISTER_COUNT,
                forall|k: int| 0 <= k < r ==> v@[k] == 0,
            decreases REGISTER_COUNT - r,
        {
            v.push(0);
            r += 1;
        }
        let mut stack: Vec<u16> = Vec::new();
        let mut s: usize = 0;
        while s < STACK_SIZE
            invariant
                stack@.len() == s,
                s <= STACK_SIZE,
                forall|k: int| 0 <= k < s ==> stack@[k] == 0,
            decreases STACK_SIZE - s,
        {
            stack.push(0);
            s += 1;
        }
        let mut vram: Vec<u8> = Vec::new();
        let mut p: usize = 0;
        while p < DISPLAY_SIZE
            invariant
                vram@.len() == p,
                p <= DISPLAY_SIZE,
                forall|k: int| 0 <= k < p ==> vram@[k] == 0,
            decreases DISPLAY_SIZE - p,
        {
            vram.push(0);
            p += 1;
        }
        Processor {
            memory,
            v,
            i: 0,
            sound_timer: 0,
            delay_timer: 0,
            pc: PROGRAM_START as u16,
            sp: 0,
            stack,
            vram,
            last_tick_ms: now_ms,
        }
    }

    /// Copy a cartridge image into memory starting at PROGRAM_START. An image
    /// larger than the program region is rejected whole; bytes of the region
    /// beyond the image keep their previous (zero, on a fresh CPU) values.
    pub fn load_cartridge(&mut self, cartridge: &[u8]) -> (r: Result<(), CpuError>)
        requires
            view_wf(old(self)@),
        ensures
            view_wf(final(self)@),
            cartridge@.len() > MAX_PROGRAM_SIZE ==> r == Err::<(), CpuError>(
                CpuError::ProgramTooLarge,
            ) && final(self)@ == old(self)@,
            cartridge@.len() <= MAX_PROGRAM_SIZE ==> {
                &&& r == Ok::<(), CpuError>(())
                &&& final(self)@ == (CpuView { memory: final(self)@.memory, ..old(self)@ })
                &&& final(self)@.memory.len() == MEMORY_SIZE
                &&& forall|k: int|
                    0 <= k < cartridge@.len() ==> final(self)@.memory[PROGRAM_START + k]
                        == cartridge@[k]
                &&& forall|a: int|
                    0 <= a < MEMORY_SIZE && !(PROGRAM_START <= a < PROGRAM_START
                        + cartridge@.len()) ==> final(self)@.memory[a] == old(self)@.memory[a]
            },
    {
        if cartridge.len() > MAX_PROGRAM_SIZE {
            return Err(CpuError::ProgramTooLarge);
        }
        let mut k: usize = 0;
        while k < cartridge.len()
            invariant
                view_wf(self@),
                cartridge@.len() <= MAX_PROGRAM_SIZE,
                k <= cartridge@.len(),
                self@ == (CpuView { memory: self@.memory, ..old(self)@ }),
                self@.memory.len() == MEMORY_SIZE,
                forall|j: int|
                    0 <= j < k ==> self@.memory[PROGRAM_START + j] == cartridge@[j],
                forall|a: int|
                    0 <= a < MEMORY_SIZE && !(PROGRAM_START <= a < PROGRAM_START + k)
                        ==> self@.memory[a] == old(self)@.memory[a],
            decreases cartridge@.len() - k,
        {
            self.memory.set(PROGRAM_START + k, cartridge[k]);
            k += 1;
        }
        Ok(())
    }

    /// The current program counter.
    pub fn pc(&self) -> (r: u16)
        ensures
            r == self@.pc,
    {
        self.pc
    }

    /// The value of general-purpose register `x`.
    pub fn reg(&self, x: u8) -> (r: u8)
        requires
            view_wf(self@),
            x < 16,
        ensures
            r == self@.v[x as int],
    {
        self.v[x as usize]
    }

    /// The current index register.
    pub fn index_register(&self) -> (r: u16)
        ensures
            r == self@.i,
    {
        self.i
    }

    /// The pixel at framebuffer row `row`, column `col`: 0 (off) or 1 (on).
    pub fn pixel(&self, row: usize, col: usize) -> (r: u8)
        requires
            view_wf(self@),
            row < DISPLAY_HEIGHT,
            col < DISPLAY_WIDTH,
        ensures
            r == self@.vram[row * DISPLAY_WIDTH + col],
            r <= 1,
    {
        self.vram[row * DISPLAY_WIDTH + col]
    }
}

} // verus!
