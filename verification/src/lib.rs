//! A verified CHIP-8 CPU core: memory, registers, call stack, timers and a
//! monochrome framebuffer, driven one fetch/decode/execute cycle at a time by
//! a host loop that supplies the keyboard snapshot for each cycle.

pub mod cycle;
pub mod decode;
pub mod draw;
pub mod exec;
pub mod host;
pub mod keymap;
pub mod laws;
pub mod state;

pub use cycle::CycleResult;
pub use decode::Instr;
pub use keymap::KeyboardInput;
pub use state::{CpuError, Processor};
