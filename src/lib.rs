//! An interpreter core for the CHIP-8 family of virtual machines.
//!
//! The core executes one instruction at a time against the semantics of a
//! chosen variant, and is proved against a functional model of the machine
//! (`Machine`) in which every instruction is a spec function.
//!
//! - `target`: the four variants, and their default clock rates.
//! - `machine`: the model `Machine`, the executable `Chip8` and its construction.
//! - `decode`: instruction words to `Instr`, case by case in a fixed order.
//! - `isa`, `frame`: what an instruction, a step and a run do, as spec functions.
//! - `display`, `sprite`: clearing, scrolling and XOR drawing on the planes.
//! - `audio`: the sample generator's clock, phase and pitch.
//! - `cpu`, `engine`: the executable step, frame and keypad/audio interface.
//! - `render`: the RGBA image and the text form of a plane.
//! - `laws`: properties proved of the model.

pub mod target;
pub mod font;
pub mod machine;
pub mod decode;
pub mod display;
pub mod sprite;
pub mod isa;
pub mod audio;
pub mod frame;
pub mod cpu;
pub mod engine;
pub mod render;
pub mod laws;

pub use target::{Target, SyncModes, default_clock};
pub use machine::{Chip8, ConfigError, build_chip8, MEM_SIZE, PROGRAM_START, WIDTH, HEIGHT, PLANE_COUNT};
pub use decode::{Instr, decode_op};
pub use isa::Fault;
pub use engine::run_frame;
pub use render::pretty_plane;
pub use audio::pitch_rate;
