use vstd::prelude::*;
use crate::target::Target;
use crate::font::{fonts, font_bytes};
use crate::decode::{decode, Instr};
use std::collections::VecDeque;

verus! {

/// Bytes of memory; only XO-CHIP addresses beyond the first 4 KiB, the others share the store.
pub const MEM_SIZE: usize = 0x10000;
/// Where a program image is loaded.
pub const PROGRAM_START: usize = 0x200;
/// Pixels in a row of a plane.
pub const WIDTH: usize = 128;
/// Rows in a plane.
pub const HEIGHT: usize = 64;
/// Number of display planes.
pub const PLANE_COUNT: usize = 2;
/// Entries of the return-address stack.
pub const STACK_SIZE: usize = 16;
/// Keys of the keypad.
pub const KEY_COUNT: usize = 16;
/// General-purpose registers; the last one is the flags register.
pub const REG_COUNT: usize = 16;
/// The audio pattern used until a program loads its own.
pub const DEFAULT_PATTERN: u128 = 0x0000FFFF0000FFFF0000FFFF0000FFFF;
/// The pitch register value that plays the pattern at 4000 Hz.
pub const DEFAULT_PITCH: u8 = 64;

/// The abstract state of a machine. Each plane is `HEIGHT` rows of `WIDTH` bits;
/// row `r` of plane `p` sits at index `p * HEIGHT + r`, and bit 127 of a row is
/// its leftmost pixel.
pub struct Machine {
    pub target: Target,
    /// Instructions per frame.
    pub clock: u32,
    /// Instructions left in the current frame.
    pub remaining: u32,
    pub v: Seq<u8>,
    pub i: usize,
    pub pc: usize,
    pub sp: usize,
    pub delay: u8,
    pub sound: u8,
    pub stack: Seq<u16>,
    pub mem: Seq<u8>,
    /// Whether the last instruction is being retried.
    pub halting: bool,
    /// The last instruction word executed.
    pub prev_op: u16,
    /// Bit `p` set: draw, scroll and clear act on plane `p`.
    pub enabled_planes: u8,
    pub high_res: bool,
    /// The planes that instructions change.
    pub active: Seq<u128>,
    /// The planes as published at the last frame boundary.
    pub buffer: Seq<u128>,
    pub prev_keys: Seq<bool>,
    pub curr_keys: Seq<bool>,
    /// Output samples per second; zero until a host sets it.
    pub sample_rate: u32,
    /// Output channels; zero until a host sets it.
    pub channels: usize,
    /// Emulated time since the last sample, in units of `1 / (60 * clock * sample_rate)` s.
    pub audio_time: u64,
    pub pattern: u128,
    pub pitch: u8,
    /// Position in the pattern, in units of `1 / (1000 * sample_rate)` pattern bits.
    pub phase: u64,
    /// Samples not yet taken, oldest first; each is 0 or 1.
    pub samples: Seq<u8>,
}

impl Machine {
    /// Sizes and ranges that hold between any two parts of a step.
    pub open spec fn shape(self) -> bool {
        &&& self.v.len() == REG_COUNT
        &&& self.stack.len() == STACK_SIZE
        &&& self.mem.len() == MEM_SIZE
        &&& self.active.len() == PLANE_COUNT * HEIGHT
        &&& self.buffer.len() == PLANE_COUNT * HEIGHT
        &&& self.prev_keys.len() == KEY_COUNT
        &&& self.curr_keys.len() == KEY_COUNT
        &&& self.sp <= STACK_SIZE
        &&& self.enabled_planes <= 3
        &&& (self.phase == 0 || self.phase < 128000 * self.sample_rate)
        &&& (self.sample_rate == 0 ==> self.audio_time == 0)
    }

    /// The invariant of a machine between steps.
    pub open spec fn wf(self) -> bool {
        &&& self.shape()
        &&& 1 <= self.remaining <= self.clock
        &&& self.pc <= MEM_SIZE + 4
        &&& (self.halting ==> self.pc <= MEM_SIZE)
        &&& (self.halting ==> (decode(self.prev_op, self.target) matches Some(Instr::WaitKey { .. })
            || decode(self.prev_op, self.target) matches Some(Instr::Draw { .. })))
    }
}

/// Why a machine could not be built.
#[derive(Clone, Copy, Debug, PartialEq, Eq, Structural)]
pub enum ConfigError {
    /// A frame must hold at least one instruction.
    ZeroClock,
    /// The program does not fit between `PROGRAM_START` and the end of memory.
    RomTooLarge { len: usize },
}

/// Memory as a new machine holds it: the fonts from address 0, the program
/// from `PROGRAM_START`, zero elsewhere.
pub open spec fn initial_mem(rom: Seq<u8>) -> Seq<u8> {
    Seq::new(MEM_SIZE as nat, |a: int|
        if a < fonts().len() {
            fonts()[a]
        } else if PROGRAM_START <= a < PROGRAM_START + rom.len() {
            rom[a - PROGRAM_START]
        } else {
            0
        })
}

/// A new machine, before any instruction has run.
pub open spec fn initial(target: Target, clock: u32, rom: Seq<u8>) -> Machine {
    Machine {
        target,
        clock,
        remaining: clock,
        v: Seq::new(REG_COUNT as nat, |k: int| 0u8),
        i: 0,
        pc: PROGRAM_START,
        sp: 0,
        delay: 0,
        sound: 0,
        stack: Seq::new(STACK_SIZE as nat, |k: int| 0u16),
        mem: initial_mem(rom),
        halting: false,
        prev_op: 0,
        enabled_planes: 1,
        high_res: false,
        active: Seq::new((PLANE_COUNT * HEIGHT) as nat, |k: int| 0u128),
        buffer: Seq::new((PLANE_COUNT * HEIGHT) as nat, |k: int| 0u128),
        prev_keys: Seq::new(KEY_COUNT as nat, |k: int| false),
        curr_keys: Seq::new(KEY_COUNT as nat, |k: int| false),
        sample_rate: 0,
        channels: 0,
        audio_time: 0,
        pattern: DEFAULT_PATTERN,
        pitch: DEFAULT_PITCH,
        phase: 0,
        samples: Seq::empty(),
    }
}

/// A CHIP-8 machine. Its meaning is `self@`, a `Machine`; see there for the fields.
pub struct Chip8 {
    pub target: Target,
    pub clock: u32,
    pub remaining: u32,
    pub v: Vec<u8>,
    pub i: usize,
    pub pc: usize,
    pub sp: usize,
    pub delay: u8,
    pub sound: u8,
    pub stack: Vec<u16>,
    pub mem: Vec<u8>,
    pub halting: bool,
    pub prev_op: u16,
    pub enabled_planes: u8,
    pub high_res: bool,
    pub active: Vec<u128>,
    pub buffer: Vec<u128>,
    pub prev_keys: Vec<bool>,
    pub curr_keys: Vec<bool>,
    pub sample_rate: u32,
    pub channels: usize,
    pub audio_time: u64,
    pub pattern: u128,
    pub pitch: u8,
    pub phase: u64,
    pub samples: VecDeque<u8>,
}

impl View for Chip8 {
    type V = Machine;

    open spec fn view(&self) -> Machine {
        Machine {
            target: self.target,
            clock: self.clock,
            remaining: self.remaining,
            v: self.v@,
            i: self.i,
            pc: self.pc,
            sp: self.sp,
            delay: self.delay,
            sound: self.sound,
            stack: self.stack@,
            mem: self.mem@,
            halting: self.halting,
            prev_op: self.prev_op,
            enabled_planes: self.enabled_planes,
            high_res: self.high_res,
            active: self.active@,
            buffer: self.buffer@,
            prev_keys: self.prev_keys@,
            curr_keys: self.curr_keys@,
            sample_rate: self.sample_rate,
            channels: self.channels,
            audio_time: self.audio_time,
            pattern: self.pattern,
            pitch: self.pitch,
            phase: self.phase,
            samples: self.samples@,
        }
    }
}

fn zeros_u8(n: usize) -> (r: Vec<u8>)
    ensures
        r@ == Seq::new(n as nat, |k: int| 0u8),
{
    let mut r: Vec<u8> = Vec::new();
    let mut k: usize = 0;
    while k < n
        invariant
            k <= n,
            r@ == Seq::new(k as nat, |j: int| 0u8),
        decreases n - k,
    {
        r.push(0);
        k = k + 1;
        assert(r@ =~= Seq::new(k as nat, |j: int| 0u8));
    }
    r
}

fn zeros_u16(n: usize) -> (r: Vec<u16>)
    ensures
        r@ == Seq::new(n as nat, |k: int| 0u16),
{
    let mut r: Vec<u16> = Vec::new();
    let mut k: usize = 0;
    while k < n
        invariant
            k <= n,
            r@ == Seq::new(k as nat, |j: int| 0u16),
        decreases n - k,
    {
        r.push(0);
        k = k + 1;
        assert(r@ =~= Seq::new(k as nat, |j: int| 0u16));
    }
    r
}

fn zeros_u128(n: usize) -> (r: Vec<u128>)
    ensures
        r@ == Seq::new(n as nat, |k: int| 0u128),
{
    let mut r: Vec<u128> = Vec::new();
    let mut k: usize = 0;
    while k < n
        invariant
            k <= n,
            r@ == Seq::new(k as nat, |j: int| 0u128),
        decreases n - k,
    {
        r.push(0);
        k = k + 1;
        assert(r@ =~= Seq::new(k as nat, |j: int| 0u128));
    }
    r
}

fn all_false(n: usize) -> (r: Vec<bool>)
    ensures
        r@ == Seq::new(n as nat, |k: int| false),
{
    let mut r: Vec<bool> = Vec::new();
    let mut k: usize = 0;
    while k < n
        invariant
            k <= n,
            r@ == Seq::new(k as nat, |j: int| false),
        decreases n - k,
    {
        r.push(false);
        k = k + 1;
        assert(r@ =~= Seq::new(k as nat, |j: int| false));
    }
    r
}

/// Memory with the fonts and the program image in place.
fn load_memory(rom: &Vec<u8>) -> (r: Vec<u8>)
    requires
        rom@.len() <= MEM_SIZE - PROGRAM_START,
    ensures
        r@ == initial_mem(rom@),
{
    let f = font_bytes();
    let mut r: Vec<u8> = Vec::new();
    let mut a: usize = 0;
    while a < MEM_SIZE
        invariant
            a <= MEM_SIZE,
            f@ == fonts(),
            f@.len() == 240,
            rom@.len() <= MEM_SIZE - PROGRAM_START,
            r@.len() == a,
            forall|k: int| 0 <= k < a ==> r@[k] == #[trigger] initial_mem(rom@)[k],
        decreases MEM_SIZE - a,
    {
        let b: u8 = if a < f.len() {
            f[a]
        } else if PROGRAM_START <= a && a < PROGRAM_START + rom.len() {
            rom[a - PROGRAM_START]
        } else {
            0
        };
        r.push(b);
        a = a + 1;
    }
    assert(r@ =~= initial_mem(rom@));
    r
}

impl Chip8 {
    pub open spec fn wf(&self) -> bool {
        self@.wf()
    }

    /// Builds a machine for `target` that runs `clock` instructions per frame,
    /// with `rom` loaded at `PROGRAM_START`.
    pub fn new(target: Target, clock: u32, rom: Vec<u8>) -> (r: Result<Chip8, ConfigError>)
        ensures
            clock == 0 ==> r == Err::<Chip8, ConfigError>(ConfigError::ZeroClock),
            clock != 0 && rom@.len() > MEM_SIZE - PROGRAM_START
                ==> r == Err::<Chip8, ConfigError>(ConfigError::RomTooLarge { len: rom@.len() as usize }),
            clock != 0 && rom@.len() <= MEM_SIZE - PROGRAM_START ==> (r matches Ok(c)
                && c@ == initial(target, clock, rom@) && c.wf()),
    {
        if clock == 0 {
            return Err(ConfigError::ZeroClock);
        }
        if rom.len() > MEM_SIZE - PROGRAM_START {
            return Err(ConfigError::RomTooLarge { len: rom.len() });
        }
        let c = Chip8 {
            target,
            clock,
            remaining: clock,
            v: zeros_u8(REG_COUNT),
            i: 0,
            pc: PROGRAM_START,
            sp: 0,
            delay: 0,
            sound: 0,
            stack: zeros_u16(STACK_SIZE),
            mem: load_memory(&rom),
            halting: false,
            prev_op: 0,
            enabled_planes: 1,
            high_res: false,
            active: zeros_u128(PLANE_COUNT * HEIGHT),
            buffer: zeros_u128(PLANE_COUNT * HEIGHT),
            prev_keys: all_false(KEY_COUNT),
            curr_keys: all_false(KEY_COUNT),
            sample_rate: 0,
            channels: 0,
            audio_time: 0,
            pattern: DEFAULT_PATTERN,
            pitch: DEFAULT_PITCH,
            phase: 0,
            samples: VecDeque::new(),
        };
        assert(c@ == initial(target, clock, rom@));
        Ok(c)
    }
}

/// Builds a machine; the same as `Chip8::new`.
pub fn build_chip8(target: Target, clock: u32, rom: Vec<u8>) -> (r: Result<Chip8, ConfigError>)
    ensures
        clock == 0 ==> r == Err::<Chip8, ConfigError>(ConfigError::ZeroClock),
        clock != 0 && rom@.len() > MEM_SIZE - PROGRAM_START
            ==> r == Err::<Chip8, ConfigError>(ConfigError::RomTooLarge { len: rom@.len() as usize }),
        clock != 0 && rom@.len() <= MEM_SIZE - PROGRAM_START ==> (r matches Ok(c)
            && c@ == initial(target, clock, rom@) && c.wf()),
{
    Chip8::new(target, clock, rom)
}

} // verus!
