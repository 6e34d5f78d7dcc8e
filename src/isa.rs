use vstd::prelude::*;
use crate::target::Target;
use crate::machine::{Machine, MEM_SIZE, HEIGHT, KEY_COUNT, STACK_SIZE};
use crate::decode::Instr;
use crate::display::{cleared, scrolled_sideways, scrolled_down, scrolled_up, plane_on};
use crate::sprite::{sprite_layout, draw_rows};
use crate::font::BIG_FONT_ADDR;

verus! {

/// A condition that stops emulation: the machine has no defined way to go on.
#[derive(Clone, Copy, Debug, PartialEq, Eq, Structural)]
pub enum Fault {
    /// No instruction of the variant has this encoding.
    UnsupportedOpcode { op: u16, target: Target },
    /// An instruction reads or writes memory past its end; `addr` is the base
    /// address it works from (the program counter, or register I).
    OutOfBounds { addr: usize },
    /// A call with all sixteen stack entries in use.
    StackOverflow,
    /// A return with an empty stack.
    StackUnderflow,
    /// A key instruction names a key above 15.
    BadKey { key: u8 },
}

/// The big-endian word at `a`.
pub open spec fn word_at(mem: Seq<u8>, a: int) -> u16 {
    (((mem[a] as u16) << 8u16) | (mem[a + 1] as u16)) as u16
}

/// Whether the register file follows either SUPER-CHIP dialect.
pub open spec fn is_super(t: Target) -> bool {
    t == Target::SuperModern || t == Target::SuperLegacy
}

/// The program counter past a skipped instruction: four bytes where the
/// instruction at `pc` is the double-width F000, else two.
pub open spec fn skipped(m: Machine) -> usize {
    if m.pc + 1 < MEM_SIZE && word_at(m.mem, m.pc as int) == 0xF000 {
        (m.pc + 4) as usize
    } else {
        (m.pc + 2) as usize
    }
}

/// `m` with the next instruction skipped where `cond` holds.
pub open spec fn skip_if(m: Machine, cond: bool) -> Machine {
    if cond {
        Machine { pc: skipped(m), ..m }
    } else {
        m
    }
}

/// `m` with register `x` set to `val`.
pub open spec fn set_reg(m: Machine, x: int, val: u8) -> Machine {
    Machine { v: m.v.update(x, val), ..m }
}

/// `m` with register `x` set to `val` and then the flags register to `flag`.
pub open spec fn set_reg_flag(m: Machine, x: int, val: u8, flag: u8) -> Machine {
    Machine { v: m.v.update(x, val).update(15, flag), ..m }
}

pub open spec fn bool_u8(b: bool) -> u8 {
    if b { 1 } else { 0 }
}

/// The value and flag of an 8xy_ arithmetic or logic instruction.
pub open spec fn alu(t: Target, ins: Instr, v: Seq<u8>) -> Seq<u8> {
    match ins {
        Instr::Move { x, y } => v.update(x as int, v[y as int]),
        Instr::Or { x, y } => {
            let w = v.update(x as int, v[x as int] | v[y as int]);
            if t == Target::Chip { w.update(15, 0) } else { w }
        },
        Instr::And { x, y } => {
            let w = v.update(x as int, v[x as int] & v[y as int]);
            if t == Target::Chip { w.update(15, 0) } else { w }
        },
        Instr::Xor { x, y } => {
            let w = v.update(x as int, v[x as int] ^ v[y as int]);
            if t == Target::Chip { w.update(15, 0) } else { w }
        },
        Instr::Add { x, y } => {
            let sum = v[x as int] + v[y as int];
            v.update(x as int, (sum % 256) as u8).update(15, bool_u8(sum > 255))
        },
        Instr::Sub { x, y } => {
            let w = v.update(x as int, ((v[x as int] - v[y as int]) % 256) as u8);
            w.update(15, bool_u8(v[x as int] >= v[y as int]))
        },
        Instr::SubN { x, y } => {
            let w = v.update(x as int, ((v[y as int] - v[x as int]) % 256) as u8);
            w.update(15, bool_u8(v[y as int] >= v[x as int]))
        },
        Instr::Shr { x, y } => {
            let src = if is_super(t) { v[x as int] } else { v[y as int] };
            v.update(x as int, src / 2).update(15, src % 2)
        },
        Instr::Shl { x, y } => {
            let src = if is_super(t) { v[x as int] } else { v[y as int] };
            v.update(x as int, ((src * 2) % 256) as u8).update(15, src / 128)
        },
        _ => v,
    }
}

/// The lowest key that went from down to up between the last two keypad
/// events, searching from key `k`.
pub open spec fn first_release(prev: Seq<bool>, curr: Seq<bool>, k: nat) -> Option<usize>
    decreases KEY_COUNT - k,
{
    if k >= KEY_COUNT {
        None
    } else if prev[k as int] && !curr[k as int] {
        Some(k as usize)
    } else {
        first_release(prev, curr, k + 1)
    }
}

/// The 128-bit pattern in the `k` bytes at `a`, first byte highest.
pub open spec fn pattern_at(mem: Seq<u8>, a: int, k: nat) -> u128
    decreases k,
{
    if k == 0 {
        0
    } else {
        ((pattern_at(mem, a, (k - 1) as nat) << 8u128) | (mem[a + k - 1] as u128)) as u128
    }
}

/// Memory with `vals[lo..=hi]` written from address `a`.
pub open spec fn stored(mem: Seq<u8>, a: int, vals: Seq<u8>, lo: int, hi: int) -> Seq<u8> {
    Seq::new(mem.len(), |k: int| if a <= k && k - a <= hi - lo { vals[lo + k - a] } else { mem[k] })
}

/// Registers with `v[lo..=hi]` read from memory at address `a`.
pub open spec fn loaded(v: Seq<u8>, mem: Seq<u8>, a: int, lo: int, hi: int) -> Seq<u8> {
    Seq::new(v.len(), |k: int| if lo <= k <= hi { mem[a + k - lo] } else { v[k] })
}

/// Whether a sprite may be drawn now, or the draw must wait for the end of the frame.
pub open spec fn may_draw(m: Machine) -> bool {
    m.remaining == 0 || m.target == Target::SuperModern || (m.target == Target::SuperLegacy
        && m.high_res) || m.target == Target::XO
}

/// One plane's pass of `Dxyn`: draws the sprite on plane `p` from the data of the
/// `offset`-th enabled plane and sets VF to whether a pixel went off.
pub open spec fn draw_pass(m: Machine, x: int, y: int, n: usize, p: int, offset: int) -> Result<Machine, Fault> {
    let s = sprite_layout(m.target, m.high_res, m.v[x], m.v[y], n, m.i);
    if !s.fits(offset) {
        Err(Fault::OutOfBounds { addr: m.i })
    } else {
        let (planes, hit) = draw_rows(m.active, m.mem, s, p, offset, s.rows as nat);
        Ok(Machine { active: planes, v: m.v.update(15, bool_u8(hit)), ..m })
    }
}

/// `Dxyn` once drawing is allowed: a pass over each enabled plane in turn. The
/// second plane reads the sprite data that follows the first's, and its
/// collision flag replaces the first's.
pub open spec fn draw_sprite(m: Machine, x: int, y: int, n: usize) -> Result<Machine, Fault> {
    let first = if plane_on(m.enabled_planes, 0) { draw_pass(m, x, y, n, 0, 0) } else { Ok(m) };
    match first {
        Err(f) => Err(f),
        Ok(m1) => if plane_on(m.enabled_planes, 1) {
            draw_pass(m1, x, y, n, 1, if plane_on(m.enabled_planes, 0) { 1 } else { 0 })
        } else {
            Ok(m1)
        },
    }
}

/// The effect of `ins` on `m`, whose program counter already points past it.
/// `rnd` is the byte that the random instruction uses.
#[verifier::opaque]
pub open spec fn execute(m: Machine, ins: Instr, rnd: u8) -> Result<Machine, Fault> {
    let t = m.target;
    match ins {
        Instr::Cls => Ok(Machine { active: cleared(m.active, m.enabled_planes), ..m }),
        Instr::Ret => if m.sp == 0 {
            Err(Fault::StackUnderflow)
        } else {
            Ok(Machine { sp: (m.sp - 1) as usize, pc: m.stack[m.sp - 1] as usize, ..m })
        },
        Instr::ScrollRight => Ok(Machine { active: scrolled_sideways(m.active, m.enabled_planes, true, 4), ..m }),
        Instr::ScrollLeft => Ok(Machine { active: scrolled_sideways(m.active, m.enabled_planes, false, 4), ..m }),
        Instr::Exit => Ok(m),
        Instr::Low => Ok(Machine {
            high_res: false,
            active: if t == Target::SuperLegacy { m.active } else { cleared(m.active, 3) },
            ..m
        }),
        Instr::High => Ok(Machine {
            high_res: true,
            active: if t == Target::SuperLegacy { m.active } else { cleared(m.active, 3) },
            ..m
        }),
        Instr::LongIndex => if m.pc + 1 >= MEM_SIZE {
            Err(Fault::OutOfBounds { addr: m.pc })
        } else {
            Ok(Machine { i: word_at(m.mem, m.pc as int) as usize, pc: (m.pc + 2) as usize, ..m })
        },
        Instr::LoadPattern => if m.i + 16 > MEM_SIZE {
            Err(Fault::OutOfBounds { addr: m.i })
        } else {
            Ok(Machine { pattern: pattern_at(m.mem, m.i as int, 16), ..m })
        },
        Instr::ScrollDown { n } => {
            let amount = if t == Target::SuperLegacy && !m.high_res { n / 2 } else { n };
            Ok(Machine { active: scrolled_down(m.active, m.enabled_planes, amount as int), ..m })
        },
        Instr::ScrollUp { n } => Ok(Machine { active: scrolled_up(m.active, m.enabled_planes, n as int), ..m }),
        Instr::SkipKey { x } => if m.v[x as int] >= KEY_COUNT {
            Err(Fault::BadKey { key: m.v[x as int] })
        } else {
            Ok(skip_if(m, m.curr_keys[m.v[x as int] as int]))
        },
        Instr::SkipNotKey { x } => if m.v[x as int] >= KEY_COUNT {
            Err(Fault::BadKey { key: m.v[x as int] })
        } else {
            Ok(skip_if(m, !m.curr_keys[m.v[x as int] as int]))
        },
        Instr::SelectPlanes { x } => Ok(Machine { enabled_planes: (x % 4) as u8, ..m }),
        Instr::GetDelay { x } => Ok(set_reg(m, x as int, m.delay)),
        Instr::WaitKey { x } => match first_release(m.prev_keys, m.curr_keys, 0) {
            Some(k) => Ok(Machine { halting: false, v: m.v.update(x as int, k as u8), ..m }),
            None => Ok(Machine { halting: true, ..m }),
        },
        Instr::SetDelay { x } => Ok(Machine { delay: m.v[x as int], ..m }),
        Instr::SetSound { x } => Ok(Machine { sound: m.v[x as int], ..m }),
        Instr::AddIndex { x } => if m.i + m.v[x as int] > usize::MAX {
            Err(Fault::OutOfBounds { addr: m.i })
        } else {
            Ok(Machine { i: (m.i + m.v[x as int]) as usize, ..m })
        },
        Instr::SmallDigit { x } => Ok(Machine { i: ((m.v[x as int] % 16) * 5) as usize, ..m }),
        Instr::BigDigit { x } => Ok(Machine { i: (BIG_FONT_ADDR + (m.v[x as int] % 16) * 10) as usize, ..m }),
        Instr::Bcd { x } => if m.i + 3 > MEM_SIZE {
            Err(Fault::OutOfBounds { addr: m.i })
        } else {
            let d = m.v[x as int];
            Ok(Machine {
                mem: m.mem.update(m.i as int, d / 100).update(m.i + 1, (d / 10) % 10).update(m.i + 2, d % 10),
                ..m
            })
        },
        Instr::SetPitch { x } => Ok(Machine { pitch: m.v[x as int], ..m }),
        Instr::Store { x } => if m.i + x + 1 > MEM_SIZE {
            Err(Fault::OutOfBounds { addr: m.i })
        } else {
            Ok(Machine {
                mem: stored(m.mem, m.i as int, m.v, 0, x as int),
                i: if is_super(t) { m.i } else { (m.i + x + 1) as usize },
                ..m
            })
        },
        Instr::Load { x } => if m.i + x + 1 > MEM_SIZE {
            Err(Fault::OutOfBounds { addr: m.i })
        } else {
            Ok(Machine {
                v: loaded(m.v, m.mem, m.i as int, 0, x as int),
                i: if is_super(t) { m.i } else { (m.i + x + 1) as usize },
                ..m
            })
        },
        Instr::SkipEqReg { x, y } => Ok(skip_if(m, m.v[x as int] == m.v[y as int])),
        Instr::StoreRange { x, y } => if x > y {
            Ok(m)
        } else if m.i + (y - x) + 1 > MEM_SIZE {
            Err(Fault::OutOfBounds { addr: m.i })
        } else {
            Ok(Machine { mem: stored(m.mem, m.i as int, m.v, x as int, y as int), ..m })
        },
        Instr::LoadRange { x, y } => if x > y {
            Ok(m)
        } else if m.i + (y - x) + 1 > MEM_SIZE {
            Err(Fault::OutOfBounds { addr: m.i })
        } else {
            Ok(Machine { v: loaded(m.v, m.mem, m.i as int, x as int, y as int), ..m })
        },
        Instr::Move { .. } | Instr::Or { .. } | Instr::And { .. } | Instr::Xor { .. } | Instr::Add { .. }
        | Instr::Sub { .. } | Instr::Shr { .. } | Instr::SubN { .. } | Instr::Shl { .. } => Ok(
            Machine { v: alu(t, ins, m.v), ..m },
        ),
        Instr::Jump { nnn } => Ok(Machine { pc: nnn, ..m }),
        Instr::Call { nnn } => if m.sp >= STACK_SIZE {
            Err(Fault::StackOverflow)
        } else {
            Ok(Machine {
                stack: m.stack.update(m.sp as int, (m.pc % 0x10000) as u16),
                sp: (m.sp + 1) as usize,
                pc: nnn,
                ..m
            })
        },
        Instr::SkipEqImm { x, kk } => Ok(skip_if(m, m.v[x as int] == kk)),
        Instr::SkipNeImm { x, kk } => Ok(skip_if(m, m.v[x as int] != kk)),
        Instr::SetImm { x, kk } => Ok(set_reg(m, x as int, kk)),
        Instr::AddImm { x, kk } => Ok(set_reg(m, x as int, ((m.v[x as int] + kk) % 256) as u8)),
        Instr::SkipNeReg { x, y } => Ok(skip_if(m, m.v[x as int] != m.v[y as int])),
        Instr::SetIndex { nnn } => Ok(Machine { i: nnn, ..m }),
        Instr::JumpOffset { nnn } => {
            let r = if is_super(t) { nnn / 256 } else { 0 };
            Ok(Machine { pc: (nnn + m.v[r as int]) as usize, ..m })
        },
        Instr::Random { x, kk } => Ok(set_reg(m, x as int, rnd & kk)),
        Instr::Draw { x, y, n } => if may_draw(m) {
            draw_sprite(Machine { halting: false, ..m }, x as int, y as int, n)
        } else {
            Ok(Machine { halting: true, ..m })
        },
    }
}

} // verus!
