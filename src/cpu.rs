use vstd::prelude::*;
use crate::target::Target;
use crate::machine::{Chip8, Machine, MEM_SIZE, HEIGHT, PLANE_COUNT, KEY_COUNT, REG_COUNT, STACK_SIZE};
use crate::decode::{Instr, operands_in_range};
use crate::isa::{Fault, execute, skipped, draw_sprite, alu, first_release, pattern_at, stored, loaded, word_at};
use crate::display::{clear_planes, scroll_sideways, scroll_down, scroll_up};
use crate::sprite::{layout, draw_plane, Sprite};
use crate::font::BIG_FONT_ADDR;

verus! {

/// The big-endian word at `a`.
pub fn read_word(mem: &Vec<u8>, a: usize) -> (r: u16)
    requires
        mem@.len() == MEM_SIZE,
        a + 1 < MEM_SIZE,
    ensures
        r == word_at(mem@, a as int),
{
    ((mem[a] as u16) << 8u16) | (mem[a + 1] as u16)
}

/// Registers after an 8xy_ instruction.
fn alu_exec(t: Target, ins: Instr, v: &mut Vec<u8>)
    requires
        old(v)@.len() == REG_COUNT,
        operands_in_range(ins),
    ensures
        final(v)@ == alu(t, ins, old(v)@),
{
    let super_shift = t == Target::SuperModern || t == Target::SuperLegacy;
    match ins {
        Instr::Move { x, y } => {
            let b = v[y];
            v.set(x, b);
        },
        Instr::Or { x, y } => {
            let b = v[x] | v[y];
            v.set(x, b);
            if t == Target::Chip {
                v.set(15, 0);
            }
        },
        Instr::And { x, y } => {
            let b = v[x] & v[y];
            v.set(x, b);
            if t == Target::Chip {
                v.set(15, 0);
            }
        },
        Instr::Xor { x, y } => {
            let b = v[x] ^ v[y];
            v.set(x, b);
            if t == Target::Chip {
                v.set(15, 0);
            }
        },
        Instr::Add { x, y } => {
            let sum: u16 = v[x] as u16 + v[y] as u16;
            v.set(x, (sum % 256) as u8);
            v.set(15, if sum > 255 { 1 } else { 0 });
        },
        Instr::Sub { x, y } => {
            let a = v[x];
            let b = v[y];
            let d: u8 = if a >= b { a - b } else { (256 - b as u16 + a as u16) as u8 };
            v.set(x, d);
            let flag: u8 = if a >= b { 1 } else { 0 };
            v.set(15, flag);
        },
        Instr::SubN { x, y } => {
            let a = v[x];
            let b = v[y];
            let d: u8 = if b >= a { b - a } else { (256 - a as u16 + b as u16) as u8 };
            v.set(x, d);
            let flag: u8 = if b >= a { 1 } else { 0 };
            v.set(15, flag);
        },
        Instr::Shr { x, y } => {
            let src = if super_shift { v[x] } else { v[y] };
            v.set(x, src / 2);
            v.set(15, src % 2);
        },
        Instr::Shl { x, y } => {
            let src = if super_shift { v[x] } else { v[y] };
            v.set(x, ((src as u16 * 2) % 256) as u8);
            v.set(15, src / 128);
        },
        _ => {},
    }
}

/// The first key released between the last two keypad events.
fn find_release(prev: &Vec<bool>, curr: &Vec<bool>) -> (r: Option<usize>)
    requires
        prev@.len() == KEY_COUNT,
        curr@.len() == KEY_COUNT,
    ensures
        r == first_release(prev@, curr@, 0),
        r matches Some(k) ==> k < KEY_COUNT,
{
    let mut k: usize = 0;
    while k < KEY_COUNT
        invariant
            k <= KEY_COUNT,
            prev@.len() == KEY_COUNT,
            curr@.len() == KEY_COUNT,
            first_release(prev@, curr@, 0) == first_release(prev@, curr@, k as nat),
        decreases KEY_COUNT - k,
    {
        if prev[k] && !curr[k] {
            return Some(k);
        }
        k = k + 1;
    }
    None
}

/// The 128-bit audio pattern in the sixteen bytes at `a`.
fn read_pattern(mem: &Vec<u8>, a: usize) -> (r: u128)
    requires
        mem@.len() == MEM_SIZE,
        a + 16 <= MEM_SIZE,
    ensures
        r == pattern_at(mem@, a as int, 16),
{
    let mut r: u128 = 0;
    let mut k: usize = 0;
    while k < 16
        invariant
            k <= 16,
            mem@.len() == MEM_SIZE,
            a + 16 <= MEM_SIZE,
            r == pattern_at(mem@, a as int, k as nat),
        decreases 16 - k,
    {
        r = (r << 8u128) | (mem[a + k] as u128);
        k = k + 1;
    }
    r
}

/// Writes `vals[lo..=hi]` to memory from address `a`.
fn store_regs(mem: &mut Vec<u8>, a: usize, vals: &Vec<u8>, lo: usize, hi: usize)
    requires
        lo <= hi < REG_COUNT,
        vals@.len() == REG_COUNT,
        old(mem)@.len() == MEM_SIZE,
        a + (hi - lo) + 1 <= MEM_SIZE,
    ensures
        final(mem)@ == stored(old(mem)@, a as int, vals@, lo as int, hi as int),
{
    let ghost start = mem@;
    let mut k: usize = lo;
    while k <= hi
        invariant
            lo <= k <= hi + 1,
            hi < REG_COUNT,
            vals@.len() == REG_COUNT,
            start.len() == MEM_SIZE,
            a + (hi - lo) + 1 <= MEM_SIZE,
            mem@.len() == start.len(),
            mem@ == stored(start, a as int, vals@, lo as int, k - 1),
        decreases hi + 1 - k,
    {
        mem.set(a + (k - lo), vals[k]);
        k = k + 1;
        assert(mem@ =~= stored(start, a as int, vals@, lo as int, k - 1));
    }
}

/// Reads `v[lo..=hi]` from memory at address `a`.
fn load_regs(v: &mut Vec<u8>, mem: &Vec<u8>, a: usize, lo: usize, hi: usize)
    requires
        lo <= hi < REG_COUNT,
        old(v)@.len() == REG_COUNT,
        mem@.len() == MEM_SIZE,
        a + (hi - lo) + 1 <= MEM_SIZE,
    ensures
        final(v)@ == loaded(old(v)@, mem@, a as int, lo as int, hi as int),
{
    let ghost start = v@;
    let mut k: usize = lo;
    while k <= hi
        invariant
            lo <= k <= hi + 1,
            hi < REG_COUNT,
            start.len() == REG_COUNT,
            mem@.len() == MEM_SIZE,
            a + (hi - lo) + 1 <= MEM_SIZE,
            v@.len() == start.len(),
            v@ == loaded(start, mem@, a as int, lo as int, k - 1),
        decreases hi + 1 - k,
    {
        v.set(k, mem[a + (k - lo)]);
        k = k + 1;
        assert(v@ =~= loaded(start, mem@, a as int, lo as int, k - 1));
    }
}

/// A spec-level outcome read against an executable result and final state.
pub open spec fn outcome(expected: Result<Machine, Fault>, after: Machine, r: Result<(), Fault>) -> bool {
    match r {
        Ok(()) => expected == Ok::<Machine, Fault>(after),
        Err(f) => expected == Err::<Machine, Fault>(f),
    }
}

/// Whether sprite data for the `offset`-th enabled plane lies in memory.
fn sprite_fits(s: Sprite, offset: usize) -> (r: bool)
    requires
        s.wf(),
        offset < PLANE_COUNT,
    ensures
        r == s.fits(offset as int),
{
    if s.rows == 0 {
        return true;
    }
    assert(offset * s.height <= 16) by (nonlinear_arith)
        requires
            offset < 2,
            s.height <= 16,
    ;
    assert((s.width / 8) * (offset * s.height + s.rows) <= 64) by (nonlinear_arith)
        requires
            s.width / 8 <= 2,
            offset * s.height + s.rows <= 32,
    ;
    let span = (s.width / 8) * (offset * s.height + s.rows);
    s.addr <= MEM_SIZE && span <= MEM_SIZE - s.addr
}

impl Chip8 {
    /// The program counter past a skipped instruction.
    fn skip_target(&self) -> (r: usize)
        requires
            self@.shape(),
            self.pc <= MEM_SIZE,
        ensures
            r == skipped(self@),
    {
        if self.pc + 1 < MEM_SIZE && read_word(&self.mem, self.pc) == 0xF000 {
            self.pc + 4
        } else {
            self.pc + 2
        }
    }

    /// One plane's pass of a sprite draw.
    fn draw_pass_exec(&mut self, x: usize, y: usize, n: usize, p: usize, offset: usize) -> (r: Result<(), Fault>)
        requires
            old(self)@.shape(),
            x < 16,
            y < 16,
            n < 16,
            p < PLANE_COUNT,
            offset < PLANE_COUNT,
        ensures
            outcome(crate::isa::draw_pass(old(self)@, x as int, y as int, n, p as int, offset as int), final(self)@, r),
            r is Ok ==> final(self)@.shape(),
            r is Ok ==> final(self)@ == (Machine { active: final(self)@.active, v: final(self)@.v, ..old(self)@ }),
    {
        let s = layout(self.target, self.high_res, self.v[x], self.v[y], n, self.i);
        if !sprite_fits(s, offset) {
            return Err(Fault::OutOfBounds { addr: self.i });
        }
        let hit = draw_plane(&mut self.active, &self.mem, s, p, offset);
        self.v.set(15, if hit { 1 } else { 0 });
        Ok(())
    }

    /// `Dxyn` once drawing is allowed.
    fn draw_exec(&mut self, x: usize, y: usize, n: usize) -> (r: Result<(), Fault>)
        requires
            old(self)@.shape(),
            x < 16,
            y < 16,
            n < 16,
        ensures
            outcome(draw_sprite(old(self)@, x as int, y as int, n), final(self)@, r),
            r is Ok ==> final(self)@.shape(),
            r is Ok ==> final(self)@ == (Machine { active: final(self)@.active, v: final(self)@.v, ..old(self)@ }),
    {
        let mask = self.enabled_planes;
        let on0 = mask & 1 != 0;
        let on1 = mask & 2 != 0;
        if on0 {
            let r0 = self.draw_pass_exec(x, y, n, 0, 0);
            if r0.is_err() {
                return r0;
            }
        }
        if on1 {
            return self.draw_pass_exec(x, y, n, 1, if on0 { 1 } else { 0 });
        }
        Ok(())
    }

    /// Executes one of the display instructions.
    fn exec_screen(&mut self, ins: Instr, rnd: u8) -> (r: Result<(), Fault>)
        requires
            old(self)@.shape(),
            old(self).pc <= MEM_SIZE,
            operands_in_range(ins),
            ins is Cls || ins is ScrollRight || ins is ScrollLeft || ins is Exit || ins is Low || ins is High || ins is ScrollDown || ins is ScrollUp || ins is SelectPlanes || ins is Draw,
        ensures
            outcome(execute(old(self)@, ins, rnd), final(self)@, r),
            r is Ok ==> final(self)@.shape(),
            r is Ok ==> final(self).pc <= MEM_SIZE + 4,
            r is Ok ==> (final(self).halting ==> (old(self).halting || ins is WaitKey || ins is Draw)),
            r is Ok ==> (ins is WaitKey || ins is Draw ==> final(self).pc == old(self).pc),
            r is Ok ==> final(self).remaining == old(self).remaining && final(self).clock == old(self).clock,
            r is Ok ==> final(self).target == old(self).target,
            r is Ok ==> final(self).audio_time == old(self).audio_time && final(self).samples@ == old(self).samples@,
            r is Ok ==> final(self).sample_rate == old(self).sample_rate && final(self).channels == old(self).channels,
    {
        proof {
            reveal(execute);
        }
        let t = self.target;
        match ins {
            Instr::Cls => {
                clear_planes(&mut self.active, self.enabled_planes);
            },
            Instr::ScrollRight => {
                scroll_sideways(&mut self.active, self.enabled_planes, true, 4);
            },
            Instr::ScrollLeft => {
                scroll_sideways(&mut self.active, self.enabled_planes, false, 4);
            },
            Instr::Exit => {},
            Instr::Low => {
                self.high_res = false;
                if t != Target::SuperLegacy {
                    clear_planes(&mut self.active, 3);
                }
            },
            Instr::High => {
                self.high_res = true;
                if t != Target::SuperLegacy {
                    clear_planes(&mut self.active, 3);
                }
            },
            Instr::ScrollDown { n } => {
                let amount = if t == Target::SuperLegacy && !self.high_res { n / 2 } else { n };
                scroll_down(&mut self.active, self.enabled_planes, amount);
            },
            Instr::ScrollUp { n } => {
                scroll_up(&mut self.active, self.enabled_planes, n);
            },
            Instr::SelectPlanes { x } => {
                self.enabled_planes = (x % 4) as u8;
            },
            Instr::Draw { x, y, n } => {
                let allowed = self.remaining == 0 || t == Target::SuperModern || (t == Target::SuperLegacy
                    && self.high_res) || t == Target::XO;
                if allowed {
                    self.halting = false;
                    return self.draw_exec(x, y, n);
                } else {
                    self.halting = true;
                }
            },
            _ => {},
        }
        Ok(())
    }

    /// Executes one of the conditional skips.
    fn exec_skip(&mut self, ins: Instr, rnd: u8) -> (r: Result<(), Fault>)
        requires
            old(self)@.shape(),
            old(self).pc <= MEM_SIZE,
            operands_in_range(ins),
            ins is SkipKey || ins is SkipNotKey || ins is SkipEqReg || ins is SkipEqImm || ins is SkipNeImm || ins is SkipNeReg,
        ensures
            outcome(execute(old(self)@, ins, rnd), final(self)@, r),
            r is Ok ==> final(self)@.shape(),
            r is Ok ==> final(self).pc <= MEM_SIZE + 4,
            r is Ok ==> (final(self).halting ==> (old(self).halting || ins is WaitKey || ins is Draw)),
            r is Ok ==> (ins is WaitKey || ins is Draw ==> final(self).pc == old(self).pc),
            r is Ok ==> final(self).remaining == old(self).remaining && final(self).clock == old(self).clock,
            r is Ok ==> final(self).target == old(self).target,
            r is Ok ==> final(self).audio_time == old(self).audio_time && final(self).samples@ == old(self).samples@,
            r is Ok ==> final(self).sample_rate == old(self).sample_rate && final(self).channels == old(self).channels,
    {
        proof {
            reveal(execute);
        }
        let t = self.target;
        match ins {
            Instr::SkipKey { x } => {
                let key = self.v[x];
                if key as usize >= KEY_COUNT {
                    return Err(Fault::BadKey { key });
                }
                if self.curr_keys[key as usize] {
                    self.pc = self.skip_target();
                }
            },
            Instr::SkipNotKey { x } => {
                let key = self.v[x];
                if key as usize >= KEY_COUNT {
                    return Err(Fault::BadKey { key });
                }
                if !self.curr_keys[key as usize] {
                    self.pc = self.skip_target();
                }
            },
            Instr::SkipEqReg { x, y } => {
                if self.v[x] == self.v[y] {
                    self.pc = self.skip_target();
                }
            },
            Instr::SkipEqImm { x, kk } => {
                if self.v[x] == kk {
                    self.pc = self.skip_target();
                }
            },
            Instr::SkipNeImm { x, kk } => {
                if self.v[x] != kk {
                    self.pc = self.skip_target();
                }
            },
            Instr::SkipNeReg { x, y } => {
                if self.v[x] != self.v[y] {
                    self.pc = self.skip_target();
                }
            },
            _ => {},
        }
        Ok(())
    }

    /// Executes one of the jumps, calls, returns and the key wait.
    fn exec_control(&mut self, ins: Instr, rnd: u8) -> (r: Result<(), Fault>)
        requires
            old(self)@.shape(),
            old(self).pc <= MEM_SIZE,
            operands_in_range(ins),
            ins is Ret || ins is Jump || ins is Call || ins is JumpOffset || ins is WaitKey,
        ensures
            outcome(execute(old(self)@, ins, rnd), final(self)@, r),
            r is Ok ==> final(self)@.shape(),
            r is Ok ==> final(self).pc <= MEM_SIZE + 4,
            r is Ok ==> (final(self).halting ==> (old(self).halting || ins is WaitKey || ins is Draw)),
            r is Ok ==> (ins is WaitKey || ins is Draw ==> final(self).pc == old(self).pc),
            r is Ok ==> final(self).remaining == old(self).remaining && final(self).clock == old(self).clock,
            r is Ok ==> final(self).target == old(self).target,
            r is Ok ==> final(self).audio_time == old(self).audio_time && final(self).samples@ == old(self).samples@,
            r is Ok ==> final(self).sample_rate == old(self).sample_rate && final(self).channels == old(self).channels,
    {
        proof {
            reveal(execute);
        }
        let t = self.target;
        match ins {
            Instr::Ret => {
                if self.sp == 0 {
                    return Err(Fault::StackUnderflow);
                }
                self.sp = self.sp - 1;
                self.pc = self.stack[self.sp] as usize;
            },
            Instr::WaitKey { x } => {
                match find_release(&self.prev_keys, &self.curr_keys) {
                    Some(k) => {
                        self.halting = false;
                        self.v.set(x, k as u8);
                    },
                    None => {
                        self.halting = true;
                    },
                }
            },
            Instr::Jump { nnn } => {
                self.pc = nnn;
            },
            Instr::Call { nnn } => {
                if self.sp >= STACK_SIZE {
                    return Err(Fault::StackOverflow);
                }
                self.stack.set(self.sp, (self.pc % 0x10000) as u16);
                self.sp = self.sp + 1;
                self.pc = nnn;
            },
            Instr::JumpOffset { nnn } => {
                let r = if t == Target::SuperModern || t == Target::SuperLegacy { nnn / 256 } else { 0 };
                self.pc = nnn + self.v[r] as usize;
            },
            _ => {},
        }
        Ok(())
    }

    /// Executes one of the instructions that address memory or set I.
    fn exec_memory(&mut self, ins: Instr, rnd: u8) -> (r: Result<(), Fault>)
        requires
            old(self)@.shape(),
            old(self).pc <= MEM_SIZE,
            operands_in_range(ins),
            ins is LongIndex || ins is LoadPattern || ins is AddIndex || ins is SmallDigit || ins is BigDigit || ins is Bcd || ins is Store || ins is Load || ins is StoreRange || ins is LoadRange || ins is SetIndex,
        ensures
            outcome(execute(old(self)@, ins, rnd), final(self)@, r),
            r is Ok ==> final(self)@.shape(),
            r is Ok ==> final(self).pc <= MEM_SIZE + 4,
            r is Ok ==> (final(self).halting ==> (old(self).halting || ins is WaitKey || ins is Draw)),
            r is Ok ==> (ins is WaitKey || ins is Draw ==> final(self).pc == old(self).pc),
            r is Ok ==> final(self).remaining == old(self).remaining && final(self).clock == old(self).clock,
            r is Ok ==> final(self).target == old(self).target,
            r is Ok ==> final(self).audio_time == old(self).audio_time && final(self).samples@ == old(self).samples@,
            r is Ok ==> final(self).sample_rate == old(self).sample_rate && final(self).channels == old(self).channels,
    {
        proof {
            reveal(execute);
        }
        let t = self.target;
        match ins {
            Instr::LongIndex => {
                if self.pc + 1 >= MEM_SIZE {
                    return Err(Fault::OutOfBounds { addr: self.pc });
                }
                self.i = read_word(&self.mem, self.pc) as usize;
                self.pc = self.pc + 2;
            },
            Instr::LoadPattern => {
                if self.i > MEM_SIZE - 16 {
                    return Err(Fault::OutOfBounds { addr: self.i });
                }
                self.pattern = read_pattern(&self.mem, self.i);
            },
            Instr::AddIndex { x } => {
                let add = self.v[x] as usize;
                if self.i > usize::MAX - add {
                    return Err(Fault::OutOfBounds { addr: self.i });
                }
                self.i = self.i + add;
            },
            Instr::SmallDigit { x } => {
                self.i = ((self.v[x] % 16) as usize) * 5;
            },
            Instr::BigDigit { x } => {
                self.i = BIG_FONT_ADDR + ((self.v[x] % 16) as usize) * 10;
            },
            Instr::Bcd { x } => {
                if self.i > MEM_SIZE - 3 {
                    return Err(Fault::OutOfBounds { addr: self.i });
                }
                let d = self.v[x];
                self.mem.set(self.i, d / 100);
                self.mem.set(self.i + 1, (d / 10) % 10);
                self.mem.set(self.i + 2, d % 10);
            },
            Instr::Store { x } => {
                if self.i > MEM_SIZE - 1 - x {
                    return Err(Fault::OutOfBounds { addr: self.i });
                }
                store_regs(&mut self.mem, self.i, &self.v, 0, x);
                if !(t == Target::SuperModern || t == Target::SuperLegacy) {
                    self.i = self.i + x + 1;
                }
            },
            Instr::Load { x } => {
                if self.i > MEM_SIZE - 1 - x {
                    return Err(Fault::OutOfBounds { addr: self.i });
                }
                load_regs(&mut self.v, &self.mem, self.i, 0, x);
                if !(t == Target::SuperModern || t == Target::SuperLegacy) {
                    self.i = self.i + x + 1;
                }
            },
            Instr::StoreRange { x, y } => {
                if x <= y {
                    if self.i > MEM_SIZE - 1 - (y - x) {
                        return Err(Fault::OutOfBounds { addr: self.i });
                    }
                    store_regs(&mut self.mem, self.i, &self.v, x, y);
                }
            },
            Instr::LoadRange { x, y } => {
                if x <= y {
                    if self.i > MEM_SIZE - 1 - (y - x) {
                        return Err(Fault::OutOfBounds { addr: self.i });
                    }
                    load_regs(&mut self.v, &self.mem, self.i, x, y);
                }
            },
            Instr::SetIndex { nnn } => {
                self.i = nnn;
            },
            _ => {},
        }
        Ok(())
    }

    /// Executes one of the register and timer instructions.
    fn exec_registers(&mut self, ins: Instr, rnd: u8) -> (r: Result<(), Fault>)
        requires
            old(self)@.shape(),
            old(self).pc <= MEM_SIZE,
            operands_in_range(ins),
            ins is GetDelay || ins is SetDelay || ins is SetSound || ins is SetPitch || ins is Move || ins is Or || ins is And || ins is Xor || ins is Add || ins is Sub || ins is Shr || ins is SubN || ins is Shl || ins is SetImm || ins is AddImm || ins is Random,
        ensures
            outcome(execute(old(self)@, ins, rnd), final(self)@, r),
            r is Ok ==> final(self)@.shape(),
            r is Ok ==> final(self).pc <= MEM_SIZE + 4,
            r is Ok ==> (final(self).halting ==> (old(self).halting || ins is WaitKey || ins is Draw)),
            r is Ok ==> (ins is WaitKey || ins is Draw ==> final(self).pc == old(self).pc),
            r is Ok ==> final(self).remaining == old(self).remaining && final(self).clock == old(self).clock,
            r is Ok ==> final(self).target == old(self).target,
            r is Ok ==> final(self).audio_time == old(self).audio_time && final(self).samples@ == old(self).samples@,
            r is Ok ==> final(self).sample_rate == old(self).sample_rate && final(self).channels == old(self).channels,
    {
        proof {
            reveal(execute);
        }
        let t = self.target;
        match ins {
            Instr::GetDelay { x } => {
                self.v.set(x, self.delay);
            },
            Instr::SetDelay { x } => {
                self.delay = self.v[x];
            },
            Instr::SetSound { x } => {
                self.sound = self.v[x];
            },
            Instr::SetPitch { x } => {
                self.pitch = self.v[x];
            },
            Instr::Move { .. } | Instr::Or { .. } | Instr::And { .. } | Instr::Xor { .. } | Instr::Add { .. }
            | Instr::Sub { .. } | Instr::Shr { .. } | Instr::SubN { .. } | Instr::Shl { .. } => {
                alu_exec(t, ins, &mut self.v);
            },
            Instr::SetImm { x, kk } => {
                self.v.set(x, kk);
            },
            Instr::AddImm { x, kk } => {
                let sum: u16 = self.v[x] as u16 + kk as u16;
                self.v.set(x, (sum % 256) as u8);
            },
            Instr::Random { x, kk } => {
                self.v.set(x, rnd & kk);
            },
            _ => {},
        }
        Ok(())
    }

    /// Executes `ins`; the program counter already points past it.
    pub fn execute(&mut self, ins: Instr, rnd: u8) -> (r: Result<(), Fault>)
        requires
            old(self)@.shape(),
            old(self).pc <= MEM_SIZE,
            operands_in_range(ins),
        ensures
            outcome(execute(old(self)@, ins, rnd), final(self)@, r),
            r is Ok ==> final(self)@.shape(),
            r is Ok ==> final(self).pc <= MEM_SIZE + 4,
            r is Ok ==> (final(self).halting ==> (old(self).halting || ins is WaitKey || ins is Draw)),
            r is Ok ==> (ins is WaitKey || ins is Draw ==> final(self).pc == old(self).pc),
            r is Ok ==> final(self).remaining == old(self).remaining && final(self).clock == old(self).clock,
            r is Ok ==> final(self).target == old(self).target,
            r is Ok ==> final(self).audio_time == old(self).audio_time && final(self).samples@ == old(self).samples@,
            r is Ok ==> final(self).sample_rate == old(self).sample_rate && final(self).channels == old(self).channels,
    {
        match ins {
            Instr::Cls { .. } | Instr::ScrollRight { .. } | Instr::ScrollLeft { .. } | Instr::Exit { .. } | Instr::Low { .. } | Instr::High { .. } | Instr::ScrollDown { .. } | Instr::ScrollUp { .. } | Instr::SelectPlanes { .. } | Instr::Draw { .. } => self.exec_screen(ins, rnd),
            Instr::SkipKey { .. } | Instr::SkipNotKey { .. } | Instr::SkipEqReg { .. } | Instr::SkipEqImm { .. } | Instr::SkipNeImm { .. } | Instr::SkipNeReg { .. } => self.exec_skip(ins, rnd),
            Instr::Ret { .. } | Instr::Jump { .. } | Instr::Call { .. } | Instr::JumpOffset { .. } | Instr::WaitKey { .. } => self.exec_control(ins, rnd),
            Instr::LongIndex { .. } | Instr::LoadPattern { .. } | Instr::AddIndex { .. } | Instr::SmallDigit { .. } | Instr::BigDigit { .. } | Instr::Bcd { .. } | Instr::Store { .. } | Instr::Load { .. } | Instr::StoreRange { .. } | Instr::LoadRange { .. } | Instr::SetIndex { .. } => self.exec_memory(ins, rnd),
            Instr::GetDelay { .. } | Instr::SetDelay { .. } | Instr::SetSound { .. } | Instr::SetPitch { .. } | Instr::Move { .. } | Instr::Or { .. } | Instr::And { .. } | Instr::Xor { .. } | Instr::Add { .. } | Instr::Sub { .. } | Instr::Shr { .. } | Instr::SubN { .. } | Instr::Shl { .. } | Instr::SetImm { .. } | Instr::AddImm { .. } | Instr::Random { .. } => self.exec_registers(ins, rnd),
        }
    }
}

} // verus!
