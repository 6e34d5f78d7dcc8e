use vstd::prelude::*;
use crate::machine::{Chip8, Machine, MEM_SIZE, HEIGHT, PLANE_COUNT, KEY_COUNT};
use crate::decode::{decode_op, Instr};
use crate::isa::Fault;
use crate::target::SyncModes;
use crate::audio::{audio_tick, pitch_rate, sample_ticks};
use crate::frame::{end_frame, step, stepped, uses_random, current_op, run};
use crate::cpu::read_word;
use crate::laws::{count_down, sets_timer, run_without_timer_writes, run_without_random, lemma_step_frame_boundary, lemma_frame_timers, lemma_run_deterministic};

verus! {

/// Relies on rand::random::<u8>: a byte from the thread-local generator. Nothing is
/// promised of its value.
#[verifier::external_body]
fn random_byte() -> u8 {
    rand::random::<u8>()
}

/// Appending one step to a run.
proof fn lemma_run_push(m: Machine, rs: Seq<u8>, b: u8)
    ensures
        run(m, rs.push(b)) == match run(m, rs) {
            Err(f) => Err(f),
            Ok(m1) => match step(m1, b) {
                Err(f) => Err(f),
                Ok((m2, _)) => Ok::<Machine, Fault>(m2),
            },
        },
    decreases rs.len(),
{
    if rs.len() == 0 {
        assert(rs.push(b).drop_first() =~= Seq::<u8>::empty());
        assert(run(m, Seq::<u8>::empty()) == Ok::<Machine, Fault>(m));
        assert(rs.push(b)[0] == b);
        match step(m, b) {
            Err(f) => {},
            Ok((m1, _)) => {
                assert(run(m1, Seq::<u8>::empty()) == Ok::<Machine, Fault>(m1));
            },
        }
    } else {
        assert(rs.push(b).drop_first() =~= rs.drop_first().push(b));
        assert(rs.push(b)[0] == rs[0]);
        match step(m, rs[0]) {
            Err(f) => {},
            Ok((m1, _)) => {
                lemma_run_push(m1, rs.drop_first(), b);
            },
        }
    }
}

/// The steps `rs` run from `m` until a sample waits, and that sample taken:
/// no step where one already waits, and none after the first that queues one.
pub open spec fn sampled(m: Machine, rs: Seq<u8>, after: Machine, r: Result<u8, Fault>) -> bool {
    &&& (forall|k: int| 0 <= k < rs.len() ==> match #[trigger] run(m, rs.take(k)) {
        Ok(mk) => mk.samples.len() == 0,
        Err(_) => false,
    })
    &&& match r {
        Ok(b) => match run(m, rs) {
            Ok(m1) => m1.samples.len() > 0 && b == m1.samples[0] && after == (Machine {
                samples: m1.samples.drop_first(),
                ..m1
            }),
            Err(_) => false,
        },
        Err(f) => run(m, rs) == Err::<Machine, Fault>(f),
    }
}

/// A run of at most `m.remaining` steps that ends in `r`: a whole frame where `r` is `Ok`.
pub open spec fn framed(m: Machine, rs: Seq<u8>, after: Machine, r: Result<(), Fault>) -> bool {
    rs.len() <= m.remaining && match r {
        Ok(()) => rs.len() == m.remaining && run(m, rs) == Ok::<Machine, Fault>(after),
        Err(f) => run(m, rs) == Err::<Machine, Fault>(f),
    }
}

impl Chip8 {
    /// Advances the audio clock by one instruction's worth of time.
    fn tick_audio(&mut self) -> (crossed: bool)
        requires
            old(self)@.shape(),
            old(self).clock >= 1,
        ensures
            (final(self)@, crossed) == audio_tick(old(self)@),
            final(self)@.shape(),
    {
        let t = self.audio_time.saturating_add(self.sample_rate as u64);
        let period: u64 = 60 * self.clock as u64;
        if t >= period {
            let unit: u64 = 1000 * self.sample_rate as u64;
            let phase = (self.phase + pitch_rate(self.pitch) as u64) % (128 * unit);
            assert(phase / unit < 128) by (nonlinear_arith)
                requires
                    phase < 128 * unit,
                    unit > 0,
            ;
            let bit: u8 = if self.sound == 0 {
                0
            } else {
                let at: u128 = (phase / unit) as u128;
                assert(at < 128);
                ((self.pattern >> at) & 1) as u8
            };
            self.audio_time = t - period;
            self.phase = phase;
            let ghost pre = self@;
            let ghost start = self.samples@;
            let mut k: usize = 0;
            while k < self.channels
                invariant
                    k <= self.channels,
                    self.samples@ == start + Seq::new(k as nat, |j: int| bit),
                    self@ == (Machine { samples: self@.samples, ..pre }),
                decreases self.channels - k,
            {
                self.samples.push_back(bit);
                k = k + 1;
                assert(self.samples@ =~= start + Seq::new(k as nat, |j: int| bit));
            }
            true
        } else {
            self.audio_time = t;
            false
        }
    }

    /// The frame boundary, where the quota is used up.
    fn finish_frame(&mut self)
        requires
            old(self)@.shape(),
            old(self).remaining < old(self).clock,
        ensures
            final(self)@ == end_frame(old(self)@),
    {
        if self.remaining == 0 {
            self.remaining = self.clock;
            if self.delay > 0 {
                self.delay = self.delay - 1;
            }
            if self.sound > 0 {
                self.sound = self.sound - 1;
            }
            if self.sound == 0 {
                self.phase = 0;
            }
            let ghost pre = self@;
            let mut k: usize = 0;
            while k < PLANE_COUNT * HEIGHT
                invariant
                    k <= PLANE_COUNT * HEIGHT,
                    self@ == (Machine { buffer: self@.buffer, ..pre }),
                    self.active@.len() == PLANE_COUNT * HEIGHT,
                    self.buffer@.len() == PLANE_COUNT * HEIGHT,
                    forall|j: int| 0 <= j < k ==> self.buffer@[j] == self.active@[j],
                decreases PLANE_COUNT * HEIGHT - k,
            {
                let row = self.active[k];
                self.buffer.set(k, row);
                k = k + 1;
            }
            assert(self.buffer@ =~= self.active@);
        }
    }

    /// Whether the next step draws on the random source.
    pub fn needs_random(&self) -> (r: bool)
        requires
            self.wf(),
        ensures
            r == uses_random(self@),
    {
        if !self.halting && self.pc + 1 >= MEM_SIZE {
            return false;
        }
        let op = if self.halting { self.prev_op } else { read_word(&self.mem, self.pc) };
        match decode_op(op, self.target) {
            Some(Instr::Random { .. }) => true,
            _ => false,
        }
    }

    /// Executes one instruction, or retries the halted one, with `rnd` as the byte
    /// that a random instruction uses. Tells whether a sample boundary was crossed.
    pub fn step_with(&mut self, rnd: u8) -> (r: Result<bool, Fault>)
        requires
            old(self).wf(),
        ensures
            stepped(old(self)@, rnd, final(self)@, r),
            r is Ok ==> final(self).wf(),
            r is Ok ==> final(self).clock == old(self).clock,
            r is Ok ==> final(self).sample_rate == old(self).sample_rate && final(self).channels == old(self).channels,
            r matches Ok(crossed) ==> (crossed ==> final(self)@.samples.len() == old(self)@.samples.len() + old(self).channels),
            r matches Ok(crossed) ==> (!crossed ==> final(self)@.samples == old(self)@.samples
                && final(self).audio_time == old(self).audio_time + old(self).sample_rate
                && final(self).audio_time < sample_ticks(old(self)@)),
            r is Ok ==> final(self).remaining == if old(self).remaining == 1 {
                old(self).clock
            } else {
                (old(self).remaining - 1) as u32
            },
            r is Ok && !sets_timer(old(self)@) && old(self).remaining == 1 ==> final(self).delay == count_down(old(self).delay)
                && final(self).sound == count_down(old(self).sound) && final(self)@.buffer == final(self)@.active,
            r is Ok && !sets_timer(old(self)@) && old(self).remaining > 1 ==> final(self).delay == old(self).delay
                && final(self).sound == old(self).sound && final(self)@.buffer == old(self)@.buffer,
    {
        proof {
            reveal(step);
        }
        if !self.halting && self.pc + 1 >= MEM_SIZE {
            return Err(Fault::OutOfBounds { addr: self.pc });
        }
        let ghost m = self@;
        let op = if self.halting { self.prev_op } else { read_word(&self.mem, self.pc) };
        assert(op == current_op(m));
        self.remaining = self.remaining - 1;
        if !self.halting {
            self.pc = self.pc + 2;
        }
        match decode_op(op, self.target) {
            None => Err(Fault::UnsupportedOpcode { op, target: self.target }),
            Some(ins) => {
                let res = self.execute(ins, rnd);
                match res {
                    Err(f) => Err(f),
                    Ok(()) => {
                        self.prev_op = op;
                        let crossed = self.tick_audio();
                        self.finish_frame();
                        assert(self.halting ==> (ins is WaitKey || ins is Draw));
                        proof {
                            if !sets_timer(m) {
                                lemma_step_frame_boundary(m, rnd);
                            }
                        }
                        Ok(crossed)
                    },
                }
            },
        }
    }

    /// Executes one instruction, or retries the halted one. Tells whether a sample
    /// boundary was crossed. A random instruction draws its byte from the thread's
    /// generator; every other step is the one that `step_with` takes.
    pub fn run_inst(&mut self) -> (r: Result<bool, Fault>)
        requires
            old(self).wf(),
        ensures
            exists|rnd: u8| stepped(old(self)@, rnd, final(self)@, r),
            !uses_random(old(self)@) ==> stepped(old(self)@, 0, final(self)@, r),
            r is Ok ==> final(self).wf(),
            r is Ok && !sets_timer(old(self)@) && old(self).remaining == 1 ==> final(self).delay == count_down(old(self).delay)
                && final(self).sound == count_down(old(self).sound) && final(self)@.buffer == final(self)@.active,
            r is Ok && !sets_timer(old(self)@) && old(self).remaining > 1 ==> final(self).delay == old(self).delay
                && final(self).sound == old(self).sound && final(self)@.buffer == old(self)@.buffer,
    {
        let rnd = if self.needs_random() { random_byte() } else { 0 };
        self.step_with(rnd)
    }

    /// Runs the rest of the current frame: as many steps as its quota has left,
    /// ending at the frame boundary, where timers count down and the planes are
    /// published.
    pub fn run_frame(&mut self) -> (r: Result<(), Fault>)
        requires
            old(self).wf(),
        ensures
            exists|rs: Seq<u8>| #[trigger] framed(old(self)@, rs, final(self)@, r),
            r is Ok ==> final(self).wf() && final(self).remaining == final(self).clock,
            r is Ok ==> forall|rs: Seq<u8>| #[trigger] framed(old(self)@, rs, final(self)@, r)
                && run_without_timer_writes(old(self)@, rs) ==> final(self).delay == count_down(old(self).delay)
                && final(self).sound == count_down(old(self).sound) && final(self)@.buffer == final(self)@.active,
            r is Ok ==> forall|rs: Seq<u8>| #[trigger] framed(old(self)@, rs, final(self)@, r)
                && run_without_random(old(self)@, rs) ==> run(old(self)@, Seq::new(rs.len(), |i: int| 0u8))
                == Ok::<Machine, Fault>(final(self)@),
    {
        let ghost start = self@;
        let ghost mut rs: Seq<u8> = Seq::empty();
        let n = self.remaining;
        let mut k: u32 = 0;
        while k < n
            invariant
                k <= n,
                n == start.remaining,
                start == old(self)@,
                self.wf(),
                self.clock == start.clock,
                rs.len() == k,
                run(start, rs) == Ok::<Machine, Fault>(self@),
                k < n ==> self.remaining == n - k,
                k == n ==> self.remaining == self.clock,
            decreases n - k,
        {
            let rnd = if self.needs_random() { random_byte() } else { 0 };
            let res = self.step_with(rnd);
            proof {
                lemma_run_push(start, rs, rnd);
                rs = rs.push(rnd);
            }
            match res {
                Err(f) => {
                    assert(framed(start, rs, self@, Err(f)));
                    return Err(f);
                },
                Ok(_) => {},
            }
            k = k + 1;
        }
        assert(framed(start, rs, self@, Ok(())));
        proof {
            assert forall|rs2: Seq<u8>| #[trigger] framed(start, rs2, self@, Ok(()))
                && run_without_timer_writes(start, rs2) implies self.delay == count_down(start.delay)
                && self.sound == count_down(start.sound) && self@.buffer == self@.active by {
                lemma_frame_timers(start, rs2);
            }
            assert forall|rs2: Seq<u8>| #[trigger] framed(start, rs2, self@, Ok(()))
                && run_without_random(start, rs2) implies run(start, Seq::new(rs2.len(), |i: int| 0u8))
                == Ok::<Machine, Fault>(self@) by {
                lemma_run_deterministic(start, rs2, Seq::new(rs2.len(), |i: int| 0u8));
            }
        }
        Ok(())
    }

    /// Key `key` goes down.
    pub fn press_key(&mut self, key: usize)
        requires
            old(self).wf(),
            key < KEY_COUNT,
        ensures
            final(self)@ == (Machine {
                prev_keys: old(self)@.prev_keys.update(key as int, old(self)@.curr_keys[key as int]),
                curr_keys: old(self)@.curr_keys.update(key as int, true),
                ..old(self)@
            }),
            final(self).wf(),
    {
        let was = self.curr_keys[key];
        self.prev_keys.set(key, was);
        self.curr_keys.set(key, true);
    }

    /// Key `key` goes up.
    pub fn release_key(&mut self, key: usize)
        requires
            old(self).wf(),
            key < KEY_COUNT,
        ensures
            final(self)@ == (Machine {
                prev_keys: old(self)@.prev_keys.update(key as int, old(self)@.curr_keys[key as int]),
                curr_keys: old(self)@.curr_keys.update(key as int, false),
                ..old(self)@
            }),
            final(self).wf(),
    {
        let was = self.curr_keys[key];
        self.prev_keys.set(key, was);
        self.curr_keys.set(key, false);
    }

    /// Samples waiting to be taken.
    pub fn get_sample_queue_length(&self) -> (r: usize)
        ensures
            r == self@.samples.len(),
    {
        self.samples.len()
    }

    /// Takes the oldest waiting sample, or gives 0 where none waits.
    pub fn get_sample(&mut self) -> (r: u8)
        ensures
            old(self)@.samples.len() == 0 ==> r == 0 && final(self)@ == old(self)@,
            old(self)@.samples.len() > 0 ==> r == old(self)@.samples[0] && final(self)@ == (Machine {
                samples: old(self)@.samples.drop_first(),
                ..old(self)@
            }),
    {
        match self.samples.pop_front() {
            Some(b) => b,
            None => 0,
        }
    }

    /// Sets the output sample rate; the audio clock and phase start over.
    pub fn set_sample_rate(&mut self, rate: u32)
        requires
            old(self).wf(),
        ensures
            final(self)@ == (Machine { sample_rate: rate, audio_time: 0, phase: 0, ..old(self)@ }),
            final(self).wf(),
    {
        self.sample_rate = rate;
        self.audio_time = 0;
        self.phase = 0;
    }

    /// Sets how many output channels each sample is written to.
    pub fn set_num_output_channels(&mut self, value: usize)
        requires
            old(self).wf(),
        ensures
            final(self)@ == (Machine { channels: value, ..old(self)@ }),
            final(self).wf(),
    {
        self.channels = value;
    }

    /// The next output sample, as a host's audio callback asks for it. Paced by
    /// audio, the machine steps until a sample waits and that sample is taken.
    /// Paced by the display, the queue is emptied and 0 is returned: the display
    /// runs the frames.
    pub fn next_sample(&mut self, mode: SyncModes) -> (r: Result<u8, Fault>)
        requires
            old(self).wf(),
            mode == SyncModes::AudioCallback ==> old(self).sample_rate > 0 && old(self).channels > 0,
        ensures
            mode == SyncModes::VSync ==> r == Ok::<u8, Fault>(0) && final(self)@ == (Machine {
                samples: Seq::empty(),
                ..old(self)@
            }),
            mode == SyncModes::AudioCallback ==> exists|rs: Seq<u8>| #[trigger] sampled(old(self)@, rs, final(self)@, r),
            r is Ok ==> final(self).wf(),
    {
        let ghost start = self@;
        match mode {
            SyncModes::VSync => {
                while self.samples.len() > 0
                    invariant
                        self@ == (Machine { samples: self@.samples, ..start }),
                    decreases self.samples@.len(),
                {
                    self.samples.pop_front();
                }
                assert(self@.samples =~= Seq::<u8>::empty());
                Ok(0)
            },
            SyncModes::AudioCallback => {
                let ghost mut rs: Seq<u8> = Seq::empty();
                assert(rs.take(0) =~= Seq::<u8>::empty());
                if self.samples.len() == 0 {
                    loop
                        invariant_except_break
                            self@.samples.len() == 0,
                        invariant
                            mode == SyncModes::AudioCallback,
                            start == old(self)@,
                            self.wf(),
                            self.sample_rate == start.sample_rate,
                            self.channels == start.channels,
                            self.clock == start.clock,
                            start.sample_rate > 0,
                            start.channels > 0,
                            run(start, rs) == Ok::<Machine, Fault>(self@),
                            forall|k: int| 0 <= k < rs.len() ==> match #[trigger] run(start, rs.take(k)) {
                                Ok(mk) => mk.samples.len() == 0,
                                Err(_) => false,
                            },
                        ensures
                            self@.samples.len() > 0,
                        decreases if self.audio_time >= sample_ticks(self@) { 0 } else { sample_ticks(self@) - self.audio_time },
                    {
                        let rnd = if self.needs_random() { random_byte() } else { 0 };
                        let ghost old_rs = rs;
                        let res = self.step_with(rnd);
                        proof {
                            lemma_run_push(start, rs, rnd);
                            rs = rs.push(rnd);
                            assert forall|k: int| 0 <= k < rs.len() implies match #[trigger] run(start, rs.take(k)) {
                                Ok(mk) => mk.samples.len() == 0,
                                Err(_) => false,
                            } by {
                                if k < old_rs.len() {
                                    assert(rs.take(k) =~= old_rs.take(k));
                                } else {
                                    assert(rs.take(k) =~= old_rs);
                                }
                            }
                        }
                        match res {
                            Err(f) => {
                                assert(sampled(start, rs, self@, Err(f)));
                                return Err(f);
                            },
                            Ok(_) => {},
                        }
                        if self.samples.len() > 0 {
                            break;
                        }
                    }
                }
                let b = self.get_sample();
                assert(sampled(start, rs, self@, Ok(b)));
                Ok(b)
            },
        }
    }
}

/// Runs the rest of the current frame of `chip8`; the same as `Chip8::run_frame`.
pub fn run_frame(chip8: &mut Chip8) -> (r: Result<(), Fault>)
    requires
        old(chip8).wf(),
    ensures
        exists|rs: Seq<u8>| #[trigger] framed(old(chip8)@, rs, final(chip8)@, r),
        r is Ok ==> final(chip8).wf() && final(chip8).remaining == final(chip8).clock,
        r is Ok ==> forall|rs: Seq<u8>| #[trigger] framed(old(chip8)@, rs, final(chip8)@, r)
            && run_without_timer_writes(old(chip8)@, rs) ==> final(chip8).delay == count_down(old(chip8).delay)
            && final(chip8).sound == count_down(old(chip8).sound) && final(chip8)@.buffer == final(chip8)@.active,
        r is Ok ==> forall|rs: Seq<u8>| #[trigger] framed(old(chip8)@, rs, final(chip8)@, r)
            && run_without_random(old(chip8)@, rs) ==> run(old(chip8)@, Seq::new(rs.len(), |i: int| 0u8))
            == Ok::<Machine, Fault>(final(chip8)@),
{
    chip8.run_frame()
}

} // verus!
