use vstd::prelude::*;
use crate::machine::{Machine, MEM_SIZE};
use crate::decode::{decode, Instr};
use crate::isa::{Fault, execute, word_at};
use crate::audio::audio_tick;

verus! {

/// What the frame boundary does once the frame's quota of instructions has run:
/// each timer counts down by one unless it is 0, the audio phase restarts while
/// the sound timer is 0, the planes are published, and a new quota begins.
pub open spec fn end_frame(m: Machine) -> Machine {
    if m.remaining == 0 {
        let sound: u8 = if m.sound > 0 { (m.sound - 1) as u8 } else { 0 };
        Machine {
            remaining: m.clock,
            delay: if m.delay > 0 { (m.delay - 1) as u8 } else { 0 },
            sound,
            phase: if sound == 0 { 0 } else { m.phase },
            buffer: m.active,
            ..m
        }
    } else {
        m
    }
}

/// Whether fetching the next instruction would read past the end of memory.
/// While halted the saved word is replayed and memory is not read.
pub open spec fn fetch_fault(m: Machine) -> bool {
    !m.halting && m.pc + 1 >= MEM_SIZE
}

/// The word that the next step executes.
pub open spec fn current_op(m: Machine) -> u16 {
    if m.halting {
        m.prev_op
    } else {
        word_at(m.mem, m.pc as int)
    }
}

/// One step: fetch (or replay while halted), decode, execute, advance the audio
/// clock, and close the frame when its quota is used up. The boolean tells
/// whether a sample boundary was crossed. `rnd` is the byte that a random
/// instruction uses.
#[verifier::opaque]
pub open spec fn step(m: Machine, rnd: u8) -> Result<(Machine, bool), Fault> {
    if fetch_fault(m) {
        Err(Fault::OutOfBounds { addr: m.pc })
    } else {
        let op = current_op(m);
        let m1 = Machine {
            remaining: (m.remaining - 1) as u32,
            pc: if m.halting { m.pc } else { (m.pc + 2) as usize },
            ..m
        };
        match decode(op, m.target) {
            None => Err(Fault::UnsupportedOpcode { op, target: m.target }),
            Some(ins) => match execute(m1, ins, rnd) {
                Err(f) => Err(f),
                Ok(m2) => {
                    let (m3, crossed) = audio_tick(Machine { prev_op: op, ..m2 });
                    Ok((end_frame(m3), crossed))
                },
            },
        }
    }
}

/// Whether the next step draws on the random source.
pub open spec fn uses_random(m: Machine) -> bool {
    !fetch_fault(m) && decode(current_op(m), m.target) matches Some(Instr::Random { .. })
}

/// `step` with its outcome read against a result and a final state.
pub open spec fn stepped(m: Machine, rnd: u8, after: Machine, r: Result<bool, Fault>) -> bool {
    match r {
        Ok(crossed) => step(m, rnd) == Ok::<(Machine, bool), Fault>((after, crossed)),
        Err(f) => step(m, rnd) == Err::<(Machine, bool), Fault>(f),
    }
}

/// Steps in a row, the `k`-th using random byte `rs[k]`.
pub open spec fn run(m: Machine, rs: Seq<u8>) -> Result<Machine, Fault>
    decreases rs.len(),
{
    if rs.len() == 0 {
        Ok(m)
    } else {
        match step(m, rs[0]) {
            Err(f) => Err(f),
            Ok((m1, _)) => run(m1, rs.drop_first()),
        }
    }
}

} // verus!
