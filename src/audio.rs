use vstd::prelude::*;
use crate::machine::Machine;

verus! {

/// 1000 * 2^(r/48) Hz in millihertz, rounded, for r in 0..48.
pub open spec fn octave_steps() -> Seq<u32> {
    seq![
        1000000, 1014545, 1029302, 1044274, 1059463, 1074873, 1090508, 1106370,
        1122462, 1138789, 1155353, 1172158, 1189207, 1206505, 1224054, 1241858,
        1259921, 1278247, 1296840, 1315703, 1334840, 1354256, 1373954, 1393938,
        1414214, 1434784, 1455653, 1476826, 1498307, 1520100, 1542211, 1564643,
        1587401, 1610490, 1633915, 1657681, 1681793, 1706255, 1731073, 1756252,
        1781797, 1807714, 1834008, 1860684, 1887749, 1915207, 1943064, 1971326,
    ]
}

/// The pattern playback rate for pitch `p`, in millihertz: 4000 * 2^((p - 64) / 48) Hz,
/// to the nearest step of the table.
pub open spec fn pitch_millihertz(p: u8) -> int {
    let d = p + 32;
    octave_steps()[d % 48] * pow2((d / 48) as nat)
}

pub open spec fn pow2(e: nat) -> int
    decreases e,
{
    if e == 0 { 1 } else { 2 * pow2((e - 1) as nat) }
}

/// Emulated time that one instruction takes, in units of the audio accumulator.
pub open spec fn instruction_ticks(m: Machine) -> int {
    m.sample_rate as int
}

/// Emulated time between two output samples, in units of the audio accumulator.
pub open spec fn sample_ticks(m: Machine) -> int {
    60 * m.clock
}

/// Phase units per pattern bit.
pub open spec fn phase_unit(m: Machine) -> int {
    1000 * m.sample_rate
}

/// What one instruction's worth of time does to the audio state, and whether a
/// sample boundary was crossed. At a boundary the phase moves on by one sample
/// period times the playback rate, modulo the 128 bits of the pattern, and each
/// output channel gets the pattern bit at the new phase, or 0 while the sound
/// timer is 0.
pub open spec fn audio_tick(m: Machine) -> (Machine, bool) {
    let t = m.audio_time + instruction_ticks(m);
    let t = if t > u64::MAX { u64::MAX as int } else { t };
    if t >= sample_ticks(m) {
        let phase = (m.phase + pitch_millihertz(m.pitch)) % (128 * phase_unit(m));
        let bit: u8 = if m.sound == 0 { 0 } else { ((m.pattern >> ((phase / phase_unit(m)) as u128)) & 1) as u8 };
        (Machine {
            audio_time: (t - sample_ticks(m)) as u64,
            phase: phase as u64,
            samples: m.samples + Seq::new(m.channels as nat, |k: int| bit),
            ..m
        }, true)
    } else {
        (Machine { audio_time: t as u64, ..m }, false)
    }
}

/// Playback rate for pitch `p` in millihertz.
pub fn pitch_rate(p: u8) -> (r: u32)
    ensures
        r == pitch_millihertz(p),
{
    let table: Vec<u32> = vec![
        1000000, 1014545, 1029302, 1044274, 1059463, 1074873, 1090508, 1106370,
        1122462, 1138789, 1155353, 1172158, 1189207, 1206505, 1224054, 1241858,
        1259921, 1278247, 1296840, 1315703, 1334840, 1354256, 1373954, 1393938,
        1414214, 1434784, 1455653, 1476826, 1498307, 1520100, 1542211, 1564643,
        1587401, 1610490, 1633915, 1657681, 1681793, 1706255, 1731073, 1756252,
        1781797, 1807714, 1834008, 1860684, 1887749, 1915207, 1943064, 1971326,
    ];
    assert(table@ =~= octave_steps());
    let d: u32 = p as u32 + 32;
    let base = table[(d % 48) as usize];
    let e = d / 48;
    assert(e <= 5);
    assert(base < 2000000);
    assert(pow2(0) == 1 && pow2(1) == 2 && pow2(2) == 4 && pow2(3) == 8 && pow2(4) == 16 && pow2(5) == 32) by {
        reveal_with_fuel(pow2, 6);
    }
    let scale: u32 = if e == 0 { 1 } else if e == 1 { 2 } else if e == 2 { 4 } else if e == 3 { 8 } else if e == 4 { 16 } else { 32 };
    base * scale
}

} // verus!
