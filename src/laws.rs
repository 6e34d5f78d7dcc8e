use vstd::prelude::*;
use crate::target::Target;
use crate::machine::{Machine, MEM_SIZE};
use crate::decode::{decode, Instr};
use crate::isa::{Fault, word_at};
use crate::frame::{step, run, fetch_fault, current_op, uses_random, end_frame};
use crate::isa::{execute, draw_sprite, draw_pass, first_release, may_draw};
use crate::display::plane_on;
use crate::sprite::{sprite_layout, draw_rows, left_half_only, lemma_draw_rows_at, lemma_row_drawn_twice, touched, sprite_bits, sprite_row_at};
use crate::machine::{HEIGHT, PLANE_COUNT};

verus! {

/// Encodings that only XO-CHIP defines: F000 nnnn, F002, 00Dn, Fx01, Fx3A, 5xy2, 5xy3.
pub open spec fn extended_only(op: u16) -> bool {
    ||| op == 0xF000u16
    ||| op == 0xF002u16
    ||| op & 0xFFF0u16 == 0x00D0u16
    ||| op & 0xF0FFu16 == 0xF001u16
    ||| op & 0xF0FFu16 == 0xF03Au16
    ||| op & 0xF00Fu16 == 0x5002u16
    ||| op & 0xF00Fu16 == 0x5003u16
}

/// Encodings that some later variant defines and the original CHIP-8 does not:
/// the XO-CHIP ones and 00FB to 00FF, 00Cn and Fx30.
pub open spec fn beyond_original(op: u16) -> bool {
    ||| extended_only(op)
    ||| op == 0x00FBu16
    ||| op == 0x00FCu16
    ||| op == 0x00FDu16
    ||| op == 0x00FEu16
    ||| op == 0x00FFu16
    ||| op & 0xFFF0u16 == 0x00C0u16
    ||| op & 0xF0FFu16 == 0xF030u16
}

/// The original CHIP-8 decodes none of the later encodings.
proof fn lemma_beyond_original_undefined(op: u16)
    requires
        beyond_original(op),
    ensures
        decode(op, Target::Chip) is None,
        extended_only(op) ==> decode(op, Target::XO) is Some,
{
    reveal(decode);
        if op == 0x00FBu16 {
            assert(op == 0x00FBu16 ==> (op != 0x00E0u16) && (op != 0x00EEu16) && (op == 0x00FBu16) && (op != 0x00FCu16) && (op != 0x00FDu16) && (op != 0x00FEu16) && (op != 0x00FFu16) && (op != 0xF000u16) && (op != 0xF002u16) && (op & 0xFFF0u16 != 0x00C0u16) && (op & 0xFFF0u16 != 0x00D0u16) && (op & 0xF0FFu16 != 0xE09Eu16) && (op & 0xF0FFu16 != 0xE0A1u16) && (op & 0xF0FFu16 != 0xF001u16) && (op & 0xF0FFu16 != 0xF007u16) && (op & 0xF0FFu16 != 0xF00Au16) && (op & 0xF0FFu16 != 0xF015u16) && (op & 0xF0FFu16 != 0xF018u16) && (op & 0xF0FFu16 != 0xF01Eu16) && (op & 0xF0FFu16 != 0xF029u16) && (op & 0xF0FFu16 != 0xF030u16) && (op & 0xF0FFu16 != 0xF033u16) && (op & 0xF0FFu16 != 0xF03Au16) && (op & 0xF0FFu16 != 0xF055u16) && (op & 0xF0FFu16 != 0xF065u16) && (op & 0xF00Fu16 != 0x5000u16) && (op & 0xF00Fu16 != 0x5002u16) && (op & 0xF00Fu16 != 0x5003u16) && (op & 0xF00Fu16 != 0x8000u16) && (op & 0xF00Fu16 != 0x8001u16) && (op & 0xF00Fu16 != 0x8002u16) && (op & 0xF00Fu16 != 0x8003u16) && (op & 0xF00Fu16 != 0x8004u16) && (op & 0xF00Fu16 != 0x8005u16) && (op & 0xF00Fu16 != 0x8006u16) && (op & 0xF00Fu16 != 0x8007u16) && (op & 0xF00Fu16 != 0x800Eu16) && (op & 0xF000u16 != 0x1000u16) && (op & 0xF000u16 != 0x2000u16) && (op & 0xF000u16 != 0x3000u16) && (op & 0xF000u16 != 0x4000u16) && (op & 0xF000u16 != 0x6000u16) && (op & 0xF000u16 != 0x7000u16) && (op & 0xF000u16 != 0x9000u16) && (op & 0xF000u16 != 0xA000u16) && (op & 0xF000u16 != 0xB000u16) && (op & 0xF000u16 != 0xC000u16) && (op & 0xF000u16 != 0xD000u16)) by (bit_vector);
        }
        if op == 0x00FCu16 {
            assert(op == 0x00FCu16 ==> (op != 0x00E0u16) && (op != 0x00EEu16) && (op != 0x00FBu16) && (op == 0x00FCu16) && (op != 0x00FDu16) && (op != 0x00FEu16) && (op != 0x00FFu16) && (op != 0xF000u16) && (op != 0xF002u16) && (op & 0xFFF0u16 != 0x00C0u16) && (op & 0xFFF0u16 != 0x00D0u16) && (op & 0xF0FFu16 != 0xE09Eu16) && (op & 0xF0FFu16 != 0xE0A1u16) && (op & 0xF0FFu16 != 0xF001u16) && (op & 0xF0FFu16 != 0xF007u16) && (op & 0xF0FFu16 != 0xF00Au16) && (op & 0xF0FFu16 != 0xF015u16) && (op & 0xF0FFu16 != 0xF018u16) && (op & 0xF0FFu16 != 0xF01Eu16) && (op & 0xF0FFu16 != 0xF029u16) && (op & 0xF0FFu16 != 0xF030u16) && (op & 0xF0FFu16 != 0xF033u16) && (op & 0xF0FFu16 != 0xF03Au16) && (op & 0xF0FFu16 != 0xF055u16) && (op & 0xF0FFu16 != 0xF065u16) && (op & 0xF00Fu16 != 0x5000u16) && (op & 0xF00Fu16 != 0x5002u16) && (op & 0xF00Fu16 != 0x5003u16) && (op & 0xF00Fu16 != 0x8000u16) && (op & 0xF00Fu16 != 0x8001u16) && (op & 0xF00Fu16 != 0x8002u16) && (op & 0xF00Fu16 != 0x8003u16) && (op & 0xF00Fu16 != 0x8004u16) && (op & 0xF00Fu16 != 0x8005u16) && (op & 0xF00Fu16 != 0x8006u16) && (op & 0xF00Fu16 != 0x8007u16) && (op & 0xF00Fu16 != 0x800Eu16) && (op & 0xF000u16 != 0x1000u16) && (op & 0xF000u16 != 0x2000u16) && (op & 0xF000u16 != 0x3000u16) && (op & 0xF000u16 != 0x4000u16) && (op & 0xF000u16 != 0x6000u16) && (op & 0xF000u16 != 0x7000u16) && (op & 0xF000u16 != 0x9000u16) && (op & 0xF000u16 != 0xA000u16) && (op & 0xF000u16 != 0xB000u16) && (op & 0xF000u16 != 0xC000u16) && (op & 0xF000u16 != 0xD000u16)) by (bit_vector);
        }
        if op == 0x00FDu16 {
            assert(op == 0x00FDu16 ==> (op != 0x00E0u16) && (op != 0x00EEu16) && (op != 0x00FBu16) && (op != 0x00FCu16) && (op == 0x00FDu16) && (op != 0x00FEu16) && (op != 0x00FFu16) && (op != 0xF000u16) && (op != 0xF002u16) && (op & 0xFFF0u16 != 0x00C0u16) && (op & 0xFFF0u16 != 0x00D0u16) && (op & 0xF0FFu16 != 0xE09Eu16) && (op & 0xF0FFu16 != 0xE0A1u16) && (op & 0xF0FFu16 != 0xF001u16) && (op & 0xF0FFu16 != 0xF007u16) && (op & 0xF0FFu16 != 0xF00Au16) && (op & 0xF0FFu16 != 0xF015u16) && (op & 0xF0FFu16 != 0xF018u16) && (op & 0xF0FFu16 != 0xF01Eu16) && (op & 0xF0FFu16 != 0xF029u16) && (op & 0xF0FFu16 != 0xF030u16) && (op & 0xF0FFu16 != 0xF033u16) && (op & 0xF0FFu16 != 0xF03Au16) && (op & 0xF0FFu16 != 0xF055u16) && (op & 0xF0FFu16 != 0xF065u16) && (op & 0xF00Fu16 != 0x5000u16) && (op & 0xF00Fu16 != 0x5002u16) && (op & 0xF00Fu16 != 0x5003u16) && (op & 0xF00Fu16 != 0x8000u16) && (op & 0xF00Fu16 != 0x8001u16) && (op & 0xF00Fu16 != 0x8002u16) && (op & 0xF00Fu16 != 0x8003u16) && (op & 0xF00Fu16 != 0x8004u16) && (op & 0xF00Fu16 != 0x8005u16) && (op & 0xF00Fu16 != 0x8006u16) && (op & 0xF00Fu16 != 0x8007u16) && (op & 0xF00Fu16 != 0x800Eu16) && (op & 0xF000u16 != 0x1000u16) && (op & 0xF000u16 != 0x2000u16) && (op & 0xF000u16 != 0x3000u16) && (op & 0xF000u16 != 0x4000u16) && (op & 0xF000u16 != 0x6000u16) && (op & 0xF000u16 != 0x7000u16) && (op & 0xF000u16 != 0x9000u16) && (op & 0xF000u16 != 0xA000u16) && (op & 0xF000u16 != 0xB000u16) && (op & 0xF000u16 != 0xC000u16) && (op & 0xF000u16 != 0xD000u16)) by (bit_vector);
        }
        if op == 0x00FEu16 {
            assert(op == 0x00FEu16 ==> (op != 0x00E0u16) && (op != 0x00EEu16) && (op != 0x00FBu16) && (op != 0x00FCu16) && (op != 0x00FDu16) && (op == 0x00FEu16) && (op != 0x00FFu16) && (op != 0xF000u16) && (op != 0xF002u16) && (op & 0xFFF0u16 != 0x00C0u16) && (op & 0xFFF0u16 != 0x00D0u16) && (op & 0xF0FFu16 != 0xE09Eu16) && (op & 0xF0FFu16 != 0xE0A1u16) && (op & 0xF0FFu16 != 0xF001u16) && (op & 0xF0FFu16 != 0xF007u16) && (op & 0xF0FFu16 != 0xF00Au16) && (op & 0xF0FFu16 != 0xF015u16) && (op & 0xF0FFu16 != 0xF018u16) && (op & 0xF0FFu16 != 0xF01Eu16) && (op & 0xF0FFu16 != 0xF029u16) && (op & 0xF0FFu16 != 0xF030u16) && (op & 0xF0FFu16 != 0xF033u16) && (op & 0xF0FFu16 != 0xF03Au16) && (op & 0xF0FFu16 != 0xF055u16) && (op & 0xF0FFu16 != 0xF065u16) && (op & 0xF00Fu16 != 0x5000u16) && (op & 0xF00Fu16 != 0x5002u16) && (op & 0xF00Fu16 != 0x5003u16) && (op & 0xF00Fu16 != 0x8000u16) && (op & 0xF00Fu16 != 0x8001u16) && (op & 0xF00Fu16 != 0x8002u16) && (op & 0xF00Fu16 != 0x8003u16) && (op & 0xF00Fu16 != 0x8004u16) && (op & 0xF00Fu16 != 0x8005u16) && (op & 0xF00Fu16 != 0x8006u16) && (op & 0xF00Fu16 != 0x8007u16) && (op & 0xF00Fu16 != 0x800Eu16) && (op & 0xF000u16 != 0x1000u16) && (op & 0xF000u16 != 0x2000u16) && (op & 0xF000u16 != 0x3000u16) && (op & 0xF000u16 != 0x4000u16) && (op & 0xF000u16 != 0x6000u16) && (op & 0xF000u16 != 0x7000u16) && (op & 0xF000u16 != 0x9000u16) && (op & 0xF000u16 != 0xA000u16) && (op & 0xF000u16 != 0xB000u16) && (op & 0xF000u16 != 0xC000u16) && (op & 0xF000u16 != 0xD000u16)) by (bit_vector);
        }
        if op == 0x00FFu16 {
            assert(op == 0x00FFu16 ==> (op != 0x00E0u16) && (op != 0x00EEu16) && (op != 0x00FBu16) && (op != 0x00FCu16) && (op != 0x00FDu16) && (op != 0x00FEu16) && (op == 0x00FFu16) && (op != 0xF000u16) && (op != 0xF002u16) && (op & 0xFFF0u16 != 0x00C0u16) && (op & 0xFFF0u16 != 0x00D0u16) && (op & 0xF0FFu16 != 0xE09Eu16) && (op & 0xF0FFu16 != 0xE0A1u16) && (op & 0xF0FFu16 != 0xF001u16) && (op & 0xF0FFu16 != 0xF007u16) && (op & 0xF0FFu16 != 0xF00Au16) && (op & 0xF0FFu16 != 0xF015u16) && (op & 0xF0FFu16 != 0xF018u16) && (op & 0xF0FFu16 != 0xF01Eu16) && (op & 0xF0FFu16 != 0xF029u16) && (op & 0xF0FFu16 != 0xF030u16) && (op & 0xF0FFu16 != 0xF033u16) && (op & 0xF0FFu16 != 0xF03Au16) && (op & 0xF0FFu16 != 0xF055u16) && (op & 0xF0FFu16 != 0xF065u16) && (op & 0xF00Fu16 != 0x5000u16) && (op & 0xF00Fu16 != 0x5002u16) && (op & 0xF00Fu16 != 0x5003u16) && (op & 0xF00Fu16 != 0x8000u16) && (op & 0xF00Fu16 != 0x8001u16) && (op & 0xF00Fu16 != 0x8002u16) && (op & 0xF00Fu16 != 0x8003u16) && (op & 0xF00Fu16 != 0x8004u16) && (op & 0xF00Fu16 != 0x8005u16) && (op & 0xF00Fu16 != 0x8006u16) && (op & 0xF00Fu16 != 0x8007u16) && (op & 0xF00Fu16 != 0x800Eu16) && (op & 0xF000u16 != 0x1000u16) && (op & 0xF000u16 != 0x2000u16) && (op & 0xF000u16 != 0x3000u16) && (op & 0xF000u16 != 0x4000u16) && (op & 0xF000u16 != 0x6000u16) && (op & 0xF000u16 != 0x7000u16) && (op & 0xF000u16 != 0x9000u16) && (op & 0xF000u16 != 0xA000u16) && (op & 0xF000u16 != 0xB000u16) && (op & 0xF000u16 != 0xC000u16) && (op & 0xF000u16 != 0xD000u16)) by (bit_vector);
        }
        if op == 0xF000u16 {
            assert(op == 0xF000u16 ==> (op != 0x00E0u16) && (op != 0x00EEu16) && (op != 0x00FBu16) && (op != 0x00FCu16) && (op != 0x00FDu16) && (op != 0x00FEu16) && (op != 0x00FFu16) && (op == 0xF000u16) && (op != 0xF002u16) && (op & 0xFFF0u16 != 0x00C0u16) && (op & 0xFFF0u16 != 0x00D0u16) && (op & 0xF0FFu16 != 0xE09Eu16) && (op & 0xF0FFu16 != 0xE0A1u16) && (op & 0xF0FFu16 != 0xF001u16) && (op & 0xF0FFu16 != 0xF007u16) && (op & 0xF0FFu16 != 0xF00Au16) && (op & 0xF0FFu16 != 0xF015u16) && (op & 0xF0FFu16 != 0xF018u16) && (op & 0xF0FFu16 != 0xF01Eu16) && (op & 0xF0FFu16 != 0xF029u16) && (op & 0xF0FFu16 != 0xF030u16) && (op & 0xF0FFu16 != 0xF033u16) && (op & 0xF0FFu16 != 0xF03Au16) && (op & 0xF0FFu16 != 0xF055u16) && (op & 0xF0FFu16 != 0xF065u16) && (op & 0xF00Fu16 != 0x5000u16) && (op & 0xF00Fu16 != 0x5002u16) && (op & 0xF00Fu16 != 0x5003u16) && (op & 0xF00Fu16 != 0x8000u16) && (op & 0xF00Fu16 != 0x8001u16) && (op & 0xF00Fu16 != 0x8002u16) && (op & 0xF00Fu16 != 0x8003u16) && (op & 0xF00Fu16 != 0x8004u16) && (op & 0xF00Fu16 != 0x8005u16) && (op & 0xF00Fu16 != 0x8006u16) && (op & 0xF00Fu16 != 0x8007u16) && (op & 0xF00Fu16 != 0x800Eu16) && (op & 0xF000u16 != 0x1000u16) && (op & 0xF000u16 != 0x2000u16) && (op & 0xF000u16 != 0x3000u16) && (op & 0xF000u16 != 0x4000u16) && (op & 0xF000u16 != 0x6000u16) && (op & 0xF000u16 != 0x7000u16) && (op & 0xF000u16 != 0x9000u16) && (op & 0xF000u16 != 0xA000u16) && (op & 0xF000u16 != 0xB000u16) && (op & 0xF000u16 != 0xC000u16) && (op & 0xF000u16 != 0xD000u16)) by (bit_vector);
        }
        if op == 0xF002u16 {
            assert(op == 0xF002u16 ==> (op != 0x00E0u16) && (op != 0x00EEu16) && (op != 0x00FBu16) && (op != 0x00FCu16) && (op != 0x00FDu16) && (op != 0x00FEu16) && (op != 0x00FFu16) && (op != 0xF000u16) && (op == 0xF002u16) && (op & 0xFFF0u16 != 0x00C0u16) && (op & 0xFFF0u16 != 0x00D0u16) && (op & 0xF0FFu16 != 0xE09Eu16) && (op & 0xF0FFu16 != 0xE0A1u16) && (op & 0xF0FFu16 != 0xF001u16) && (op & 0xF0FFu16 != 0xF007u16) && (op & 0xF0FFu16 != 0xF00Au16) && (op & 0xF0FFu16 != 0xF015u16) && (op & 0xF0FFu16 != 0xF018u16) && (op & 0xF0FFu16 != 0xF01Eu16) && (op & 0xF0FFu16 != 0xF029u16) && (op & 0xF0FFu16 != 0xF030u16) && (op & 0xF0FFu16 != 0xF033u16) && (op & 0xF0FFu16 != 0xF03Au16) && (op & 0xF0FFu16 != 0xF055u16) && (op & 0xF0FFu16 != 0xF065u16) && (op & 0xF00Fu16 != 0x5000u16) && (op & 0xF00Fu16 != 0x5002u16) && (op & 0xF00Fu16 != 0x5003u16) && (op & 0xF00Fu16 != 0x8000u16) && (op & 0xF00Fu16 != 0x8001u16) && (op & 0xF00Fu16 != 0x8002u16) && (op & 0xF00Fu16 != 0x8003u16) && (op & 0xF00Fu16 != 0x8004u16) && (op & 0xF00Fu16 != 0x8005u16) && (op & 0xF00Fu16 != 0x8006u16) && (op & 0xF00Fu16 != 0x8007u16) && (op & 0xF00Fu16 != 0x800Eu16) && (op & 0xF000u16 != 0x1000u16) && (op & 0xF000u16 != 0x2000u16) && (op & 0xF000u16 != 0x3000u16) && (op & 0xF000u16 != 0x4000u16) && (op & 0xF000u16 != 0x6000u16) && (op & 0xF000u16 != 0x7000u16) && (op & 0xF000u16 != 0x9000u16) && (op & 0xF000u16 != 0xA000u16) && (op & 0xF000u16 != 0xB000u16) && (op & 0xF000u16 != 0xC000u16) && (op & 0xF000u16 != 0xD000u16)) by (bit_vector);
        }
        if op & 0xFFF0u16 == 0x00C0u16 {
            assert(op & 0xFFF0u16 == 0x00C0u16 ==> (op != 0x00E0u16) && (op != 0x00EEu16) && (op != 0x00FBu16) && (op != 0x00FCu16) && (op != 0x00FDu16) && (op != 0x00FEu16) && (op != 0x00FFu16) && (op != 0xF000u16) && (op != 0xF002u16) && (op & 0xFFF0u16 == 0x00C0u16) && (op & 0xFFF0u16 != 0x00D0u16) && (op & 0xF0FFu16 != 0xE09Eu16) && (op & 0xF0FFu16 != 0xE0A1u16) && (op & 0xF0FFu16 != 0xF001u16) && (op & 0xF0FFu16 != 0xF007u16) && (op & 0xF0FFu16 != 0xF00Au16) && (op & 0xF0FFu16 != 0xF015u16) && (op & 0xF0FFu16 != 0xF018u16) && (op & 0xF0FFu16 != 0xF01Eu16) && (op & 0xF0FFu16 != 0xF029u16) && (op & 0xF0FFu16 != 0xF030u16) && (op & 0xF0FFu16 != 0xF033u16) && (op & 0xF0FFu16 != 0xF03Au16) && (op & 0xF0FFu16 != 0xF055u16) && (op & 0xF0FFu16 != 0xF065u16) && (op & 0xF00Fu16 != 0x5000u16) && (op & 0xF00Fu16 != 0x5002u16) && (op & 0xF00Fu16 != 0x5003u16) && (op & 0xF00Fu16 != 0x8000u16) && (op & 0xF00Fu16 != 0x8001u16) && (op & 0xF00Fu16 != 0x8002u16) && (op & 0xF00Fu16 != 0x8003u16) && (op & 0xF00Fu16 != 0x8004u16) && (op & 0xF00Fu16 != 0x8005u16) && (op & 0xF00Fu16 != 0x8006u16) && (op & 0xF00Fu16 != 0x8007u16) && (op & 0xF00Fu16 != 0x800Eu16) && (op & 0xF000u16 != 0x1000u16) && (op & 0xF000u16 != 0x2000u16) && (op & 0xF000u16 != 0x3000u16) && (op & 0xF000u16 != 0x4000u16) && (op & 0xF000u16 != 0x6000u16) && (op & 0xF000u16 != 0x7000u16) && (op & 0xF000u16 != 0x9000u16) && (op & 0xF000u16 != 0xA000u16) && (op & 0xF000u16 != 0xB000u16) && (op & 0xF000u16 != 0xC000u16) && (op & 0xF000u16 != 0xD000u16)) by (bit_vector);
        }
        if op & 0xFFF0u16 == 0x00D0u16 {
            assert(op & 0xFFF0u16 == 0x00D0u16 ==> (op != 0x00E0u16) && (op != 0x00EEu16) && (op != 0x00FBu16) && (op != 0x00FCu16) && (op != 0x00FDu16) && (op != 0x00FEu16) && (op != 0x00FFu16) && (op != 0xF000u16) && (op != 0xF002u16) && (op & 0xFFF0u16 != 0x00C0u16) && (op & 0xFFF0u16 == 0x00D0u16) && (op & 0xF0FFu16 != 0xE09Eu16) && (op & 0xF0FFu16 != 0xE0A1u16) && (op & 0xF0FFu16 != 0xF001u16) && (op & 0xF0FFu16 != 0xF007u16) && (op & 0xF0FFu16 != 0xF00Au16) && (op & 0xF0FFu16 != 0xF015u16) && (op & 0xF0FFu16 != 0xF018u16) && (op & 0xF0FFu16 != 0xF01Eu16) && (op & 0xF0FFu16 != 0xF029u16) && (op & 0xF0FFu16 != 0xF030u16) && (op & 0xF0FFu16 != 0xF033u16) && (op & 0xF0FFu16 != 0xF03Au16) && (op & 0xF0FFu16 != 0xF055u16) && (op & 0xF0FFu16 != 0xF065u16) && (op & 0xF00Fu16 != 0x5000u16) && (op & 0xF00Fu16 != 0x5002u16) && (op & 0xF00Fu16 != 0x5003u16) && (op & 0xF00Fu16 != 0x8000u16) && (op & 0xF00Fu16 != 0x8001u16) && (op & 0xF00Fu16 != 0x8002u16) && (op & 0xF00Fu16 != 0x8003u16) && (op & 0xF00Fu16 != 0x8004u16) && (op & 0xF00Fu16 != 0x8005u16) && (op & 0xF00Fu16 != 0x8006u16) && (op & 0xF00Fu16 != 0x8007u16) && (op & 0xF00Fu16 != 0x800Eu16) && (op & 0xF000u16 != 0x1000u16) && (op & 0xF000u16 != 0x2000u16) && (op & 0xF000u16 != 0x3000u16) && (op & 0xF000u16 != 0x4000u16) && (op & 0xF000u16 != 0x6000u16) && (op & 0xF000u16 != 0x7000u16) && (op & 0xF000u16 != 0x9000u16) && (op & 0xF000u16 != 0xA000u16) && (op & 0xF000u16 != 0xB000u16) && (op & 0xF000u16 != 0xC000u16) && (op & 0xF000u16 != 0xD000u16)) by (bit_vector);
        }
        if op & 0xF0FFu16 == 0xF001u16 {
            assert(op & 0xF0FFu16 == 0xF001u16 ==> (op != 0x00E0u16) && (op != 0x00EEu16) && (op != 0x00FBu16) && (op != 0x00FCu16) && (op != 0x00FDu16) && (op != 0x00FEu16) && (op != 0x00FFu16) && (op != 0xF000u16) && (op != 0xF002u16) && (op & 0xFFF0u16 != 0x00C0u16) && (op & 0xFFF0u16 != 0x00D0u16) && (op & 0xF0FFu16 != 0xE09Eu16) && (op & 0xF0FFu16 != 0xE0A1u16) && (op & 0xF0FFu16 == 0xF001u16) && (op & 0xF0FFu16 != 0xF007u16) && (op & 0xF0FFu16 != 0xF00Au16) && (op & 0xF0FFu16 != 0xF015u16) && (op & 0xF0FFu16 != 0xF018u16) && (op & 0xF0FFu16 != 0xF01Eu16) && (op & 0xF0FFu16 != 0xF029u16) && (op & 0xF0FFu16 != 0xF030u16) && (op & 0xF0FFu16 != 0xF033u16) && (op & 0xF0FFu16 != 0xF03Au16) && (op & 0xF0FFu16 != 0xF055u16) && (op & 0xF0FFu16 != 0xF065u16) && (op & 0xF00Fu16 != 0x5000u16) && (op & 0xF00Fu16 != 0x5002u16) && (op & 0xF00Fu16 != 0x5003u16) && (op & 0xF00Fu16 != 0x8000u16) && (op & 0xF00Fu16 != 0x8001u16) && (op & 0xF00Fu16 != 0x8002u16) && (op & 0xF00Fu16 != 0x8003u16) && (op & 0xF00Fu16 != 0x8004u16) && (op & 0xF00Fu16 != 0x8005u16) && (op & 0xF00Fu16 != 0x8006u16) && (op & 0xF00Fu16 != 0x8007u16) && (op & 0xF00Fu16 != 0x800Eu16) && (op & 0xF000u16 != 0x1000u16) && (op & 0xF000u16 != 0x2000u16) && (op & 0xF000u16 != 0x3000u16) && (op & 0xF000u16 != 0x4000u16) && (op & 0xF000u16 != 0x6000u16) && (op & 0xF000u16 != 0x7000u16) && (op & 0xF000u16 != 0x9000u16) && (op & 0xF000u16 != 0xA000u16) && (op & 0xF000u16 != 0xB000u16) && (op & 0xF000u16 != 0xC000u16) && (op & 0xF000u16 != 0xD000u16)) by (bit_vector);
        }
        if op & 0xF0FFu16 == 0xF030u16 {
            assert(op & 0xF0FFu16 == 0xF030u16 ==> (op != 0x00E0u16) && (op != 0x00EEu16) && (op != 0x00FBu16) && (op != 0x00FCu16) && (op != 0x00FDu16) && (op != 0x00FEu16) && (op != 0x00FFu16) && (op != 0xF000u16) && (op != 0xF002u16) && (op & 0xFFF0u16 != 0x00C0u16) && (op & 0xFFF0u16 != 0x00D0u16) && (op & 0xF0FFu16 != 0xE09Eu16) && (op & 0xF0FFu16 != 0xE0A1u16) && (op & 0xF0FFu16 != 0xF001u16) && (op & 0xF0FFu16 != 0xF007u16) && (op & 0xF0FFu16 != 0xF00Au16) && (op & 0xF0FFu16 != 0xF015u16) && (op & 0xF0FFu16 != 0xF018u16) && (op & 0xF0FFu16 != 0xF01Eu16) && (op & 0xF0FFu16 != 0xF029u16) && (op & 0xF0FFu16 == 0xF030u16) && (op & 0xF0FFu16 != 0xF033u16) && (op & 0xF0FFu16 != 0xF03Au16) && (op & 0xF0FFu16 != 0xF055u16) && (op & 0xF0FFu16 != 0xF065u16) && (op & 0xF00Fu16 != 0x5000u16) && (op & 0xF00Fu16 != 0x5002u16) && (op & 0xF00Fu16 != 0x5003u16) && (op & 0xF00Fu16 != 0x8000u16) && (op & 0xF00Fu16 != 0x8001u16) && (op & 0xF00Fu16 != 0x8002u16) && (op & 0xF00Fu16 != 0x8003u16) && (op & 0xF00Fu16 != 0x8004u16) && (op & 0xF00Fu16 != 0x8005u16) && (op & 0xF00Fu16 != 0x8006u16) && (op & 0xF00Fu16 != 0x8007u16) && (op & 0xF00Fu16 != 0x800Eu16) && (op & 0xF000u16 != 0x1000u16) && (op & 0xF000u16 != 0x2000u16) && (op & 0xF000u16 != 0x3000u16) && (op & 0xF000u16 != 0x4000u16) && (op & 0xF000u16 != 0x6000u16) && (op & 0xF000u16 != 0x7000u16) && (op & 0xF000u16 != 0x9000u16) && (op & 0xF000u16 != 0xA000u16) && (op & 0xF000u16 != 0xB000u16) && (op & 0xF000u16 != 0xC000u16) && (op & 0xF000u16 != 0xD000u16)) by (bit_vector);
        }
        if op & 0xF0FFu16 == 0xF03Au16 {
            assert(op & 0xF0FFu16 == 0xF03Au16 ==> (op != 0x00E0u16) && (op != 0x00EEu16) && (op != 0x00FBu16) && (op != 0x00FCu16) && (op != 0x00FDu16) && (op != 0x00FEu16) && (op != 0x00FFu16) && (op != 0xF000u16) && (op != 0xF002u16) && (op & 0xFFF0u16 != 0x00C0u16) && (op & 0xFFF0u16 != 0x00D0u16) && (op & 0xF0FFu16 != 0xE09Eu16) && (op & 0xF0FFu16 != 0xE0A1u16) && (op & 0xF0FFu16 != 0xF001u16) && (op & 0xF0FFu16 != 0xF007u16) && (op & 0xF0FFu16 != 0xF00Au16) && (op & 0xF0FFu16 != 0xF015u16) && (op & 0xF0FFu16 != 0xF018u16) && (op & 0xF0FFu16 != 0xF01Eu16) && (op & 0xF0FFu16 != 0xF029u16) && (op & 0xF0FFu16 != 0xF030u16) && (op & 0xF0FFu16 != 0xF033u16) && (op & 0xF0FFu16 == 0xF03Au16) && (op & 0xF0FFu16 != 0xF055u16) && (op & 0xF0FFu16 != 0xF065u16) && (op & 0xF00Fu16 != 0x5000u16) && (op & 0xF00Fu16 != 0x5002u16) && (op & 0xF00Fu16 != 0x5003u16) && (op & 0xF00Fu16 != 0x8000u16) && (op & 0xF00Fu16 != 0x8001u16) && (op & 0xF00Fu16 != 0x8002u16) && (op & 0xF00Fu16 != 0x8003u16) && (op & 0xF00Fu16 != 0x8004u16) && (op & 0xF00Fu16 != 0x8005u16) && (op & 0xF00Fu16 != 0x8006u16) && (op & 0xF00Fu16 != 0x8007u16) && (op & 0xF00Fu16 != 0x800Eu16) && (op & 0xF000u16 != 0x1000u16) && (op & 0xF000u16 != 0x2000u16) && (op & 0xF000u16 != 0x3000u16) && (op & 0xF000u16 != 0x4000u16) && (op & 0xF000u16 != 0x6000u16) && (op & 0xF000u16 != 0x7000u16) && (op & 0xF000u16 != 0x9000u16) && (op & 0xF000u16 != 0xA000u16) && (op & 0xF000u16 != 0xB000u16) && (op & 0xF000u16 != 0xC000u16) && (op & 0xF000u16 != 0xD000u16)) by (bit_vector);
        }
        if op & 0xF00Fu16 == 0x5002u16 {
            assert(op & 0xF00Fu16 == 0x5002u16 ==> (op != 0x00E0u16) && (op != 0x00EEu16) && (op != 0x00FBu16) && (op != 0x00FCu16) && (op != 0x00FDu16) && (op != 0x00FEu16) && (op != 0x00FFu16) && (op != 0xF000u16) && (op != 0xF002u16) && (op & 0xFFF0u16 != 0x00C0u16) && (op & 0xFFF0u16 != 0x00D0u16) && (op & 0xF0FFu16 != 0xE09Eu16) && (op & 0xF0FFu16 != 0xE0A1u16) && (op & 0xF0FFu16 != 0xF001u16) && (op & 0xF0FFu16 != 0xF007u16) && (op & 0xF0FFu16 != 0xF00Au16) && (op & 0xF0FFu16 != 0xF015u16) && (op & 0xF0FFu16 != 0xF018u16) && (op & 0xF0FFu16 != 0xF01Eu16) && (op & 0xF0FFu16 != 0xF029u16) && (op & 0xF0FFu16 != 0xF030u16) && (op & 0xF0FFu16 != 0xF033u16) && (op & 0xF0FFu16 != 0xF03Au16) && (op & 0xF0FFu16 != 0xF055u16) && (op & 0xF0FFu16 != 0xF065u16) && (op & 0xF00Fu16 != 0x5000u16) && (op & 0xF00Fu16 == 0x5002u16) && (op & 0xF00Fu16 != 0x5003u16) && (op & 0xF00Fu16 != 0x8000u16) && (op & 0xF00Fu16 != 0x8001u16) && (op & 0xF00Fu16 != 0x8002u16) && (op & 0xF00Fu16 != 0x8003u16) && (op & 0xF00Fu16 != 0x8004u16) && (op & 0xF00Fu16 != 0x8005u16) && (op & 0xF00Fu16 != 0x8006u16) && (op & 0xF00Fu16 != 0x8007u16) && (op & 0xF00Fu16 != 0x800Eu16) && (op & 0xF000u16 != 0x1000u16) && (op & 0xF000u16 != 0x2000u16) && (op & 0xF000u16 != 0x3000u16) && (op & 0xF000u16 != 0x4000u16) && (op & 0xF000u16 != 0x6000u16) && (op & 0xF000u16 != 0x7000u16) && (op & 0xF000u16 != 0x9000u16) && (op & 0xF000u16 != 0xA000u16) && (op & 0xF000u16 != 0xB000u16) && (op & 0xF000u16 != 0xC000u16) && (op & 0xF000u16 != 0xD000u16)) by (bit_vector);
        }
        if op & 0xF00Fu16 == 0x5003u16 {
            assert(op & 0xF00Fu16 == 0x5003u16 ==> (op != 0x00E0u16) && (op != 0x00EEu16) && (op != 0x00FBu16) && (op != 0x00FCu16) && (op != 0x00FDu16) && (op != 0x00FEu16) && (op != 0x00FFu16) && (op != 0xF000u16) && (op != 0xF002u16) && (op & 0xFFF0u16 != 0x00C0u16) && (op & 0xFFF0u16 != 0x00D0u16) && (op & 0xF0FFu16 != 0xE09Eu16) && (op & 0xF0FFu16 != 0xE0A1u16) && (op & 0xF0FFu16 != 0xF001u16) && (op & 0xF0FFu16 != 0xF007u16) && (op & 0xF0FFu16 != 0xF00Au16) && (op & 0xF0FFu16 != 0xF015u16) && (op & 0xF0FFu16 != 0xF018u16) && (op & 0xF0FFu16 != 0xF01Eu16) && (op & 0xF0FFu16 != 0xF029u16) && (op & 0xF0FFu16 != 0xF030u16) && (op & 0xF0FFu16 != 0xF033u16) && (op & 0xF0FFu16 != 0xF03Au16) && (op & 0xF0FFu16 != 0xF055u16) && (op & 0xF0FFu16 != 0xF065u16) && (op & 0xF00Fu16 != 0x5000u16) && (op & 0xF00Fu16 != 0x5002u16) && (op & 0xF00Fu16 == 0x5003u16) && (op & 0xF00Fu16 != 0x8000u16) && (op & 0xF00Fu16 != 0x8001u16) && (op & 0xF00Fu16 != 0x8002u16) && (op & 0xF00Fu16 != 0x8003u16) && (op & 0xF00Fu16 != 0x8004u16) && (op & 0xF00Fu16 != 0x8005u16) && (op & 0xF00Fu16 != 0x8006u16) && (op & 0xF00Fu16 != 0x8007u16) && (op & 0xF00Fu16 != 0x800Eu16) && (op & 0xF000u16 != 0x1000u16) && (op & 0xF000u16 != 0x2000u16) && (op & 0xF000u16 != 0x3000u16) && (op & 0xF000u16 != 0x4000u16) && (op & 0xF000u16 != 0x6000u16) && (op & 0xF000u16 != 0x7000u16) && (op & 0xF000u16 != 0x9000u16) && (op & 0xF000u16 != 0xA000u16) && (op & 0xF000u16 != 0xB000u16) && (op & 0xF000u16 != 0xC000u16) && (op & 0xF000u16 != 0xD000u16)) by (bit_vector);
        }
}

/// An XO-CHIP-only encoding means nothing to the original CHIP-8 and something
/// to XO-CHIP.
pub proof fn lemma_extended_only_opcodes(op: u16)
    requires
        extended_only(op),
    ensures
        decode(op, Target::Chip) is None,
        decode(op, Target::XO) is Some,
{
    lemma_beyond_original_undefined(op);
}

/// Fetching an XO-CHIP-only instruction on the original CHIP-8 stops the machine
/// with an unsupported-opcode fault, whatever the random byte.
pub proof fn lemma_extended_only_faults_on_original(m: Machine, rnd: u8)
    requires
        m.wf(),
        m.target == Target::Chip,
        !m.halting,
        m.pc + 1 < MEM_SIZE,
        extended_only(word_at(m.mem, m.pc as int)),
    ensures
        step(m, rnd) == Err::<(Machine, bool), Fault>(
            Fault::UnsupportedOpcode { op: word_at(m.mem, m.pc as int), target: Target::Chip },
        ),
{
    reveal(step);
    lemma_beyond_original_undefined(word_at(m.mem, m.pc as int));
}

/// An encoding of the original CHIP-8 means the same instruction under every
/// variant: no later case shadows it.
pub proof fn lemma_original_opcodes_agree(op: u16, t: Target)
    requires
        decode(op, Target::Chip) is Some,
    ensures
        decode(op, t) == decode(op, Target::Chip),
{
    if beyond_original(op) {
        lemma_beyond_original_undefined(op);
    } else {
        reveal(decode);
    }
}

/// Whether no step of the run from `m` with random bytes `rs` starts in a state of which `p` holds.
pub open spec fn run_avoids(m: Machine, rs: Seq<u8>, p: spec_fn(Machine) -> bool) -> bool
    decreases rs.len(),
{
    if rs.len() == 0 {
        true
    } else {
        !p(m) && match step(m, rs[0]) {
            Err(_) => true,
            Ok((m1, _)) => run_avoids(m1, rs.drop_first(), p),
        }
    }
}

proof fn lemma_execute_ignores_random(m: Machine, ins: Instr, a: u8, b: u8)
    requires
        !(ins is Random),
    ensures
        execute(m, ins, a) == execute(m, ins, b),
{
    reveal(execute);
}

/// Whether no step of the run from `m` with random bytes `rs` executes a random instruction.
pub open spec fn run_without_random(m: Machine, rs: Seq<u8>) -> bool {
    run_avoids(m, rs, |s: Machine| uses_random(s))
}

/// Whether no step of the run from `m` with random bytes `rs` writes a timer.
pub open spec fn run_without_timer_writes(m: Machine, rs: Seq<u8>) -> bool {
    run_avoids(m, rs, |s: Machine| sets_timer(s))
}

/// A step that does not execute a random instruction does not depend on the random byte.
pub proof fn lemma_step_ignores_random(m: Machine, a: u8, b: u8)
    requires
        !uses_random(m),
    ensures
        step(m, a) == step(m, b),
{
    reveal(step);
    if !fetch_fault(m) {
        let op = current_op(m);
        let m1 = Machine {
            remaining: (m.remaining - 1) as u32,
            pc: if m.halting { m.pc } else { (m.pc + 2) as usize },
            ..m
        };
        if let Some(ins) = decode(op, m.target) {
            lemma_execute_ignores_random(m1, ins, a, b);
        }
    }
}

/// Determinism: two runs from the same state, with any random bytes, end in the
/// same state (or the same fault) where no step of the first executes a random
/// instruction. A program image, variant and clock rate fix the starting state,
/// so they fix the planes published after any number of frames.
pub proof fn lemma_run_deterministic(m: Machine, rs1: Seq<u8>, rs2: Seq<u8>)
    requires
        rs1.len() == rs2.len(),
        run_without_random(m, rs1),
    ensures
        run(m, rs1) == run(m, rs2),
    decreases rs1.len(),
{
    if rs1.len() > 0 {
        lemma_step_ignores_random(m, rs1[0], rs2[0]);
        match step(m, rs1[0]) {
            Err(_) => {},
            Ok((m1, _)) => {
                lemma_run_deterministic(m1, rs1.drop_first(), rs2.drop_first());
            },
        }
    }
}

/// Whether the next step writes the delay or sound timer (Fx15, Fx18).
pub open spec fn sets_timer(m: Machine) -> bool {
    !fetch_fault(m) && (decode(current_op(m), m.target) matches Some(Instr::SetDelay { .. })
        || decode(current_op(m), m.target) matches Some(Instr::SetSound { .. }))
}

proof fn lemma_execute_keeps_timers(m: Machine, ins: Instr, rnd: u8)
    requires
        !(ins is SetDelay),
        !(ins is SetSound),
        execute(m, ins, rnd) is Ok,
    ensures
        execute(m, ins, rnd)->Ok_0.delay == m.delay,
        execute(m, ins, rnd)->Ok_0.sound == m.sound,
{
    reveal(execute);
    match ins {
        Instr::Cls { .. } => {},
        Instr::Ret { .. } => {},
        Instr::ScrollRight { .. } => {},
        Instr::ScrollLeft { .. } => {},
        Instr::Exit { .. } => {},
        Instr::Low { .. } => {},
        Instr::High { .. } => {},
        Instr::LongIndex { .. } => {},
        Instr::LoadPattern { .. } => {},
        Instr::ScrollDown { .. } => {},
        Instr::ScrollUp { .. } => {},
        Instr::SkipKey { .. } => {},
        Instr::SkipNotKey { .. } => {},
        Instr::SelectPlanes { .. } => {},
        Instr::GetDelay { .. } => {},
        Instr::WaitKey { .. } => {},
        Instr::SetDelay { .. } => {},
        Instr::SetSound { .. } => {},
        Instr::AddIndex { .. } => {},
        Instr::SmallDigit { .. } => {},
        Instr::BigDigit { .. } => {},
        Instr::Bcd { .. } => {},
        Instr::SetPitch { .. } => {},
        Instr::Store { .. } => {},
        Instr::Load { .. } => {},
        Instr::SkipEqReg { .. } => {},
        Instr::StoreRange { .. } => {},
        Instr::LoadRange { .. } => {},
        Instr::Move { .. } => {},
        Instr::Or { .. } => {},
        Instr::And { .. } => {},
        Instr::Xor { .. } => {},
        Instr::Add { .. } => {},
        Instr::Sub { .. } => {},
        Instr::Shr { .. } => {},
        Instr::SubN { .. } => {},
        Instr::Shl { .. } => {},
        Instr::Jump { .. } => {},
        Instr::Call { .. } => {},
        Instr::SkipEqImm { .. } => {},
        Instr::SkipNeImm { .. } => {},
        Instr::SetImm { .. } => {},
        Instr::AddImm { .. } => {},
        Instr::SkipNeReg { .. } => {},
        Instr::SetIndex { .. } => {},
        Instr::JumpOffset { .. } => {},
        Instr::Random { .. } => {},
        Instr::Draw { .. } => {},
    }
}

/// Timer floor, for one step: a timer that the step does not write never grows,
/// and one at 0 stays at 0.
pub proof fn lemma_step_timer_floor(m: Machine, rnd: u8)
    requires
        !sets_timer(m),
        step(m, rnd) is Ok,
    ensures
        step(m, rnd)->Ok_0.0.delay <= m.delay,
        step(m, rnd)->Ok_0.0.sound <= m.sound,
        m.delay == 0 ==> step(m, rnd)->Ok_0.0.delay == 0,
        m.sound == 0 ==> step(m, rnd)->Ok_0.0.sound == 0,
{
    reveal(step);
    let op = current_op(m);
    let m1 = Machine {
        remaining: (m.remaining - 1) as u32,
        pc: if m.halting { m.pc } else { (m.pc + 2) as usize },
        ..m
    };
    let ins = decode(op, m.target)->Some_0;
    lemma_execute_keeps_timers(m1, ins, rnd);
}

/// Timer floor: however many steps and frames run, a timer at 0 stays at 0
/// unless the program writes it; it never goes below 0.
pub proof fn lemma_run_timer_floor(m: Machine, rs: Seq<u8>)
    requires
        run_without_timer_writes(m, rs),
        run(m, rs) is Ok,
    ensures
        run(m, rs)->Ok_0.delay <= m.delay,
        run(m, rs)->Ok_0.sound <= m.sound,
        m.delay == 0 ==> run(m, rs)->Ok_0.delay == 0,
        m.sound == 0 ==> run(m, rs)->Ok_0.sound == 0,
    decreases rs.len(),
{
    if rs.len() > 0 {
        lemma_step_timer_floor(m, rs[0]);
        let m1 = step(m, rs[0])->Ok_0.0;
        lemma_run_timer_floor(m1, rs.drop_first());
    }
}

/// Both planes' passes of one sprite draw, on plane rows `a`.
pub open spec fn sprite_passes(a: Seq<u128>, mem: Seq<u8>, s: crate::sprite::Sprite, mask: u8) -> Seq<u128> {
    let a1 = if plane_on(mask, 0) { draw_rows(a, mem, s, 0, 0, s.rows as nat).0 } else { a };
    if plane_on(mask, 1) {
        draw_rows(a1, mem, s, 1, if plane_on(mask, 0) { 1 } else { 0 }, s.rows as nat).0
    } else {
        a1
    }
}

proof fn lemma_passes_twice(a0: Seq<u128>, mem: Seq<u8>, s: crate::sprite::Sprite, mask: u8)
    requires
        s.wf(),
        a0.len() == PLANE_COUNT * HEIGHT,
        s.high_res || forall|j: int| 0 <= j < a0.len() ==> left_half_only(#[trigger] a0[j]),
    ensures
        sprite_passes(sprite_passes(a0, mem, s, mask), mem, s, mask) == a0,
{
    let on0 = plane_on(mask, 0);
    let on1 = plane_on(mask, 1);
    let off1: int = if on0 { 1 } else { 0 };
    let a1 = if on0 { draw_rows(a0, mem, s, 0, 0, s.rows as nat).0 } else { a0 };
    let a2 = if on1 { draw_rows(a1, mem, s, 1, off1, s.rows as nat).0 } else { a1 };
    let a3 = if on0 { draw_rows(a2, mem, s, 0, 0, s.rows as nat).0 } else { a2 };
    let a4 = if on1 { draw_rows(a3, mem, s, 1, off1, s.rows as nat).0 } else { a3 };
    lemma_draw_rows_at(a0, mem, s, 0, 0, s.rows as nat);
    lemma_draw_rows_at(a1, mem, s, 1, off1, s.rows as nat);
    lemma_draw_rows_at(a2, mem, s, 0, 0, s.rows as nat);
    lemma_draw_rows_at(a3, mem, s, 1, off1, s.rows as nat);
    assert forall|j: int| 0 <= j < a0.len() implies a4[j] == a0[j] by {
        if j < HEIGHT as int {
            assert(!touched(s, 1, s.rows as int, j));
            if on0 && touched(s, 0, s.rows as int, j) {
                let b = sprite_bits(mem, s, 0, sprite_row_at(s, j));
                lemma_row_drawn_twice(a0[j], b, s);
            }
        } else {
            assert(!touched(s, 0, s.rows as int, j));
            if on1 && touched(s, 1, s.rows as int, j) {
                let b = sprite_bits(mem, s, off1, sprite_row_at(s, j - HEIGHT));
                lemma_row_drawn_twice(a0[j], b, s);
            }
        }
    }
    assert(a4 =~= a0);
}

/// A successful draw changes the planes by the passes of one sprite layout, and
/// of the registers only VF, where the coordinates are not in VF.
proof fn lemma_draw_sprite_effect(m: Machine, x: int, y: int, n: usize)
    requires
        m.shape(),
        0 <= x < 15,
        0 <= y < 15,
        n < 16,
        draw_sprite(m, x, y, n) is Ok,
    ensures
        draw_sprite(m, x, y, n)->Ok_0 == (Machine {
            active: sprite_passes(m.active, m.mem, sprite_layout(m.target, m.high_res, m.v[x], m.v[y], n, m.i), m.enabled_planes),
            v: m.v.update(15, draw_sprite(m, x, y, n)->Ok_0.v[15]),
            ..m
        }),
        draw_sprite(m, x, y, n)->Ok_0.shape(),
{
    let r = draw_sprite(m, x, y, n)->Ok_0;
    let s = sprite_layout(m.target, m.high_res, m.v[x], m.v[y], n, m.i);
    assert(s.wf());
    let a1 = if plane_on(m.enabled_planes, 0) { draw_rows(m.active, m.mem, s, 0, 0, s.rows as nat).0 } else { m.active };
    lemma_draw_rows_at(m.active, m.mem, s, 0, 0, s.rows as nat);
    lemma_draw_rows_at(a1, m.mem, s, 1, if plane_on(m.enabled_planes, 0) { 1 } else { 0 }, s.rows as nat);
    assert(r.v =~= m.v.update(15, r.v[15]));
}

/// Whether drawing the sprite at Vx, Vy with height `n` reads only memory that exists.
pub open spec fn sprite_in_memory(m: Machine, x: int, y: int, n: usize) -> bool {
    let s = sprite_layout(m.target, m.high_res, m.v[x], m.v[y], n, m.i);
    (plane_on(m.enabled_planes, 0) ==> s.fits(0))
        && (plane_on(m.enabled_planes, 1) ==> s.fits(if plane_on(m.enabled_planes, 0) { 1 } else { 0 }))
}

proof fn lemma_draw_sprite_ok(m: Machine, x: int, y: int, n: usize)
    requires
        m.shape(),
        0 <= x < 15,
        0 <= y < 15,
        n < 16,
    ensures
        draw_sprite(m, x, y, n) is Ok <==> sprite_in_memory(m, x, y, n),
{
}

/// Idempotent XOR draw: drawing the same sprite twice at the same place, with
/// nothing changed between the two draws, gives every plane row back and changes
/// nothing but the flags register, which holds the second draw's own collision
/// result. The coordinates must not come from the flags register, which the
/// first draw writes, and every row must lie within what the resolution shows.
pub proof fn lemma_draw_twice_restores(m: Machine, x: int, y: int, n: usize)
    requires
        m.shape(),
        0 <= x < 15,
        0 <= y < 15,
        n < 16,
        m.high_res || forall|j: int| 0 <= j < m.active.len() ==> left_half_only(#[trigger] m.active[j]),
        draw_sprite(m, x, y, n) is Ok,
    ensures
        draw_sprite(draw_sprite(m, x, y, n)->Ok_0, x, y, n) is Ok,
        draw_sprite(draw_sprite(m, x, y, n)->Ok_0, x, y, n)->Ok_0 == (Machine {
            v: m.v.update(15, draw_sprite(draw_sprite(m, x, y, n)->Ok_0, x, y, n)->Ok_0.v[15]),
            ..m
        }),
{
    let s = sprite_layout(m.target, m.high_res, m.v[x], m.v[y], n, m.i);
    lemma_draw_sprite_ok(m, x, y, n);
    lemma_draw_sprite_effect(m, x, y, n);
    let m1 = draw_sprite(m, x, y, n)->Ok_0;
    assert(m1.v[x] == m.v[x] && m1.v[y] == m.v[y]);
    lemma_draw_sprite_ok(m1, x, y, n);
    lemma_draw_sprite_effect(m1, x, y, n);
    lemma_passes_twice(m.active, m.mem, s, m.enabled_planes);
    let m2 = draw_sprite(m1, x, y, n)->Ok_0;
    assert(m2.v =~= m.v.update(15, m2.v[15]));
}

proof fn lemma_wait_or_draw_keeps_pc(m: Machine, ins: Instr, rnd: u8)
    requires
        ins is WaitKey || ins is Draw,
        execute(m, ins, rnd) is Ok,
    ensures
        execute(m, ins, rnd)->Ok_0.pc == m.pc,
{
    reveal(execute);
}

/// While halted, a step replays the saved instruction and the program counter
/// stays where it is.
pub proof fn lemma_halted_step_keeps_pc(m: Machine, rnd: u8)
    requires
        m.wf(),
        m.halting,
        step(m, rnd) is Ok,
    ensures
        step(m, rnd)->Ok_0.0.pc == m.pc,
        step(m, rnd)->Ok_0.0.prev_op == m.prev_op,
{
    reveal(step);
    let m1 = Machine { remaining: (m.remaining - 1) as u32, ..m };
    let ins = decode(m.prev_op, m.target)->Some_0;
    lemma_wait_or_draw_keeps_pc(m1, ins, rnd);
}

proof fn lemma_wait_key_effect(m: Machine, x: usize, rnd: u8)
    requires
        first_release(m.prev_keys, m.curr_keys, 0) is Some,
    ensures
        execute(m, Instr::WaitKey { x }, rnd) == Ok::<Machine, Fault>(Machine {
            halting: false,
            v: m.v.update(x as int, first_release(m.prev_keys, m.curr_keys, 0)->Some_0 as u8),
            ..m
        }),
{
    reveal(execute);
}

/// A machine halted on a key wait resumes on the very next step once a key has
/// gone from down to up, and the lowest such key lands in the wait's register.
pub proof fn lemma_key_release_resumes(m: Machine, x: usize, rnd: u8)
    requires
        m.wf(),
        m.halting,
        x < 16,
        decode(m.prev_op, m.target) == Some(Instr::WaitKey { x }),
        first_release(m.prev_keys, m.curr_keys, 0) is Some,
    ensures
        step(m, rnd) is Ok,
        !step(m, rnd)->Ok_0.0.halting,
        step(m, rnd)->Ok_0.0.v[x as int] == first_release(m.prev_keys, m.curr_keys, 0)->Some_0 as u8,
        step(m, rnd)->Ok_0.0.pc == m.pc,
{
    reveal(step);
    let m1 = Machine { remaining: (m.remaining - 1) as u32, ..m };
    lemma_wait_key_effect(m1, x, rnd);
}

/// A timer after one count-down at a frame boundary: one less, but never below 0.
pub open spec fn count_down(t: u8) -> u8 {
    if t > 0 { (t - 1) as u8 } else { 0 }
}

/// A timer after `k` frame boundaries: `k` less, but never below 0.
pub open spec fn count_down_by(t: u8, k: nat) -> u8 {
    if t >= k { (t - k) as u8 } else { 0 }
}

proof fn lemma_execute_keeps_frame(m: Machine, ins: Instr, rnd: u8)
    requires
        execute(m, ins, rnd) is Ok,
    ensures
        execute(m, ins, rnd)->Ok_0.remaining == m.remaining,
        execute(m, ins, rnd)->Ok_0.clock == m.clock,
        execute(m, ins, rnd)->Ok_0.buffer == m.buffer,
{
    reveal(execute);
    match ins {
        Instr::Cls { .. } => {},
        Instr::Ret { .. } => {},
        Instr::ScrollRight { .. } => {},
        Instr::ScrollLeft { .. } => {},
        Instr::Exit { .. } => {},
        Instr::Low { .. } => {},
        Instr::High { .. } => {},
        Instr::LongIndex { .. } => {},
        Instr::LoadPattern { .. } => {},
        Instr::ScrollDown { .. } => {},
        Instr::ScrollUp { .. } => {},
        Instr::SkipKey { .. } => {},
        Instr::SkipNotKey { .. } => {},
        Instr::SelectPlanes { .. } => {},
        Instr::GetDelay { .. } => {},
        Instr::WaitKey { .. } => {},
        Instr::SetDelay { .. } => {},
        Instr::SetSound { .. } => {},
        Instr::AddIndex { .. } => {},
        Instr::SmallDigit { .. } => {},
        Instr::BigDigit { .. } => {},
        Instr::Bcd { .. } => {},
        Instr::SetPitch { .. } => {},
        Instr::Store { .. } => {},
        Instr::Load { .. } => {},
        Instr::SkipEqReg { .. } => {},
        Instr::StoreRange { .. } => {},
        Instr::LoadRange { .. } => {},
        Instr::Move { .. } => {},
        Instr::Or { .. } => {},
        Instr::And { .. } => {},
        Instr::Xor { .. } => {},
        Instr::Add { .. } => {},
        Instr::Sub { .. } => {},
        Instr::Shr { .. } => {},
        Instr::SubN { .. } => {},
        Instr::Shl { .. } => {},
        Instr::Jump { .. } => {},
        Instr::Call { .. } => {},
        Instr::SkipEqImm { .. } => {},
        Instr::SkipNeImm { .. } => {},
        Instr::SetImm { .. } => {},
        Instr::AddImm { .. } => {},
        Instr::SkipNeReg { .. } => {},
        Instr::SetIndex { .. } => {},
        Instr::JumpOffset { .. } => {},
        Instr::Random { .. } => {},
        Instr::Draw { .. } => {},
    }
}

/// The frame boundary, for one step that writes no timer: where the step uses
/// up the quota, a new quota begins, each timer counts down by one but not below
/// 0, the audio phase restarts once the sound timer is 0, and the planes are
/// published; otherwise the quota shrinks by one and timers and published
/// planes stay as they are.
pub proof fn lemma_step_frame_boundary(m: Machine, rnd: u8)
    requires
        m.remaining >= 1,
        !sets_timer(m),
        step(m, rnd) is Ok,
    ensures
        step(m, rnd)->Ok_0.0.clock == m.clock,
        m.remaining == 1 ==> {
            let m2 = step(m, rnd)->Ok_0.0;
            &&& m2.remaining == m.clock
            &&& m2.delay == count_down(m.delay)
            &&& m2.sound == count_down(m.sound)
            &&& (m2.sound == 0 ==> m2.phase == 0)
            &&& m2.buffer == m2.active
        },
        m.remaining > 1 ==> {
            let m2 = step(m, rnd)->Ok_0.0;
            &&& m2.remaining == m.remaining - 1
            &&& m2.delay == m.delay
            &&& m2.sound == m.sound
            &&& m2.buffer == m.buffer
        },
{
    reveal(step);
    let op = current_op(m);
    let m1 = Machine {
        remaining: (m.remaining - 1) as u32,
        pc: if m.halting { m.pc } else { (m.pc + 2) as usize },
        ..m
    };
    let ins = decode(op, m.target)->Some_0;
    lemma_execute_keeps_timers(m1, ins, rnd);
    lemma_execute_keeps_frame(m1, ins, rnd);
}

/// One frame: a run of as many steps as the quota has left, writing no timer,
/// counts each timer down exactly once (never below 0), starts a new quota and
/// publishes the planes.
pub proof fn lemma_frame_timers(m: Machine, rs: Seq<u8>)
    requires
        m.remaining >= 1,
        rs.len() == m.remaining,
        run_without_timer_writes(m, rs),
        run(m, rs) is Ok,
    ensures
        run(m, rs)->Ok_0.delay == count_down(m.delay),
        run(m, rs)->Ok_0.sound == count_down(m.sound),
        run(m, rs)->Ok_0.remaining == m.clock,
        run(m, rs)->Ok_0.clock == m.clock,
        run(m, rs)->Ok_0.buffer == run(m, rs)->Ok_0.active,
    decreases rs.len(),
{
    lemma_step_frame_boundary(m, rs[0]);
    let m1 = step(m, rs[0])->Ok_0.0;
    if m.remaining == 1 {
        assert(rs.drop_first().len() == 0);
        assert(run(m1, rs.drop_first()) == Ok::<Machine, Fault>(m1));
    } else {
        lemma_frame_timers(m1, rs.drop_first());
    }
}

/// Running `rs` is running its first `n` bytes and then the rest.
pub proof fn lemma_run_split(m: Machine, rs: Seq<u8>, n: nat)
    requires
        n <= rs.len(),
    ensures
        run(m, rs) == match run(m, rs.take(n as int)) {
            Err(f) => Err(f),
            Ok(m1) => run(m1, rs.skip(n as int)),
        },
        run_without_timer_writes(m, rs) && run(m, rs.take(n as int)) is Ok
            ==> run_without_timer_writes(m, rs.take(n as int))
            && run_without_timer_writes(run(m, rs.take(n as int))->Ok_0, rs.skip(n as int)),
    decreases n,
{
    if n == 0 {
        assert(rs.take(0) =~= Seq::<u8>::empty());
        assert(rs.skip(0) =~= rs);
    } else {
        assert(rs.take(n as int)[0] == rs[0]);
        assert(rs.take(n as int).drop_first() =~= rs.drop_first().take(n - 1));
        assert(rs.skip(n as int) =~= rs.drop_first().skip(n - 1));
        match step(m, rs[0]) {
            Err(_) => {},
            Ok((m1, _)) => {
                lemma_run_split(m1, rs.drop_first(), (n - 1) as nat);
            },
        }
    }
}

/// Timer floor over whole frames: from the start of a frame, `k` frames that
/// write no timer count each timer down by `k`, stopping at 0; a timer at 0
/// stays at 0 and never wraps.
pub proof fn lemma_frames_timers(m: Machine, rs: Seq<u8>, k: nat)
    requires
        m.clock >= 1,
        m.remaining == m.clock,
        rs.len() == k * m.clock,
        run_without_timer_writes(m, rs),
        run(m, rs) is Ok,
    ensures
        run(m, rs)->Ok_0.delay == count_down_by(m.delay, k),
        run(m, rs)->Ok_0.sound == count_down_by(m.sound, k),
    decreases k,
{
    if k == 0 {
        assert(rs.len() == 0) by (nonlinear_arith)
            requires rs.len() == k * m.clock, k == 0;
    } else {
        assert(rs.len() >= m.clock) by (nonlinear_arith)
            requires rs.len() == k * m.clock, k >= 1;
        let n = m.clock as nat;
        lemma_run_split(m, rs, n);
        assert(run(m, rs.take(n as int)) is Ok);
        lemma_frame_timers(m, rs.take(n as int));
        let m1 = run(m, rs.take(n as int))->Ok_0;
        assert(rs.skip(n as int).len() == (k - 1) * m.clock) by (nonlinear_arith)
            requires rs.len() == k * m.clock, rs.skip(n as int).len() == rs.len() - n, n == m.clock;
        lemma_frames_timers(m1, rs.skip(n as int), (k - 1) as nat);
    }
}

proof fn lemma_execute_draw(m: Machine, x: usize, y: usize, n: usize, rnd: u8)
    requires
        may_draw(m),
    ensures
        execute(m, Instr::Draw { x, y, n }, rnd) == draw_sprite(Machine { halting: false, ..m }, x as int, y as int, n),
{
    reveal(execute);
}

/// Idempotent XOR draw, for two steps of the machine: where the instruction that
/// a step executes is `Dxyn` on a variant that never holds a draw back, and the
/// next instruction is the same `Dxyn`, the second step gives every plane row
/// back, leaves the machine running, and of the registers changes only VF. The
/// coordinates must not come from VF, and every row must lie within what the
/// resolution shows.
pub proof fn lemma_draw_steps_twice_restore(m: Machine, x: usize, y: usize, n: usize, rnd1: u8, rnd2: u8)
    requires
        m.wf(),
        m.target == Target::SuperModern || m.target == Target::XO,
        x < 15,
        y < 15,
        n < 16,
        m.high_res || forall|j: int| 0 <= j < m.active.len() ==> left_half_only(#[trigger] m.active[j]),
        !fetch_fault(m),
        decode(current_op(m), m.target) == Some(Instr::Draw { x, y, n }),
        step(m, rnd1) is Ok,
        !fetch_fault(step(m, rnd1)->Ok_0.0),
        decode(current_op(step(m, rnd1)->Ok_0.0), m.target) == Some(Instr::Draw { x, y, n }),
        step(step(m, rnd1)->Ok_0.0, rnd2) is Ok,
    ensures
        step(step(m, rnd1)->Ok_0.0, rnd2)->Ok_0.0.active == m.active,
        step(step(m, rnd1)->Ok_0.0, rnd2)->Ok_0.0.v == m.v.update(15, step(step(m, rnd1)->Ok_0.0, rnd2)->Ok_0.0.v[15]),
        !step(step(m, rnd1)->Ok_0.0, rnd2)->Ok_0.0.halting,
{
    reveal(step);
    let op = current_op(m);
    let ma = Machine {
        remaining: (m.remaining - 1) as u32,
        pc: if m.halting { m.pc } else { (m.pc + 2) as usize },
        ..m
    };
    lemma_execute_draw(ma, x, y, n, rnd1);
    let da = Machine { halting: false, ..ma };
    lemma_draw_sprite_effect(da, x as int, y as int, n);
    let m1 = step(m, rnd1)->Ok_0.0;
    let op1 = current_op(m1);
    let mb = Machine {
        remaining: (m1.remaining - 1) as u32,
        pc: if m1.halting { m1.pc } else { (m1.pc + 2) as usize },
        ..m1
    };
    lemma_execute_draw(mb, x, y, n, rnd2);
    let db = Machine { halting: false, ..mb };
    lemma_draw_sprite_effect(db, x as int, y as int, n);
    let s = sprite_layout(m.target, m.high_res, m.v[x as int], m.v[y as int], n, m.i);
    assert(s.wf());
    assert(db.v[x as int] == m.v[x as int] && db.v[y as int] == m.v[y as int]);
    lemma_passes_twice(m.active, m.mem, s, m.enabled_planes);
    let m2 = step(m1, rnd2)->Ok_0.0;
    assert(m2.v =~= m.v.update(15, m2.v[15]));
}

} // verus!
