use vstd::prelude::*;
use crate::machine::{MEM_SIZE, WIDTH, HEIGHT, PLANE_COUNT};

verus! {

/// The left half of a row: what a low-resolution screen shows.
pub const LEFT_HALF: u128 = 0xFFFF_FFFF_FFFF_FFFF_0000_0000_0000_0000;
/// The sixteen leftmost pixels of a row.
pub const LEFT_16: u128 = 0xFFFF_0000_0000_0000_0000_0000_0000_0000;

/// Whether bit mask `mask` enables plane `p`.
pub open spec fn plane_on(mask: u8, p: int) -> bool {
    if p == 0 {
        mask & 1u8 != 0
    } else {
        mask & 2u8 != 0
    }
}

/// Planes with every row of the enabled ones set to zero.
pub open spec fn cleared(planes: Seq<u128>, mask: u8) -> Seq<u128> {
    Seq::new(planes.len(), |k: int| if plane_on(mask, k / HEIGHT as int) { 0u128 } else { planes[k] })
}

/// Planes with each row of the enabled ones moved `amount` pixels right
/// (`right`) or left; vacated pixels are off.
pub open spec fn scrolled_sideways(planes: Seq<u128>, mask: u8, right: bool, amount: u32) -> Seq<u128> {
    Seq::new(planes.len(), |k: int|
        if !plane_on(mask, k / HEIGHT as int) {
            planes[k]
        } else if right {
            planes[k] >> amount
        } else {
            planes[k] << amount
        })
}

/// Planes with the rows of the enabled ones moved `amount` rows down; the top rows become empty.
pub open spec fn scrolled_down(planes: Seq<u128>, mask: u8, amount: int) -> Seq<u128> {
    Seq::new(planes.len(), |k: int|
        if !plane_on(mask, k / HEIGHT as int) {
            planes[k]
        } else if k % HEIGHT as int >= amount {
            planes[k - amount]
        } else {
            0u128
        })
}

/// Planes with the rows of the enabled ones moved `amount` rows up; the bottom rows become empty.
pub open spec fn scrolled_up(planes: Seq<u128>, mask: u8, amount: int) -> Seq<u128> {
    Seq::new(planes.len(), |k: int|
        if !plane_on(mask, k / HEIGHT as int) {
            planes[k]
        } else if k % HEIGHT as int + amount < HEIGHT {
            planes[k + amount]
        } else {
            0u128
        })
}

pub fn clear_planes(planes: &mut Vec<u128>, mask: u8)
    requires
        old(planes)@.len() == PLANE_COUNT * HEIGHT,
    ensures
        final(planes)@ == cleared(old(planes)@, mask),
{
    let ghost start = planes@;
    let mut k: usize = 0;
    while k < PLANE_COUNT * HEIGHT
        invariant
            start.len() == PLANE_COUNT * HEIGHT,
            planes@.len() == PLANE_COUNT * HEIGHT,
            k <= PLANE_COUNT * HEIGHT,
            forall|j: int| 0 <= j < k ==> planes@[j] == #[trigger] cleared(start, mask)[j],
            forall|j: int| k <= j < PLANE_COUNT * HEIGHT ==> planes@[j] == start[j],
        decreases PLANE_COUNT * HEIGHT - k,
    {
        let on = if k / HEIGHT == 0 { mask & 1 != 0 } else { mask & 2 != 0 };
        if on {
            planes.set(k, 0);
        }
        k = k + 1;
    }
    assert(planes@ =~= cleared(start, mask));
}

pub fn scroll_sideways(planes: &mut Vec<u128>, mask: u8, right: bool, amount: u32)
    requires
        old(planes)@.len() == PLANE_COUNT * HEIGHT,
        amount < 128,
    ensures
        final(planes)@ == scrolled_sideways(old(planes)@, mask, right, amount),
{
    let ghost start = planes@;
    let mut k: usize = 0;
    while k < PLANE_COUNT * HEIGHT
        invariant
            start.len() == PLANE_COUNT * HEIGHT,
            planes@.len() == PLANE_COUNT * HEIGHT,
            k <= PLANE_COUNT * HEIGHT,
            amount < 128,
            forall|j: int| 0 <= j < k ==> planes@[j] == #[trigger] scrolled_sideways(start, mask, right, amount)[j],
            forall|j: int| k <= j < PLANE_COUNT * HEIGHT ==> planes@[j] == start[j],
        decreases PLANE_COUNT * HEIGHT - k,
    {
        let on = if k / HEIGHT == 0 { mask & 1 != 0 } else { mask & 2 != 0 };
        if on {
            let row = planes[k];
            if right {
                planes.set(k, row >> amount);
            } else {
                planes.set(k, row << amount);
            }
        }
        k = k + 1;
    }
    assert(planes@ =~= scrolled_sideways(start, mask, right, amount));
}

pub fn scroll_down(planes: &mut Vec<u128>, mask: u8, amount: usize)
    requires
        old(planes)@.len() == PLANE_COUNT * HEIGHT,
        amount < 16,
    ensures
        final(planes)@ == scrolled_down(old(planes)@, mask, amount as int),
{
    let ghost start = planes@;
    let mut p: usize = 0;
    while p < PLANE_COUNT
        invariant
            start.len() == PLANE_COUNT * HEIGHT,
            planes@.len() == PLANE_COUNT * HEIGHT,
            p <= PLANE_COUNT,
            amount < 16,
            forall|j: int| 0 <= j < p * HEIGHT ==> planes@[j] == #[trigger] scrolled_down(start, mask, amount as int)[j],
            forall|j: int| p * HEIGHT <= j < PLANE_COUNT * HEIGHT ==> planes@[j] == start[j],
        decreases PLANE_COUNT - p,
    {
        let on = if p == 0 { mask & 1 != 0 } else { mask & 2 != 0 };
        if on {
            // Bottom row first, so that each row is read before it is overwritten.
            let mut r: usize = HEIGHT;
            while r > 0
                invariant
                    start.len() == PLANE_COUNT * HEIGHT,
                    planes@.len() == PLANE_COUNT * HEIGHT,
                    p < PLANE_COUNT,
                    r <= HEIGHT,
                    amount < 16,
                    plane_on(mask, p as int),
                    forall|j: int| 0 <= j < p * HEIGHT ==> planes@[j] == #[trigger] scrolled_down(start, mask, amount as int)[j],
                    forall|j: int| p * HEIGHT + r <= j < (p + 1) * HEIGHT ==> planes@[j] == #[trigger] scrolled_down(start, mask, amount as int)[j],
                    forall|j: int| p * HEIGHT <= j < p * HEIGHT + r ==> planes@[j] == start[j],
                    forall|j: int| (p + 1) * HEIGHT <= j < PLANE_COUNT * HEIGHT ==> planes@[j] == start[j],
                decreases r,
            {
                r = r - 1;
                if r < amount {
                    planes.set(p * HEIGHT + r, 0);
                } else {
                    let above = planes[p * HEIGHT + r - amount];
                    planes.set(p * HEIGHT + r, above);
                }
            }
        }
        p = p + 1;
    }
    assert(planes@ =~= scrolled_down(start, mask, amount as int));
}

pub fn scroll_up(planes: &mut Vec<u128>, mask: u8, amount: usize)
    requires
        old(planes)@.len() == PLANE_COUNT * HEIGHT,
        amount < 16,
    ensures
        final(planes)@ == scrolled_up(old(planes)@, mask, amount as int),
{
    let ghost start = planes@;
    let mut p: usize = 0;
    while p < PLANE_COUNT
        invariant
            start.len() == PLANE_COUNT * HEIGHT,
            planes@.len() == PLANE_COUNT * HEIGHT,
            p <= PLANE_COUNT,
            amount < 16,
            forall|j: int| 0 <= j < p * HEIGHT ==> planes@[j] == #[trigger] scrolled_up(start, mask, amount as int)[j],
            forall|j: int| p * HEIGHT <= j < PLANE_COUNT * HEIGHT ==> planes@[j] == start[j],
        decreases PLANE_COUNT - p,
    {
        let on = if p == 0 { mask & 1 != 0 } else { mask & 2 != 0 };
        if on {
            // Top row first, so that each row is read before it is overwritten.
            let mut r: usize = 0;
            while r < HEIGHT
                invariant
                    start.len() == PLANE_COUNT * HEIGHT,
                    planes@.len() == PLANE_COUNT * HEIGHT,
                    p < PLANE_COUNT,
                    r <= HEIGHT,
                    amount < 16,
                    plane_on(mask, p as int),
                    forall|j: int| 0 <= j < p * HEIGHT + r ==> planes@[j] == #[trigger] scrolled_up(start, mask, amount as int)[j],
                    forall|j: int| p * HEIGHT + r <= j < PLANE_COUNT * HEIGHT ==> planes@[j] == start[j],
                decreases HEIGHT - r,
            {
                if r + amount >= HEIGHT {
                    planes.set(p * HEIGHT + r, 0);
                } else {
                    let below = planes[p * HEIGHT + r + amount];
                    planes.set(p * HEIGHT + r, below);
                }
                r = r + 1;
            }
        }
        p = p + 1;
    }
    assert(planes@ =~= scrolled_up(start, mask, amount as int));
}

} // verus!
