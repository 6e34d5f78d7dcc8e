use vstd::prelude::*;
use crate::machine::{MEM_SIZE, HEIGHT, PLANE_COUNT};
use crate::display::{LEFT_HALF, LEFT_16};
use crate::target::Target;

verus! {

/// Where and how a sprite is drawn, worked out once for all enabled planes.
#[derive(Clone, Copy, Debug)]
pub struct Sprite {
    /// Column of the sprite's left edge, already wrapped into the screen.
    pub xc: usize,
    /// Row of the sprite's top edge, already wrapped into the screen.
    pub yc: usize,
    /// Screen width in this resolution.
    pub x_mod: usize,
    /// Screen height in this resolution.
    pub y_mod: usize,
    /// 8 or 16 pixels.
    pub width: usize,
    /// Rows of sprite data for one plane.
    pub height: usize,
    /// Rows actually drawn: all of them where the sprite wraps, else those above the bottom edge.
    pub rows: usize,
    pub high_res: bool,
    /// XO-CHIP: rows and columns that run off the screen come back on the other side.
    pub wraps: bool,
    /// Address of the sprite data (register I).
    pub addr: usize,
}

/// How a `Dxyn` at register values `vx`, `vy` is laid out under `t`.
pub open spec fn sprite_layout(t: Target, high_res: bool, vx: u8, vy: u8, n: usize, addr: usize) -> Sprite {
    let x_mod: usize = if high_res { 128 } else { 64 };
    let y_mod: usize = if high_res { 64 } else { 32 };
    let tall = t != Target::Chip && n == 0;
    let height: usize = if tall { 16 } else { n };
    let width: usize = if tall && (t != Target::SuperLegacy || high_res) { 16 } else { 8 };
    let yc = (vy as usize) % y_mod;
    let wraps = t == Target::XO;
    Sprite {
        xc: (vx as usize) % x_mod,
        yc,
        x_mod,
        y_mod,
        width,
        height,
        rows: if wraps || yc + height <= y_mod { height } else { (y_mod - yc) as usize },
        high_res,
        wraps,
        addr,
    }
}

impl Sprite {
    pub open spec fn wf(self) -> bool {
        &&& (self.high_res ==> self.x_mod == 128 && self.y_mod == 64)
        &&& (!self.high_res ==> self.x_mod == 64 && self.y_mod == 32)
        &&& self.xc < self.x_mod
        &&& self.yc < self.y_mod
        &&& (self.width == 8 || self.width == 16)
        &&& self.height <= 16
        &&& self.rows <= self.height
        &&& self.yc + self.rows <= self.y_mod + self.y_mod
        &&& (!self.wraps ==> self.yc + self.rows <= self.y_mod)
    }

    /// Bytes per sprite row.
    pub open spec fn row_bytes(self) -> int {
        self.width as int / 8
    }

    /// Address of row `i` of the sprite data for the `offset`-th enabled plane.
    pub open spec fn row_addr(self, offset: int, i: int) -> int {
        self.addr + self.row_bytes() * (offset * self.height + i)
    }

    /// Whether the data of the `offset`-th enabled plane lies in memory, as far as it is read.
    pub open spec fn fits(self, offset: int) -> bool {
        self.rows == 0 || self.row_addr(offset, self.rows as int) <= MEM_SIZE
    }

    /// Screen row of sprite row `i`.
    pub open spec fn screen_row(self, i: int) -> int {
        if self.yc + i < self.y_mod {
            self.yc + i
        } else {
            self.yc + i - self.y_mod
        }
    }
}

/// Bits of sprite row `i` for the `offset`-th enabled plane, leftmost pixel highest.
pub open spec fn sprite_bits(mem: Seq<u8>, s: Sprite, offset: int, i: int) -> u128 {
    let a = s.row_addr(offset, i);
    if s.width == 16 {
        ((mem[a] as u128) << 8u128) | (mem[a + 1] as u128)
    } else {
        mem[a] as u128
    }
}

/// Sprite bits moved so that the leftmost lands at column `s.xc` (bit `127 - xc`);
/// what passes the right edge of the row is lost.
pub open spec fn placed(bits: u128, s: Sprite) -> u128 {
    let shift = 127 - s.xc;
    if shift < s.width - 1 {
        bits >> ((s.width - 1 - shift) as u128)
    } else {
        bits << ((shift - (s.width - 1)) as u128)
    }
}

/// On XO-CHIP, the columns that pass the right edge of the screen, brought in at
/// the left edge (the sprite bits rotated right into the top sixteen bits).
pub open spec fn wrapped(bits: u128, s: Sprite) -> u128 {
    if s.wraps && s.xc + s.width > s.x_mod {
        (bits << ((128 - (s.xc + s.width - s.x_mod)) as u128)) & LEFT_16
    } else {
        0
    }
}

/// A row after the sprite row `bits` was drawn onto it by XOR.
pub open spec fn drawn_row(cur: u128, bits: u128, s: Sprite) -> u128 {
    let r = cur ^ placed(bits, s) ^ wrapped(bits, s);
    if s.high_res {
        r
    } else {
        r & LEFT_HALF
    }
}

/// Whether drawing turned off a pixel that was on.
pub open spec fn collides(cur: u128, new: u128) -> bool {
    (!new & cur) != 0
}

/// Planes and collision flag after the first `k` sprite rows were drawn on plane `p`
/// from the data of the `offset`-th enabled plane.
pub open spec fn draw_rows(planes: Seq<u128>, mem: Seq<u8>, s: Sprite, p: int, offset: int, k: nat) -> (Seq<u128>, bool)
    decreases k,
{
    if k == 0 {
        (planes, false)
    } else {
        let (pl, hit) = draw_rows(planes, mem, s, p, offset, (k - 1) as nat);
        let at = p * HEIGHT + s.screen_row(k - 1);
        let cur = pl[at];
        let new = drawn_row(cur, sprite_bits(mem, s, offset, k - 1), s);
        (pl.update(at, new), hit || collides(cur, new))
    }
}

/// Lays out a sprite.
pub fn layout(t: Target, high_res: bool, vx: u8, vy: u8, n: usize, addr: usize) -> (s: Sprite)
    requires
        n < 16,
    ensures
        s == sprite_layout(t, high_res, vx, vy, n, addr),
        s.wf(),
{
    let x_mod: usize = if high_res { 128 } else { 64 };
    let y_mod: usize = if high_res { 64 } else { 32 };
    let tall = t != Target::Chip && n == 0;
    let height: usize = if tall { 16 } else { n };
    let width: usize = if tall && (t != Target::SuperLegacy || high_res) { 16 } else { 8 };
    let yc = (vy as usize) % y_mod;
    let wraps = t == Target::XO;
    Sprite {
        xc: (vx as usize) % x_mod,
        yc,
        x_mod,
        y_mod,
        width,
        height,
        rows: if wraps || yc + height <= y_mod { height } else { y_mod - yc },
        high_res,
        wraps,
        addr,
    }
}

fn row_bits(mem: &Vec<u8>, s: Sprite, offset: usize, i: usize) -> (r: u128)
    requires
        mem@.len() == MEM_SIZE,
        s.wf(),
        offset < PLANE_COUNT,
        i < s.rows,
        s.fits(offset as int),
    ensures
        r == sprite_bits(mem@, s, offset as int, i as int),
{
    assert(s.row_addr(offset as int, i as int) + s.row_bytes() <= s.row_addr(offset as int, s.rows as int)) by (nonlinear_arith)
        requires
            i < s.rows,
            s.row_bytes() >= 1,
            s.row_addr(offset as int, i as int) == s.addr + s.row_bytes() * (offset * s.height + i),
            s.row_addr(offset as int, s.rows as int) == s.addr + s.row_bytes() * (offset * s.height + s.rows),
    ;
    assert(offset * s.height <= 16) by (nonlinear_arith)
        requires
            offset < 2,
            s.height <= 16,
    ;
    let a = s.addr + (s.width / 8) * (offset * s.height + i);
    if s.width == 16 {
        ((mem[a] as u128) << 8u128) | (mem[a + 1] as u128)
    } else {
        mem[a] as u128
    }
}

fn drawn(cur: u128, bits: u128, s: Sprite) -> (r: u128)
    requires
        s.wf(),
    ensures
        r == drawn_row(cur, bits, s),
{
    let shift = 127 - s.xc;
    let placed_bits = if shift < s.width - 1 {
        bits >> ((s.width - 1 - shift) as u128)
    } else {
        bits << ((shift - (s.width - 1)) as u128)
    };
    let wrap_bits = if s.wraps && s.xc + s.width > s.x_mod {
        (bits << ((128 - (s.xc + s.width - s.x_mod)) as u128)) & LEFT_16
    } else {
        0
    };
    let r = cur ^ placed_bits ^ wrap_bits;
    if s.high_res {
        r
    } else {
        r & LEFT_HALF
    }
}

/// Draws the sprite on plane `p` from the data of the `offset`-th enabled plane,
/// and tells whether a pixel was turned off.
pub fn draw_plane(planes: &mut Vec<u128>, mem: &Vec<u8>, s: Sprite, p: usize, offset: usize) -> (hit: bool)
    requires
        old(planes)@.len() == PLANE_COUNT * HEIGHT,
        mem@.len() == MEM_SIZE,
        s.wf(),
        p < PLANE_COUNT,
        offset < PLANE_COUNT,
        s.fits(offset as int),
    ensures
        (final(planes)@, hit) == draw_rows(old(planes)@, mem@, s, p as int, offset as int, s.rows as nat),
        final(planes)@.len() == PLANE_COUNT * HEIGHT,
{
    let ghost start = planes@;
    let mut hit = false;
    let mut k: usize = 0;
    while k < s.rows
        invariant
            k <= s.rows,
            s.wf(),
            p < PLANE_COUNT,
            offset < PLANE_COUNT,
            s.fits(offset as int),
            mem@.len() == MEM_SIZE,
            planes@.len() == PLANE_COUNT * HEIGHT,
            (planes@, hit) == draw_rows(start, mem@, s, p as int, offset as int, k as nat),
        decreases s.rows - k,
    {
        let r = if s.yc + k < s.y_mod { s.yc + k } else { s.yc + k - s.y_mod };
        let bits = row_bits(mem, s, offset, k);
        let at = p * HEIGHT + r;
        let cur = planes[at];
        let new = drawn(cur, bits, s);
        planes.set(at, new);
        hit = hit || (!new & cur) != 0;
        k = k + 1;
    }
    hit
}

/// Whether a row holds no pixel outside the low-resolution area.
pub open spec fn left_half_only(row: u128) -> bool {
    row & 0xFFFF_FFFF_FFFF_FFFFu128 == 0
}

/// The sprite row drawn on screen row `r` (for `r` below `s.y_mod`).
pub open spec fn sprite_row_at(s: Sprite, r: int) -> int {
    if r >= s.yc { r - s.yc } else { r + s.y_mod - s.yc }
}

/// Whether plane index `j` is one of the rows that the first `k` sprite rows land on in plane `p`.
pub open spec fn touched(s: Sprite, p: int, k: int, j: int) -> bool {
    &&& p * HEIGHT <= j < p * HEIGHT + s.y_mod
    &&& sprite_row_at(s, j - p * HEIGHT) < k
}

/// Drawing a sprite row twice onto a row gives the row back, where the row is
/// within what the resolution shows.
pub proof fn lemma_row_drawn_twice(c: u128, b: u128, s: Sprite)
    requires
        s.high_res || left_half_only(c),
    ensures
        drawn_row(drawn_row(c, b, s), b, s) == c,
{
    let p = placed(b, s);
    let w = wrapped(b, s);
    assert(((c ^ p ^ w) ^ p ^ w) == c) by (bit_vector);
    assert(c & 0xFFFF_FFFF_FFFF_FFFFu128 == 0 ==> ((((c ^ p ^ w) & 0xFFFF_FFFF_FFFF_FFFF_0000_0000_0000_0000u128) ^ p ^ w)
        & 0xFFFF_FFFF_FFFF_FFFF_0000_0000_0000_0000u128) == c) by (bit_vector);
}

/// What the first `k` rows of a sprite pass leave at each plane index: the drawn
/// row where a sprite row landed, the old row elsewhere.
pub proof fn lemma_draw_rows_at(planes: Seq<u128>, mem: Seq<u8>, s: Sprite, p: int, offset: int, k: nat)
    requires
        s.wf(),
        0 <= p < PLANE_COUNT,
        k <= s.rows,
        planes.len() == PLANE_COUNT * HEIGHT,
    ensures
        draw_rows(planes, mem, s, p, offset, k).0.len() == planes.len(),
        forall|j: int| 0 <= j < planes.len() ==> #[trigger] draw_rows(planes, mem, s, p, offset, k).0[j] == if touched(s, p, k as int, j) {
            drawn_row(planes[j], sprite_bits(mem, s, offset, sprite_row_at(s, j - p * HEIGHT)), s)
        } else {
            planes[j]
        },
    decreases k,
{
    if k > 0 {
        lemma_draw_rows_at(planes, mem, s, p, offset, (k - 1) as nat);
        let at = p * HEIGHT + s.screen_row(k - 1);
        assert(sprite_row_at(s, at - p * HEIGHT) == k - 1);
        assert forall|j: int| 0 <= j < planes.len() && j != at implies
            (touched(s, p, k as int, j) <==> touched(s, p, k - 1, j)) by {
            if p * HEIGHT <= j < p * HEIGHT + s.y_mod && sprite_row_at(s, j - p * HEIGHT) == k - 1 {
                assert(j == at);
            }
        }
    }
}

/// Two passes of the same sprite rows over plane `p` give the planes back, where
/// every row is within what the resolution shows.
pub proof fn lemma_draw_rows_twice(planes: Seq<u128>, mem: Seq<u8>, s: Sprite, p: int, offset: int)
    requires
        s.wf(),
        0 <= p < PLANE_COUNT,
        planes.len() == PLANE_COUNT * HEIGHT,
        s.high_res || forall|j: int| 0 <= j < planes.len() ==> left_half_only(#[trigger] planes[j]),
    ensures
        draw_rows(draw_rows(planes, mem, s, p, offset, s.rows as nat).0, mem, s, p, offset, s.rows as nat).0 == planes,
{
    let once = draw_rows(planes, mem, s, p, offset, s.rows as nat).0;
    let twice = draw_rows(once, mem, s, p, offset, s.rows as nat).0;
    lemma_draw_rows_at(planes, mem, s, p, offset, s.rows as nat);
    lemma_draw_rows_at(once, mem, s, p, offset, s.rows as nat);
    assert forall|j: int| 0 <= j < planes.len() implies twice[j] == planes[j] by {
        if touched(s, p, s.rows as int, j) {
            let b = sprite_bits(mem, s, offset, sprite_row_at(s, j - p * HEIGHT));
            assert(once[j] == drawn_row(planes[j], b, s));
            lemma_row_drawn_twice(planes[j], b, s);
        }
    }
    assert(twice =~= planes);
}

} // verus!
