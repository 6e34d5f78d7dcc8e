use vstd::prelude::*;
use crate::machine::{Chip8, Machine, WIDTH, HEIGHT, PLANE_COUNT};

verus! {

/// Whether pixel `x` (counted from the right, bit `x`) of `row` is on.
pub open spec fn pixel_on(row: u128, x: int) -> bool {
    (row >> (x as u128)) & 1 != 0
}

/// The published row under output pixel `i` of a `WIDTH` by `HEIGHT` image, and
/// the bit of that row; in low resolution each stored pixel covers two by two
/// output pixels.
pub open spec fn source_row(m: Machine, i: int) -> int {
    if m.high_res { i / WIDTH as int } else { i / WIDTH as int / 2 }
}

pub open spec fn source_bit(m: Machine, i: int) -> int {
    if m.high_res { WIDTH - 1 - i % WIDTH as int } else { WIDTH - 1 - (i % WIDTH as int) / 2 }
}

/// The colour of output pixel `i`: one for pixels on in both planes, one for
/// plane 0 only, one for plane 1 only, and the background.
pub open spec fn pixel_rgba(m: Machine, i: int) -> Seq<u8> {
    let r = source_row(m, i);
    let x = source_bit(m, i);
    let on0 = pixel_on(m.buffer[r], x);
    let on1 = pixel_on(m.buffer[HEIGHT + r], x);
    if on0 && on1 {
        seq![0x99u8, 0x66u8, 0x00u8, 0xffu8]
    } else if on0 {
        seq![0xffu8, 0xccu8, 0x00u8, 0xffu8]
    } else if on1 {
        seq![0xffu8, 0x66u8, 0x00u8, 0xffu8]
    } else {
        seq![0x66u8, 0x22u8, 0x00u8, 0xffu8]
    }
}

/// The text form of a plane: one line per row, leftmost pixel first, '▮' for on
/// and '▯' for off, each line ended by a newline.
pub open spec fn plane_text(plane: Seq<u128>) -> Seq<char> {
    Seq::new((HEIGHT * (WIDTH + 1)) as nat, |k: int|
        if k % (WIDTH as int + 1) == WIDTH as int {
            '\n'
        } else if pixel_on(plane[k / (WIDTH as int + 1)], WIDTH - 1 - k % (WIDTH as int + 1)) {
            '▮'
        } else {
            '▯'
        })
}

/// Relies on String::push: appends one character.
#[verifier::external_body]
fn push_char(s: &mut String, c: char)
    ensures
        final(s)@ == old(s)@.push(c),
{
    s.push(c)
}

/// The text form of the first `HEIGHT` rows of `plane`.
pub fn pretty_plane(plane: &[u128]) -> (r: String)
    requires
        plane@.len() >= HEIGHT,
    ensures
        r@ == plane_text(plane@),
{
    let mut out = String::new();
    let ghost want = plane_text(plane@);
    let mut row: usize = 0;
    while row < HEIGHT
        invariant
            row <= HEIGHT,
            plane@.len() >= HEIGHT,
            want == plane_text(plane@),
            out@.len() == row * (WIDTH + 1),
            forall|k: int| 0 <= k < out@.len() ==> out@[k] == #[trigger] want[k],
        decreases HEIGHT - row,
    {
        let bits = plane[row];
        let mut col: usize = 0;
        while col < WIDTH
            invariant
                row < HEIGHT,
                col <= WIDTH,
                plane@.len() >= HEIGHT,
                bits == plane@[row as int],
                want == plane_text(plane@),
                out@.len() == row * (WIDTH + 1) + col,
                forall|k: int| 0 <= k < out@.len() ==> out@[k] == #[trigger] want[k],
            decreases WIDTH - col,
        {
            let shift = (WIDTH - 1 - col) as u128;
            let c = if (bits >> shift) & 1 != 0 { '▮' } else { '▯' };
            proof {
                let k = row * (WIDTH + 1) + col;
                assert(k / (WIDTH as int + 1) == row) by (nonlinear_arith)
                    requires k == row * (WIDTH + 1) + col, col < WIDTH, WIDTH == 128;
                assert(k % (WIDTH as int + 1) == col) by (nonlinear_arith)
                    requires k == row * (WIDTH + 1) + col, col < WIDTH, WIDTH == 128;
                assert(k < HEIGHT * (WIDTH + 1)) by (nonlinear_arith)
                    requires k == row * (WIDTH + 1) + col, col < WIDTH, row < HEIGHT, WIDTH == 128, HEIGHT == 64;
            }
            push_char(&mut out, c);
            col = col + 1;
        }
        proof {
            let k = row * (WIDTH + 1) + WIDTH;
            assert(k % (WIDTH as int + 1) == WIDTH) by (nonlinear_arith)
                requires k == row * (WIDTH + 1) + WIDTH, WIDTH == 128;
            assert(k < HEIGHT * (WIDTH + 1)) by (nonlinear_arith)
                requires k == row * (WIDTH + 1) + WIDTH, row < HEIGHT, WIDTH == 128, HEIGHT == 64;
        }
        push_char(&mut out, '\n');
        row = row + 1;
        assert(out@.len() == row * (WIDTH + 1)) by (nonlinear_arith)
            requires out@.len() == (row - 1) * (WIDTH + 1) + WIDTH + 1;
    }
    assert(out@ =~= want);
    out
}

impl Chip8 {
    /// Pixels in a row of the display.
    pub fn get_width(&self) -> (r: usize)
        ensures
            r == WIDTH,
    {
        WIDTH
    }

    /// Rows of the display.
    pub fn get_height(&self) -> (r: usize)
        ensures
            r == HEIGHT,
    {
        HEIGHT
    }

    /// The rows of published plane `p`.
    pub fn buffer_plane(&self, p: usize) -> (r: Vec<u128>)
        requires
            self.wf(),
            p < PLANE_COUNT,
        ensures
            r@ == self@.buffer.subrange(p * HEIGHT, (p + 1) * HEIGHT),
    {
        let mut r: Vec<u128> = Vec::new();
        let mut k: usize = 0;
        while k < HEIGHT
            invariant
                k <= HEIGHT,
                p < PLANE_COUNT,
                self.buffer@.len() == PLANE_COUNT * HEIGHT,
                r@ == self@.buffer.subrange(p * HEIGHT, p * HEIGHT + k),
            decreases HEIGHT - k,
        {
            r.push(self.buffer[p * HEIGHT + k]);
            k = k + 1;
            assert(r@ =~= self@.buffer.subrange(p * HEIGHT, p * HEIGHT + k));
        }
        r
    }

    /// Paints the published planes into `frame`, four RGBA bytes per pixel, row by
    /// row; bytes past the last whole pixel are left as they are.
    pub fn draw(&self, frame: &mut [u8])
        requires
            self.wf(),
            old(frame)@.len() <= 4 * WIDTH * HEIGHT,
        ensures
            final(frame)@.len() == old(frame)@.len(),
            forall|i: int, c: int| 0 <= i < old(frame)@.len() / 4 && 0 <= c < 4
                ==> #[trigger] final(frame)@[4 * i + c] == pixel_rgba(self@, i)[c],
            forall|k: int| 4 * (old(frame)@.len() / 4) <= k < old(frame)@.len() ==> #[trigger] final(frame)@[k] == old(frame)@[k],
    {
        let ghost start = frame@;
        let n = frame.len() / 4;
        let mut i: usize = 0;
        while i < n
            invariant
                i <= n,
                n == start.len() / 4,
                start.len() <= 4 * WIDTH * HEIGHT,
                self.wf(),
                frame@.len() == start.len(),
                forall|j: int, c: int| 0 <= j < i && 0 <= c < 4 ==> #[trigger] frame@[4 * j + c] == pixel_rgba(self@, j)[c],
                forall|k: int| 4 * i <= k < start.len() ==> #[trigger] frame@[k] == start[k],
            decreases n - i,
        {
            let (r, x) = if self.high_res {
                (i / WIDTH, WIDTH - 1 - i % WIDTH)
            } else {
                (i / WIDTH / 2, WIDTH - 1 - (i % WIDTH) / 2)
            };
            let row0 = self.buffer[r];
            let row1 = self.buffer[HEIGHT + r];
            let on0 = (row0 >> (x as u128)) & 1 != 0;
            let on1 = (row1 >> (x as u128)) & 1 != 0;
            let (c0, c1, c2, c3): (u8, u8, u8, u8) = if on0 && on1 {
                (0x99, 0x66, 0x00, 0xff)
            } else if on0 {
                (0xff, 0xcc, 0x00, 0xff)
            } else if on1 {
                (0xff, 0x66, 0x00, 0xff)
            } else {
                (0x66, 0x22, 0x00, 0xff)
            };
            frame[4 * i] = c0;
            frame[4 * i + 1] = c1;
            frame[4 * i + 2] = c2;
            frame[4 * i + 3] = c3;
            i = i + 1;
        }
    }
}

} // verus!
