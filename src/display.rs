use vstd::prelude::*;

use crate::color::Color;

verus! {

/// Rows of the device's pixel matrix.
pub const LIGHTHOUSE_ROWS: usize = 28;

/// Columns of the device's pixel matrix.
pub const LIGHTHOUSE_COLS: usize = 14;

/// Pixels of the device's pixel matrix.
pub const LIGHTHOUSE_SIZE: usize = LIGHTHOUSE_ROWS * LIGHTHOUSE_COLS;

/// The supplied pixel sequence does not have `ROWS * COLS` elements.
#[derive(Clone, Copy, Debug, PartialEq, Eq, Structural)]
pub struct ShapeError {
    pub expected: usize,
    pub actual: usize,
}

/// Why a byte payload is not a frame.
#[derive(Clone, Copy, Debug, PartialEq, Eq, Structural)]
pub enum DecodeError {
    /// The payload's length is not a multiple of 3.
    BadLength,
    /// The payload holds whole pixels, but not `ROWS * COLS` of them.
    ShapeMismatch,
}

/// Channel `k` of a color: 0 is red, 1 is green, 2 is blue.
pub open spec fn channel(c: Color, k: int) -> u8 {
    if k == 0 {
        c.red
    } else if k == 1 {
        c.green
    } else {
        c.blue
    }
}

/// The wire payload of a pixel sequence: three bytes per pixel, red, green
/// then blue, pixels in sequence order.
pub open spec fn encode_pixels(p: Seq<Color>) -> Seq<u8> {
    Seq::new(3 * p.len(), |j: int| channel(p[j / 3], j % 3))
}

/// The pixels held by the whole triples of a byte payload.
pub open spec fn decode_pixels(b: Seq<u8>) -> Seq<Color> {
    Seq::new(b.len() / 3, |i: int| Color { red: b[3 * i], green: b[3 * i + 1], blue: b[3 * i + 2] })
}

/// One snapshot of a `ROWS` x `COLS` pixel matrix, stored row by row:
/// pixel `i` is at row `i / COLS`, column `i % COLS`.
#[derive(Clone, Debug, Hash)]
pub struct Display<const ROWS: usize, const COLS: usize> {
    pixels: Vec<Color>,
}

/// A frame of the device's own shape.
pub type LighthouseDisplay = Display<LIGHTHOUSE_ROWS, LIGHTHOUSE_COLS>;

impl<const ROWS: usize, const COLS: usize> View for Display<ROWS, COLS> {
    type V = Seq<Color>;

    closed spec fn view(&self) -> Seq<Color> {
        self.pixels@
    }
}

impl<const ROWS: usize, const COLS: usize> Display<ROWS, COLS> {
    /// Number of pixels of a frame of this shape.
    pub open spec fn size() -> nat {
        ROWS as nat * COLS as nat
    }

    /// A frame of this shape, and its wire payload, fit in memory.
    pub open spec fn fits() -> bool {
        3 * Self::size() <= usize::MAX
    }

    /// The frame holds exactly one color per pixel of the matrix.
    pub open spec fn wf(&self) -> bool {
        self@.len() == Self::size() && Self::fits()
    }

    /// Index of the pixel at column `x`, row `y`.
    pub open spec fn index_of(x: int, y: int) -> int {
        y * COLS as int + x
    }

    /// What decoding a payload gives for this shape.
    pub open spec fn decode_spec(b: Seq<u8>) -> Result<Seq<Color>, DecodeError> {
        if b.len() % 3 != 0 {
            Err(DecodeError::BadLength)
        } else if b.len() / 3 != Self::size() {
            Err(DecodeError::ShapeMismatch)
        } else {
            Ok(decode_pixels(b))
        }
    }

    /// Builds a frame from its pixels in row-major order.
    pub fn new(pixels: Vec<Color>) -> (r: Result<Self, ShapeError>)
        requires
            Self::fits(),
        ensures
            pixels@.len() == Self::size() <==> r is Ok,
            r matches Ok(d) ==> d.wf() && d@ == pixels@,
            r matches Err(e) ==> e.expected == Self::size() && e.actual == pixels@.len(),
    {
        let size = Self::pixel_count();
        let n = pixels.len();
        if n == size {
            Ok(Display { pixels })
        } else {
            Err(ShapeError { expected: size, actual: n })
        }
    }

    /// Builds a frame whose pixels all have `color`.
    pub fn fill(color: Color) -> (r: Self)
        requires
            Self::fits(),
        ensures
            r.wf(),
            r@ == Seq::new(Self::size(), |i: int| color),
    {
        let size = Self::pixel_count();
        let mut pixels: Vec<Color> = Vec::with_capacity(size);
        let mut i: usize = 0;
        while i < size
            invariant
                i <= size,
                size == Self::size(),
                pixels@ == Seq::new(i as nat, |k: int| color),
            decreases size - i,
        {
            pixels.push(color);
            i += 1;
        }
        Display { pixels }
    }

    /// Builds a frame by asking `f(x, y)` for the pixel at column `x`, row
    /// `y`, row by row and left to right within a row.
    pub fn generate<F: Fn(usize, usize) -> Color>(f: F) -> (r: Self)
        requires
            Self::fits(),
            forall|x: usize, y: usize| x < COLS && y < ROWS ==> f.requires((x, y)),
        ensures
            r.wf(),
            forall|x: usize, y: usize|
                x < COLS && y < ROWS ==> f.ensures((x, y), #[trigger] r@[Self::index_of(x as int, y as int)]),
    {
        proof {
            lemma_mul_bound(ROWS as int, COLS as int);
        }
        let mut pixels: Vec<Color> = Vec::with_capacity(Self::pixel_count());
        let mut y: usize = 0;
        while y < ROWS
            invariant
                Self::fits(),
                y <= ROWS,
                pixels@.len() == y * COLS,
                forall|x: usize, y: usize| x < COLS && y < ROWS ==> f.requires((x, y)),
                forall|i: int| 0 <= i < pixels@.len() ==> f.ensures(
                    ((i % COLS as int) as usize, (i / COLS as int) as usize),
                    pixels@[i],
                ),
            decreases ROWS - y,
        {
            proof {
                lemma_mul_bound(y + 1, COLS as int);
                lemma_mul_mono(y + 1, ROWS as int, COLS as int);
            }
            let mut x: usize = 0;
            while x < COLS
                invariant
                    Self::fits(),
                    y < ROWS,
                    x <= COLS,
                    (y + 1) * COLS <= ROWS * COLS,
                    pixels@.len() == y * COLS + x,
                    forall|x: usize, y: usize| x < COLS && y < ROWS ==> f.requires((x, y)),
                    forall|i: int| 0 <= i < pixels@.len() ==> f.ensures(
                        ((i % COLS as int) as usize, (i / COLS as int) as usize),
                        pixels@[i],
                    ),
                decreases COLS - x,
            {
                let c = f(x, y);
                proof {
                    lemma_div_mod_row(y as int, x as int, COLS as int);
                }
                pixels.push(c);
                x += 1;
            }
            assert((y + 1) * COLS == y * COLS + COLS) by (nonlinear_arith);
            y += 1;
        }
        let r = Display { pixels };
        assert forall|x: usize, y: usize| x < COLS && y < ROWS implies f.ensures(
            (x, y),
            #[trigger] r@[Self::index_of(x as int, y as int)],
        ) by {
            lemma_div_mod_row(y as int, x as int, COLS as int);
            lemma_mul_mono(y + 1, ROWS as int, COLS as int);
        }
        r
    }

    /// The wire payload of this frame: three bytes per pixel, red, green then
    /// blue, pixels in row-major order.
    pub fn encode(&self) -> (r: Vec<u8>)
        requires
            self.wf(),
        ensures
            r@ == encode_pixels(self@),
            r@.len() == 3 * Self::size(),
    {
        let n = self.pixels.len();
        let mut bytes: Vec<u8> = Vec::with_capacity(3 * n);
        let mut i: usize = 0;
        while i < n
            invariant
                n == self@.len(),
                3 * n <= usize::MAX,
                i <= n,
                bytes@ =~= encode_pixels(self@.take(i as int)),
            decreases n - i,
        {
            let c = self.pixels[i];
            bytes.push(c.red);
            bytes.push(c.green);
            bytes.push(c.blue);
            proof {
                assert(self@.take(i + 1) =~= self@.take(i as int).push(c));
                lemma_encode_push(self@.take(i as int), c);
            }
            i += 1;
        }
        proof {
            assert(self@.take(n as int) =~= self@);
        }
        bytes
    }

    /// Reads a frame back from its wire payload.
    pub fn decode(bytes: &[u8]) -> (r: Result<Self, DecodeError>)
        ensures
            bytes@.len() % 3 != 0 <==> r matches Err(DecodeError::BadLength),
            bytes@.len() % 3 == 0 && bytes@.len() / 3 != Self::size()
                <==> r matches Err(DecodeError::ShapeMismatch),
            r matches Ok(d) ==> d.wf() && Self::decode_spec(bytes@) == Ok::<Seq<Color>, DecodeError>(d@),
            r matches Err(e) ==> Self::decode_spec(bytes@) == Err::<Seq<Color>, DecodeError>(e),
    {
        let len = bytes.len();
        if len % 3 != 0 {
            return Err(DecodeError::BadLength);
        }
        let count = len / 3;
        match ROWS.checked_mul(COLS) {
            Some(size) if size == count => {},
            _ => {
                return Err(DecodeError::ShapeMismatch);
            },
        }
        let mut pixels: Vec<Color> = Vec::with_capacity(count);
        let mut i: usize = 0;
        while i < count
            invariant
                count == len / 3,
                len == bytes@.len(),
                len % 3 == 0,
                i <= count,
                pixels@ =~= decode_pixels(bytes@).take(i as int),
            decreases count - i,
        {
            let c = Color::new(bytes[3 * i], bytes[3 * i + 1], bytes[3 * i + 2]);
            pixels.push(c);
            i += 1;
        }
        proof {
            assert(decode_pixels(bytes@).take(count as int) =~= decode_pixels(bytes@));
        }
        Ok(Display { pixels })
    }

    fn pixel_count() -> (n: usize)
        requires
            Self::fits(),
        ensures
            n == Self::size(),
    {
        ROWS * COLS
    }
}

impl<const ROWS: usize, const COLS: usize> PartialEq for Display<ROWS, COLS> {
    fn eq(&self, other: &Self) -> (r: bool) {
        let n = self.pixels.len();
        if n != other.pixels.len() {
            return false;
        }
        let mut i: usize = 0;
        while i < n
            invariant
                n == self@.len(),
                n == other@.len(),
                i <= n,
                self@.take(i as int) == other@.take(i as int),
            decreases n - i,
        {
            if self.pixels[i] != other.pixels[i] {
                return false;
            }
            assert(self@.take(i + 1) =~= self@.take(i as int).push(self@[i as int]));
            assert(other@.take(i + 1) =~= other@.take(i as int).push(other@[i as int]));
            i += 1;
        }
        assert(self@ =~= self@.take(n as int));
        assert(other@ =~= other@.take(n as int));
        true
    }
}

impl<const ROWS: usize, const COLS: usize> vstd::std_specs::cmp::PartialEqSpecImpl for Display<ROWS, COLS> {
    open spec fn obeys_eq_spec() -> bool {
        true
    }

    open spec fn eq_spec(&self, other: &Self) -> bool {
        self@ == other@
    }
}

impl<const ROWS: usize, const COLS: usize> Eq for Display<ROWS, COLS> {

}

/// Decoding the payload of a valid frame gives that frame back.
pub proof fn lemma_round_trip<const ROWS: usize, const COLS: usize>(f: Display<ROWS, COLS>)
    requires
        f.wf(),
    ensures
        Display::<ROWS, COLS>::decode_spec(encode_pixels(f@)) == Ok::<Seq<Color>, DecodeError>(f@),
{
    let b = encode_pixels(f@);
    let n = f@.len() as int;
    assert(b.len() == 3 * n);
    assert((3 * n) % 3 == 0 && (3 * n) / 3 == n);
    assert forall|i: int| 0 <= i < n implies #[trigger] decode_pixels(b)[i] == f@[i] by {
        assert((3 * i) / 3 == i && (3 * i) % 3 == 0);
        assert((3 * i + 1) / 3 == i && (3 * i + 1) % 3 == 1);
        assert((3 * i + 2) / 3 == i && (3 * i + 2) % 3 == 2);
    }
    assert(decode_pixels(b) =~= f@);
}

proof fn lemma_mul_bound(a: int, b: int)
    requires
        0 <= a,
        0 <= b,
    ensures
        0 <= a * b,
{
    assert(0 <= a * b) by (nonlinear_arith)
        requires
            0 <= a,
            0 <= b,
    ;
}

proof fn lemma_mul_mono(a: int, b: int, c: int)
    requires
        0 <= a <= b,
        0 <= c,
    ensures
        a * c <= b * c,
{
    assert(a * c <= b * c) by (nonlinear_arith)
        requires
            0 <= a <= b,
            0 <= c,
    ;
}

/// Index `y * cols + x` of a row-major matrix names column `x`, row `y`.
proof fn lemma_div_mod_row(y: int, x: int, cols: int)
    requires
        0 <= y,
        0 <= x < cols,
    ensures
        (y * cols + x) % cols == x,
        (y * cols + x) / cols == y,
        (y + 1) * cols == y * cols + cols,
{
    vstd::arithmetic::div_mod::lemma_fundamental_div_mod_converse(y * cols + x, cols, y, x);
    assert((y + 1) * cols == y * cols + cols) by (nonlinear_arith);
}

proof fn lemma_encode_push(p: Seq<Color>, c: Color)
    ensures
        encode_pixels(p.push(c)) =~= encode_pixels(p).push(c.red).push(c.green).push(c.blue),
{
    let n = p.len() as int;
    assert forall|j: int| 0 <= j < 3 * n + 3 implies #[trigger] encode_pixels(p.push(c))[j]
        == encode_pixels(p).push(c.red).push(c.green).push(c.blue)[j] by {
        if j < 3 * n {
            assert(j / 3 < n);
        } else {
            assert(j / 3 == n);
        }
    }
}

} // verus!
