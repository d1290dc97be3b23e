//! The raster that a picture is painted on.
use vstd::prelude::*;
use crate::text::{decimal, digits};
use crate::tuple::{clamped, Tuple, TupleType};

verus! {

/// `height` rows of `width` colours each.
pub struct Canvas {
    pub width: usize,
    pub height: usize,
    pub canvas: Vec<Vec<Tuple>>,
}

/// A colour as the picture file holds it: its channels held in range.
pub open spec fn in_range(c: Tuple) -> Tuple {
    Tuple { x: clamped(c.x), y: clamped(c.y), z: clamped(c.z), w: TupleType::Color }
}

impl Canvas {
    /// The text of the first `n` pixels of row `y`.
    pub open spec fn row_text(&self, y: int, n: int) -> Seq<u8>
        decreases n,
    {
        if n <= 0 {
            Seq::empty()
        } else {
            self.row_text(y, n - 1) + in_range(self.pixel(n - 1, y)).line()
        }
    }

    /// The text of the first `n` rows.
    pub open spec fn rows_text(&self, n: int) -> Seq<u8>
        decreases n,
    {
        if n <= 0 {
            Seq::empty()
        } else {
            self.rows_text(n - 1) + self.row_text(n - 1, self.width as int)
        }
    }

    /// The head of the picture file: the format, the width and the height,
    /// and the greatest value of a channel.
    pub open spec fn head_text(&self) -> Seq<u8> {
        seq![80u8, 51u8, 10u8] + digits(self.width as nat) + seq![32u8] + digits(
            self.height as nat,
        ) + seq![10u8, 50u8, 53u8, 53u8, 10u8]
    }

    /// The canvas as a plain picture file: the head, then one line for
    /// every pixel, row by row.
    pub open spec fn ppm(&self) -> Seq<u8> {
        self.head_text() + self.rows_text(self.height as int)
    }

    /// Writes the canvas as a plain picture file. The channels are taken to
    /// be scaled to the range of the file already; what lies outside is
    /// held at its ends.
    pub fn to_ppm(&self) -> (r: Vec<u8>)
        requires
            self.wf(),
        ensures
            r@ == self.ppm(),
    {
        let mut out: Vec<u8> = Vec::new();
        out.push(80);
        out.push(51);
        out.push(10);
        let mut w = decimal(self.width as u64);
        out.append(&mut w);
        out.push(32);
        let mut h = decimal(self.height as u64);
        out.append(&mut h);
        out.push(10);
        out.push(50);
        out.push(53);
        out.push(53);
        out.push(10);
        assert(out@ =~= self.head_text());
        let mut y: usize = 0;
        while y < self.height
            invariant
                self.wf(),
                y <= self.height,
                out@ == self.head_text() + self.rows_text(y as int),
            decreases self.height - y,
        {
            let mut x: usize = 0;
            while x < self.width
                invariant
                    self.wf(),
                    y < self.height,
                    x <= self.width,
                    out@ == self.head_text() + self.rows_text(y as int) + self.row_text(
                        y as int,
                        x as int,
                    ),
                decreases self.width - x,
            {
                let mut line = self.pixel_at(x, y).clamp().as_str();
                out.append(&mut line);
                assert(self.row_text(y as int, x + 1) == self.row_text(y as int, x as int)
                    + in_range(self.pixel(x as int, y as int)).line());
                assert(out@ =~= self.head_text() + self.rows_text(y as int) + self.row_text(
                    y as int,
                    x + 1,
                ));
                x += 1;
            }
            assert(out@ =~= self.head_text() + self.rows_text(y + 1));
            y += 1;
        }
        out
    }

    /// The rows are as many and as long as the canvas says.
    pub open spec fn wf(&self) -> bool {
        &&& self.canvas@.len() == self.height
        &&& forall|y: int| 0 <= y < self.height ==> (#[trigger] self.canvas@[y])@.len() == self.width
    }

    /// The colour in column `x` of row `y`.
    pub open spec fn pixel(&self, x: int, y: int) -> Tuple {
        self.canvas@[y]@[x]
    }

    /// A black canvas.
    pub fn new(width: usize, height: usize) -> (r: Canvas)
        ensures
            r.wf(),
            r.width == width,
            r.height == height,
            forall|x: int, y: int| 0 <= x < width && 0 <= y < height ==> r.pixel(x, y) == Tuple::black(),
    {
        let mut rows: Vec<Vec<Tuple>> = Vec::new();
        let mut y: usize = 0;
        while y < height
            invariant
                y <= height,
                rows@.len() == y,
                forall|j: int| 0 <= j < y ==> (#[trigger] rows@[j])@.len() == width,
                forall|i: int, j: int|
                    0 <= i < width && 0 <= j < y ==> rows@[j]@[i] == Tuple::black(),
            decreases height - y,
        {
            let mut row: Vec<Tuple> = Vec::new();
            let mut x: usize = 0;
            while x < width
                invariant
                    x <= width,
                    row@.len() == x,
                    forall|i: int| 0 <= i < x ==> row@[i] == Tuple::black(),
                decreases width - x,
            {
                row.push(Tuple::default_color());
                x += 1;
            }
            rows.push(row);
            y += 1;
        }
        Canvas { width, height, canvas: rows }
    }

    /// Paints one pixel; every other pixel keeps its colour.
    pub fn write_pixel(&mut self, x: usize, y: usize, color: Tuple)
        requires
            old(self).wf(),
            x < old(self).width,
            y < old(self).height,
        ensures
            final(self).wf(),
            final(self).width == old(self).width,
            final(self).height == old(self).height,
            final(self).pixel(x as int, y as int) == color,
            forall|i: int, j: int|
                0 <= i < old(self).width && 0 <= j < old(self).height && (i != x || j != y)
                    ==> final(self).pixel(i, j) == old(self).pixel(i, j),
    {
        self.canvas[y][x] = color;
    }

    /// The colour of one pixel.
    pub fn pixel_at(&self, x: usize, y: usize) -> (r: Tuple)
        requires
            self.wf(),
            x < self.width,
            y < self.height,
        ensures
            r == self.pixel(x as int, y as int),
    {
        self.canvas[y][x]
    }
}

} // verus!
