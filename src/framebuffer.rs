use crate::color::{code_of, Rgb555};
use vstd::prelude::*;

verus! {

/// Columns of the panel.
pub const COLUMNS: usize = 32;

/// Row addresses of the panel; each address drives an upper and a lower row.
pub const ROWS: usize = 16;

/// Bytes in one packed frame.
pub const FRAME_BYTES: usize = 512;

/// Is `(x, y)` a pixel of the 32x32 canvas?
pub open spec fn on_canvas(x: int, y: int) -> bool {
    0 <= x < 32 && 0 <= y < 32
}

/// Index of the byte that holds pixel `(x, y)`: the upper half of the panel
/// and the lower half share the byte of row address `y % 16`.
pub open spec fn byte_index(x: int, y: int) -> int {
    (y % 16) * 32 + x
}

/// A packed frame: 512 bytes, each holding two 3-bit codes, the upper
/// half's pixel in the low nibble and the lower half's in the high nibble.
pub open spec fn frame_ok(bytes: Seq<u8>) -> bool {
    &&& bytes.len() == FRAME_BYTES
    &&& forall|i: int| 0 <= i < bytes.len() ==> #[trigger] bytes[i] % 16 < 8 && bytes[i] / 16 < 8
}

/// The 3-bit code of pixel `(x, y)` in a packed frame.
pub open spec fn code_at(bytes: Seq<u8>, x: int, y: int) -> u8 {
    if y < 16 {
        bytes[byte_index(x, y)] % 16
    } else {
        bytes[byte_index(x, y)] / 16
    }
}

/// Byte `b` with the nibble of canvas row `y` replaced by `code`.
pub open spec fn with_code(b: u8, y: int, code: u8) -> u8 {
    if y < 16 {
        ((b / 16) * 16 + code) as u8
    } else {
        (code * 16 + b % 16) as u8
    }
}

/// The frame after writing `code` at `(x, y)`; off-canvas writes change nothing.
pub open spec fn set_code(bytes: Seq<u8>, x: int, y: int, code: u8) -> Seq<u8> {
    if on_canvas(x, y) {
        bytes.update(byte_index(x, y), with_code(bytes[byte_index(x, y)], y, code))
    } else {
        bytes
    }
}

/// The frame in which every pixel is off.
pub open spec fn dark_frame() -> Seq<u8> {
    Seq::new(FRAME_BYTES as nat, |i: int| 0u8)
}

/// One point handed to the display: a position, which may lie off the
/// canvas, and a colour.
#[derive(Clone, Copy, Debug, PartialEq, Eq, Structural)]
pub struct Pixel {
    pub x: i32,
    pub y: i32,
    pub color: Rgb555,
}

/// The frame after plotting `p`.
pub open spec fn plot_one(bytes: Seq<u8>, p: Pixel) -> Seq<u8> {
    set_code(bytes, p.x as int, p.y as int, code_of(p.color))
}

/// The frame after plotting every point of `ps`, first to last.
pub open spec fn plot_all(bytes: Seq<u8>, ps: Seq<Pixel>) -> Seq<u8>
    decreases ps.len(),
{
    if ps.len() == 0 {
        bytes
    } else {
        plot_one(plot_all(bytes, ps.drop_last()), ps.last())
    }
}

/// Is `p` a point of the canvas?
pub open spec fn pixel_on_canvas(p: Pixel) -> bool {
    on_canvas(p.x as int, p.y as int)
}

/// Points off the canvas never alter the frame: plotting any sequence of
/// points gives the same frame as plotting only those on the canvas.
pub proof fn lemma_off_canvas_plots_ignored(bytes: Seq<u8>, ps: Seq<Pixel>)
    ensures
        plot_all(bytes, ps) == plot_all(bytes, ps.filter(|p: Pixel| pixel_on_canvas(p))),
    decreases ps.len(),
{
    reveal(Seq::filter);
    if ps.len() > 0 {
        lemma_off_canvas_plots_ignored(bytes, ps.drop_last());
        let kept = ps.filter(|p: Pixel| pixel_on_canvas(p));
        let kept_prefix = ps.drop_last().filter(|p: Pixel| pixel_on_canvas(p));
        if pixel_on_canvas(ps.last()) {
            assert(kept == kept_prefix.push(ps.last()));
            assert(kept.drop_last() =~= kept_prefix);
        } else {
            assert(kept == kept_prefix);
        }
    }
}

/// Writing a code in the nibble of one half keeps the other half and the
/// packing of the frame.
pub proof fn lemma_set_code(bytes: Seq<u8>, x: int, y: int, code: u8)
    requires
        frame_ok(bytes),
        code < 8,
    ensures
        frame_ok(set_code(bytes, x, y, code)),
        forall|x2: int, y2: int|
            on_canvas(x2, y2) ==> #[trigger] code_at(set_code(bytes, x, y, code), x2, y2) == if x2
                == x && y2 == y {
                code
            } else {
                code_at(bytes, x2, y2)
            },
{
    if on_canvas(x, y) {
        let nb = set_code(bytes, x, y, code);
        let i = byte_index(x, y);
        assert forall|x2: int, y2: int| on_canvas(x2, y2) implies #[trigger] code_at(nb, x2, y2)
            == if x2 == x && y2 == y {
            code
        } else {
            code_at(bytes, x2, y2)
        } by {
            let j = byte_index(x2, y2);
            if j != i {
                assert(nb[j] == bytes[j]);
            }
        }
    }
}

/// The packed store of one 32x32 frame.
pub struct LedMatrixDisplay {
    framebuffer: Vec<u8>,
}

impl View for LedMatrixDisplay {
    type V = Seq<u8>;

    closed spec fn view(&self) -> Seq<u8> {
        self.framebuffer@
    }
}

impl LedMatrixDisplay {
    pub open spec fn wf(&self) -> bool {
        frame_ok(self@)
    }

    /// A frame with every pixel off.
    pub fn new() -> (d: LedMatrixDisplay)
        ensures
            d.wf(),
            d@ == dark_frame(),
    {
        let framebuffer: Vec<u8> = vec![0u8; FRAME_BYTES];
        let d = LedMatrixDisplay { framebuffer };
        assert(d@ =~= dark_frame());
        d
    }

    /// Turns every pixel off.
    pub fn clear(&mut self)
        requires
            old(self).wf(),
        ensures
            final(self).wf(),
            final(self)@ == dark_frame(),
    {
        let mut i: usize = 0;
        while i < FRAME_BYTES
            invariant
                self.framebuffer@.len() == FRAME_BYTES,
                i <= FRAME_BYTES,
                forall|j: int| 0 <= j < i ==> self.framebuffer@[j] == 0u8,
            decreases FRAME_BYTES - i,
        {
            self.framebuffer.set(i, 0u8);
            i = i + 1;
        }
        assert(self@ =~= dark_frame());
    }

    /// Writes the 3-bit `code` at `(x, y)`; a position off the canvas is
    /// ignored.
    pub fn set_pixel(&mut self, x: i32, y: i32, code: u8)
        requires
            old(self).wf(),
            code < 8,
        ensures
            final(self).wf(),
            final(self)@ == set_code(old(self)@, x as int, y as int, code),
            forall|x2: int, y2: int|
                on_canvas(x2, y2) ==> #[trigger] code_at(final(self)@, x2, y2) == if x2 == x
                    && y2 == y {
                    code
                } else {
                    code_at(old(self)@, x2, y2)
                },
    {
        proof {
            lemma_set_code(self@, x as int, y as int, code);
        }
        if 0 <= x && x < 32 && 0 <= y && y < 32 {
            let col = x as usize;
            let row = y as usize;
            if row < ROWS {
                let i = row * COLUMNS + col;
                let b = self.framebuffer[i];
                self.framebuffer.set(i, (b / 16) * 16 + code);
            } else {
                let i = (row - ROWS) * COLUMNS + col;
                let b = self.framebuffer[i];
                self.framebuffer.set(i, code * 16 + b % 16);
            }
        }
    }

    /// Plots `color`, quantized, at `(x, y)`; a position off the canvas is
    /// ignored.
    pub fn plot(&mut self, x: i32, y: i32, color: Rgb555)
        requires
            old(self).wf(),
        ensures
            final(self).wf(),
            final(self)@ == plot_one(old(self)@, Pixel { x, y, color }),
    {
        let code = color.quantize();
        self.set_pixel(x, y, code);
    }

    /// Plots every point of `pixels` in order.
    pub fn draw_iter(&mut self, pixels: &Vec<Pixel>)
        requires
            old(self).wf(),
        ensures
            final(self).wf(),
            final(self)@ == plot_all(old(self)@, pixels@),
    {
        let ghost start = self@;
        let mut i: usize = 0;
        while i < pixels.len()
            invariant
                self.wf(),
                i <= pixels@.len(),
                self@ == plot_all(start, pixels@.subrange(0, i as int)),
            decreases pixels@.len() - i,
        {
            let p = pixels[i];
            self.plot(p.x, p.y, p.color);
            proof {
                let next = pixels@.subrange(0, i + 1);
                assert(next.drop_last() =~= pixels@.subrange(0, i as int));
            }
            i = i + 1;
        }
        assert(pixels@.subrange(0, pixels@.len() as int) =~= pixels@);
    }

    /// The packed byte that the scan shifts out for row address `row` and
    /// `column`: the upper pixel's code in the low nibble, the lower one's in
    /// the high nibble.
    pub fn row_byte(&self, row: usize, column: usize) -> (b: u8)
        requires
            self.wf(),
            row < ROWS,
            column < COLUMNS,
        ensures
            b == self@[row * COLUMNS + column],
            b == code_at(self@, column as int, row as int) + 16 * code_at(
                self@,
                column as int,
                row + 16,
            ),
    {
        self.framebuffer[row * COLUMNS + column]
    }

    /// The 3-bit code of pixel `(x, y)`.
    pub fn pixel(&self, x: usize, y: usize) -> (code: u8)
        requires
            self.wf(),
            x < 32,
            y < 32,
        ensures
            code == code_at(self@, x as int, y as int),
    {
        if y < ROWS {
            self.framebuffer[y * COLUMNS + x] % 16
        } else {
            self.framebuffer[(y - ROWS) * COLUMNS + x] / 16
        }
    }
}

} // verus!
