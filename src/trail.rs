use crate::color::Rgb555;
use crate::framebuffer::{plot_all, LedMatrixDisplay, Pixel};
use crate::render::{RenderSource, NOISE_LEN};
use vstd::prelude::*;

verus! {

/// Points kept in a trail.
pub const TRAIL_LEN: usize = 64;

/// A projected point of the trail: its canvas position, which may lie off the
/// canvas, and its depth, 0 to 31.
#[derive(Clone, Copy, Debug, PartialEq, Eq, Structural)]
pub struct TrailPoint {
    pub x: i8,
    pub y: i8,
    pub depth: u8,
}

/// Colour by depth, from blue when shallow through cyan, green and yellow to
/// red when deep.
pub open spec fn depth_color(depth: u8) -> Rgb555 {
    if depth < 10 {
        Rgb555 { r: 0, g: 0, b: 31 }
    } else if depth < 20 {
        Rgb555 { r: 0, g: 31, b: 31 }
    } else if depth < 25 {
        Rgb555 { r: 0, g: 31, b: 0 }
    } else if depth < 28 {
        Rgb555 { r: 31, g: 31, b: 0 }
    } else {
        Rgb555 { r: 31, g: 0, b: 0 }
    }
}

/// The `i`-th point from the oldest, as drawn: the newest point is white,
/// the others are coloured by depth.
pub open spec fn trail_pixel(points: Seq<TrailPoint>, next: int, i: int) -> Pixel {
    let p = points[(next + i) % 64];
    Pixel {
        x: p.x as i32,
        y: p.y as i32,
        color: if i == 63 {
            Rgb555 { r: 31, g: 31, b: 31 }
        } else {
            depth_color(p.depth)
        },
    }
}

/// The points of the trail, oldest first.
pub open spec fn trail_pixels(points: Seq<TrailPoint>, next: int) -> Seq<Pixel> {
    Seq::new(64, |i: int| trail_pixel(points, next, i))
}

/// The last 64 projected points of a moving body, in a ring.
pub struct Trail {
    points: Vec<TrailPoint>,
    next: usize,
}

impl Trail {
    pub closed spec fn points_spec(&self) -> Seq<TrailPoint> {
        self.points@
    }

    /// Where the next point goes; the oldest point sits there.
    pub closed spec fn next_spec(&self) -> int {
        self.next as int
    }

    /// A trail of points off the canvas.
    pub fn new() -> (t: Trail)
        ensures
            t.wf(),
            t.next_spec() == 0,
            t.points_spec() == Seq::new(64, |i: int| TrailPoint { x: -1i8, y: -1i8, depth: 0u8 }),
    {
        let t = Trail { points: vec![TrailPoint { x: -1, y: -1, depth: 0 }; TRAIL_LEN], next: 0 };
        assert(t.points_spec() =~= Seq::new(64, |i: int| TrailPoint { x: -1i8, y: -1i8, depth: 0u8 }));
        t
    }

    /// Adds `p` as the newest point, dropping the oldest.
    pub fn push(&mut self, p: TrailPoint)
        requires
            old(self).wf(),
        ensures
            final(self).wf(),
            final(self).points_spec() == old(self).points_spec().update(old(self).next_spec(), p),
            final(self).next_spec() == (old(self).next_spec() + 1) % 64,
    {
        self.points.set(self.next, p);
        self.next = (self.next + 1) % TRAIL_LEN;
    }
}

/// The colour for a point of depth `depth`.
pub fn depth_color_of(depth: u8) -> (c: Rgb555)
    ensures
        c == depth_color(depth),
{
    if depth < 10 {
        Rgb555::blue()
    } else if depth < 20 {
        Rgb555::cyan()
    } else if depth < 25 {
        Rgb555::green()
    } else if depth < 28 {
        Rgb555::yellow()
    } else {
        Rgb555::red()
    }
}

impl RenderSource for Trail {
    open spec fn wf(&self) -> bool {
        self.points_spec().len() == 64 && 0 <= self.next_spec() < 64
    }

    /// The trail moves only when a point is pushed.
    open spec fn step_spec(&self, noise: Seq<u32>, next: Trail) -> bool {
        next.points_spec() == self.points_spec() && next.next_spec() == self.next_spec()
    }

    open spec fn paint_spec(&self, bytes: Seq<u8>) -> Seq<u8> {
        plot_all(bytes, trail_pixels(self.points_spec(), self.next_spec()))
    }

    fn step(&mut self, noise: &Vec<u32>) {
    }

    /// Paints the points on the canvas, oldest first.
    fn draw(&self, target: &mut LedMatrixDisplay) {
        let ghost start = target@;
        let ghost pixels = trail_pixels(self.points@, self.next as int);
        let mut i: usize = 0;
        while i < TRAIL_LEN
            invariant
                self.wf(),
                target.wf(),
                i <= 64,
                pixels == trail_pixels(self.points@, self.next as int),
                target@ == plot_all(start, pixels.subrange(0, i as int)),
            decreases 64 - i,
        {
            let p = self.points[(self.next + i) % TRAIL_LEN];
            if 0 <= p.x && p.x < 32 && 0 <= p.y && p.y < 32 {
                let color = if i == TRAIL_LEN - 1 {
                    Rgb555::white()
                } else {
                    depth_color_of(p.depth)
                };
                target.plot(p.x as i32, p.y as i32, color);
            }
            proof {
                let next = pixels.subrange(0, i + 1);
                assert(next.drop_last() =~= pixels.subrange(0, i as int));
            }
            i = i + 1;
        }
        assert(pixels.subrange(0, 64) =~= pixels);
    }
}

} // verus!
