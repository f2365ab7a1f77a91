use crate::color::Rgb555;
use crate::framebuffer::{plot_all, LedMatrixDisplay, Pixel};
use crate::render::{RenderSource, NOISE_LEN};
use vstd::prelude::*;

verus! {

/// Heading of an ant.
#[derive(Clone, Copy, Debug, PartialEq, Eq, Structural)]
pub enum Direction {
    Up,
    Right,
    Down,
    Left,
}

pub open spec fn right_of(d: Direction) -> Direction {
    match d {
        Direction::Up => Direction::Right,
        Direction::Right => Direction::Down,
        Direction::Down => Direction::Left,
        Direction::Left => Direction::Up,
    }
}

pub open spec fn left_of(d: Direction) -> Direction {
    match d {
        Direction::Up => Direction::Left,
        Direction::Left => Direction::Down,
        Direction::Down => Direction::Right,
        Direction::Right => Direction::Up,
    }
}

impl Direction {
    pub fn turn_right(&self) -> (d: Direction)
        ensures
            d == right_of(*self),
    {
        match self {
            Direction::Up => Direction::Right,
            Direction::Right => Direction::Down,
            Direction::Down => Direction::Left,
            Direction::Left => Direction::Up,
        }
    }

    pub fn turn_left(&self) -> (d: Direction)
        ensures
            d == left_of(*self),
    {
        match self {
            Direction::Up => Direction::Left,
            Direction::Left => Direction::Down,
            Direction::Down => Direction::Right,
            Direction::Right => Direction::Up,
        }
    }
}

/// One walker on the 32x32 torus.
#[derive(Clone, Copy, Debug, PartialEq, Eq, Structural)]
pub struct Ant {
    pub x: i32,
    pub y: i32,
    pub dir: Direction,
    pub color: Rgb555,
}

pub open spec fn ant_ok(a: Ant) -> bool {
    0 <= a.x < 32 && 0 <= a.y < 32
}

/// Coordinate `v`, from -32 up, brought back onto the torus.
pub open spec fn wrap(v: int) -> int {
    (v + 32) % 32
}

/// One move of ant `a` on `grid`: on an empty cell it turns right and fills
/// the cell, on a filled cell it turns left and empties it; then it steps
/// forward, wrapping around the edges.
pub open spec fn ant_move(grid: Seq<u8>, a: Ant) -> (Seq<u8>, Ant) {
    let i = a.y * 32 + a.x;
    let empty = grid[i] == 0;
    let dir = if empty {
        right_of(a.dir)
    } else {
        left_of(a.dir)
    };
    let g = grid.update(i, if empty {
        1u8
    } else {
        0u8
    });
    let (x, y) = match dir {
        Direction::Up => (a.x as int, a.y - 1),
        Direction::Right => (a.x + 1, a.y as int),
        Direction::Down => (a.x as int, a.y + 1),
        Direction::Left => (a.x - 1, a.y as int),
    };
    (g, Ant { x: wrap(x) as i32, y: wrap(y) as i32, dir, color: a.color })
}

/// The grid and ants after the first `n` ants have moved, in order.
pub open spec fn ants_run(grid: Seq<u8>, ants: Seq<Ant>, n: int) -> (Seq<u8>, Seq<Ant>)
    decreases n,
{
    if n <= 0 {
        (grid, ants)
    } else {
        let (g, a) = ants_run(grid, ants, n - 1);
        let (g2, moved) = ant_move(g, a[n - 1]);
        (g2, a.update(n - 1, moved))
    }
}

/// White points for the filled cells among the first `n` of `grid`.
pub open spec fn grid_pixels(grid: Seq<u8>, n: int) -> Seq<Pixel>
    decreases n,
{
    if n <= 0 {
        Seq::empty()
    } else if grid[n - 1] != 0 {
        grid_pixels(grid, n - 1).push(
            Pixel { x: ((n - 1) % 32) as i32, y: ((n - 1) / 32) as i32, color: Rgb555 { r: 31, g: 31, b: 31 } },
        )
    } else {
        grid_pixels(grid, n - 1)
    }
}

pub open spec fn ant_pixel(a: Ant) -> Pixel {
    Pixel { x: a.x, y: a.y, color: a.color }
}

/// Several ants walking a shared grid of cells.
pub struct Ants {
    grid: Vec<u8>,
    ants: Vec<Ant>,
}

impl Ants {
    pub closed spec fn grid_spec(&self) -> Seq<u8> {
        self.grid@
    }

    pub closed spec fn ants_spec(&self) -> Seq<Ant> {
        self.ants@
    }

    /// An empty grid with a red ant heading up at (10, 10), a green one
    /// heading right at (20, 10) and a blue one heading down at (15, 20).
    pub fn new() -> (s: Ants)
        ensures
            s.wf(),
            s.grid_spec() == Seq::new(1024, |i: int| 0u8),
            s.ants_spec() == seq![
                Ant { x: 10, y: 10, dir: Direction::Up, color: Rgb555 { r: 31, g: 0, b: 0 } },
                Ant { x: 20, y: 10, dir: Direction::Right, color: Rgb555 { r: 0, g: 31, b: 0 } },
                Ant { x: 15, y: 20, dir: Direction::Down, color: Rgb555 { r: 0, g: 0, b: 31 } },
            ],
    {
        let grid: Vec<u8> = vec![0u8; 1024];
        let ants: Vec<Ant> = vec![
            Ant { x: 10, y: 10, dir: Direction::Up, color: Rgb555::red() },
            Ant { x: 20, y: 10, dir: Direction::Right, color: Rgb555::green() },
            Ant { x: 15, y: 20, dir: Direction::Down, color: Rgb555::blue() },
        ];
        let s = Ants { grid, ants };
        assert(s.grid_spec() =~= Seq::new(1024, |i: int| 0u8));
        assert(s.ants_spec() =~= seq![
            Ant { x: 10, y: 10, dir: Direction::Up, color: Rgb555 { r: 31, g: 0, b: 0 } },
            Ant { x: 20, y: 10, dir: Direction::Right, color: Rgb555 { r: 0, g: 31, b: 0 } },
            Ant { x: 15, y: 20, dir: Direction::Down, color: Rgb555 { r: 0, g: 0, b: 31 } },
        ]);
        s
    }

    /// The ant at `i`.
    pub fn ant(&self, i: usize) -> (a: Ant)
        requires
            i < self.ants_spec().len(),
        ensures
            a == self.ants_spec()[i as int],
    {
        self.ants[i]
    }

    /// The cell at `(x, y)`: 0 when empty.
    pub fn cell(&self, x: usize, y: usize) -> (c: u8)
        requires
            self.wf(),
            x < 32,
            y < 32,
        ensures
            c == self.grid_spec()[y * 32 + x],
    {
        self.grid[y * 32 + x]
    }

    fn move_ant(&mut self, i: usize)
        requires
            old(self).wf(),
            i < old(self).ants@.len(),
        ensures
            final(self).wf(),
            (final(self).grid@, final(self).ants@) == ({
                let (g, moved) = ant_move(old(self).grid@, old(self).ants@[i as int]);
                (g, old(self).ants@.update(i as int, moved))
            }),
    {
        let a = self.ants[i];
        let idx = (a.y * 32 + a.x) as usize;
        let dir = if self.grid[idx] == 0 {
            self.grid.set(idx, 1);
            a.dir.turn_right()
        } else {
            self.grid.set(idx, 0);
            a.dir.turn_left()
        };
        let (x, y) = match dir {
            Direction::Up => (a.x, a.y - 1),
            Direction::Right => (a.x + 1, a.y),
            Direction::Down => (a.x, a.y + 1),
            Direction::Left => (a.x - 1, a.y),
        };
        let moved = Ant { x: (x + 32) % 32, y: (y + 32) % 32, dir, color: a.color };
        self.ants.set(i, moved);
        assert(self.ants@ =~= old(self).ants@.update(i as int, moved));
    }
}

impl Default for Ants {
    /// The same as `Ants::new`.
    fn default() -> (s: Ants)
        ensures
            s.wf(),
            s.grid_spec() == Seq::new(1024, |i: int| 0u8),
            s.ants_spec() == seq![
                Ant { x: 10, y: 10, dir: Direction::Up, color: Rgb555 { r: 31, g: 0, b: 0 } },
                Ant { x: 20, y: 10, dir: Direction::Right, color: Rgb555 { r: 0, g: 31, b: 0 } },
                Ant { x: 15, y: 20, dir: Direction::Down, color: Rgb555 { r: 0, g: 0, b: 31 } },
            ],
    {
        Ants::new()
    }
}

impl RenderSource for Ants {
    open spec fn wf(&self) -> bool {
        &&& self.grid_spec().len() == 1024
        &&& self.ants_spec().len() == 3
        &&& forall|i: int| 0 <= i < 3 ==> ant_ok(#[trigger] self.ants_spec()[i])
    }

    open spec fn step_spec(&self, noise: Seq<u32>, next: Ants) -> bool {
        (next.grid_spec(), next.ants_spec()) == ants_run(self.grid_spec(), self.ants_spec(), 3)
    }

    open spec fn paint_spec(&self, bytes: Seq<u8>) -> Seq<u8> {
        plot_all(
            bytes,
            grid_pixels(self.grid_spec(), 1024) + self.ants_spec().map_values(|a: Ant| ant_pixel(a)),
        )
    }

    /// Moves each ant once, in order; the random words are not needed.
    fn step(&mut self, noise: &Vec<u32>) {
        let ghost g0 = self.grid@;
        let ghost a0 = self.ants@;
        let mut i: usize = 0;
        while i < self.ants.len()
            invariant
                self.wf(),
                i <= 3,
                (self.grid@, self.ants@) == ants_run(g0, a0, i as int),
            decreases 3 - i,
        {
            self.move_ant(i);
            i = i + 1;
        }
    }

    fn draw(&self, target: &mut LedMatrixDisplay) {
        let ghost start = target@;
        let mut i: usize = 0;
        while i < 1024
            invariant
                self.wf(),
                target.wf(),
                i <= 1024,
                target@ == plot_all(start, grid_pixels(self.grid@, i as int)),
            decreases 1024 - i,
        {
            if self.grid[i] != 0 {
                target.plot((i % 32) as i32, (i / 32) as i32, Rgb555::white());
                proof {
                    let lit = grid_pixels(self.grid@, i + 1);
                    assert(lit.drop_last() =~= grid_pixels(self.grid@, i as int));
                }
            }
            i = i + 1;
        }
        let ghost lit = grid_pixels(self.grid@, 1024);
        let ghost marks = self.ants@.map_values(|a: Ant| ant_pixel(a));
        let mut j: usize = 0;
        while j < self.ants.len()
            invariant
                self.wf(),
                target.wf(),
                j <= 3,
                lit == grid_pixels(self.grid@, 1024),
                marks == self.ants@.map_values(|a: Ant| ant_pixel(a)),
                target@ == plot_all(start, lit + marks.subrange(0, j as int)),
            decreases 3 - j,
        {
            let a = self.ants[j];
            target.plot(a.x, a.y, a.color);
            proof {
                let next = lit + marks.subrange(0, j + 1);
                assert(next.drop_last() =~= lit + marks.subrange(0, j as int));
            }
            j = j + 1;
        }
        assert(marks.subrange(0, 3) =~= marks);
    }
}

} // verus!
