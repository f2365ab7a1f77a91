use crate::ants::wrap;
use crate::color::Rgb555;
use crate::framebuffer::{plot_all, LedMatrixDisplay, Pixel};
use crate::render::{RenderSource, NOISE_LEN};
use vstd::prelude::*;

verus! {

/// Index of cell `(x, y)` of the torus, for coordinates from -32 up.
pub open spec fn cell_index(x: int, y: int) -> int {
    wrap(x) + 32 * wrap(y)
}

/// 1 when cell `(x, y)` is alive (its empty age is 0), else 0.
pub open spec fn alive_term(ages: Seq<u16>, x: int, y: int) -> int {
    if ages[cell_index(x, y)] == 0 {
        1
    } else {
        0
    }
}

/// Live cells among the eight neighbours of `(x, y)`, wrapping around.
pub open spec fn live_neighbors(ages: Seq<u16>, x: int, y: int) -> int {
    alive_term(ages, x - 1, y - 1) + alive_term(ages, x, y - 1) + alive_term(ages, x + 1, y - 1)
        + alive_term(ages, x - 1, y) + alive_term(ages, x + 1, y) + alive_term(ages, x - 1, y + 1)
        + alive_term(ages, x, y + 1) + alive_term(ages, x + 1, y + 1)
}

/// The next empty age of a cell with empty age `age`, `n` live neighbours and
/// random word `rn`: it lives on with two or three neighbours when alive and
/// is born with three; otherwise a cell that has been empty for longer than
/// `rn` ticks comes alive, and any other cell ages by one, saturating.
pub open spec fn next_age(age: u16, n: int, rn: u32) -> u16 {
    if (n == 2 && age == 0) || n == 3 {
        0
    } else if age as u32 > rn {
        0
    } else if age == u16::MAX {
        age
    } else {
        (age + 1) as u16
    }
}

/// All cells after one tick.
pub open spec fn gol_next(ages: Seq<u16>, noise: Seq<u32>) -> Seq<u16> {
    Seq::new(
        1024,
        |i: int| next_age(ages[i], live_neighbors(ages, i % 32, i / 32), noise[i]),
    )
}

/// Colour of cell `i`: by its live neighbours when alive, black when empty.
pub open spec fn gol_color(ages: Seq<u16>, i: int) -> Rgb555 {
    if ages[i] == 0 {
        let n = live_neighbors(ages, i % 32, i / 32);
        if n == 2 {
            Rgb555 { r: 0, g: 31, b: 0 }
        } else if n == 3 {
            Rgb555 { r: 31, g: 0, b: 0 }
        } else {
            Rgb555 { r: 0, g: 0, b: 31 }
        }
    } else {
        Rgb555 { r: 0, g: 0, b: 0 }
    }
}

/// One point per cell, row by row.
pub open spec fn gol_pixels(ages: Seq<u16>) -> Seq<Pixel> {
    Seq::new(
        1024,
        |i: int| Pixel { x: (i % 32) as i32, y: (i / 32) as i32, color: gol_color(ages, i) },
    )
}

/// A live cell when the random word is above half of its range.
pub open spec fn seeded_age(rn: u32) -> u16 {
    if rn > u32::MAX / 2 {
        0
    } else {
        1
    }
}

/// Index of cell `(x, y)` of the torus, wrapping each coordinate from -32 up.
pub(crate) fn torus_index(x: i32, y: i32) -> (i: usize)
    requires
        -32 <= x <= i32::MAX - 32,
        -32 <= y <= i32::MAX - 32,
    ensures
        i == cell_index(x as int, y as int),
        i < 1024,
{
    let wx = (32 + x) % 32;
    let wy = (32 + y) % 32;
    assert(0 <= wx + 32 * wy < 1024) by (nonlinear_arith)
        requires
            0 <= wx < 32,
            0 <= wy < 32,
    ;
    (wx + 32 * wy) as usize
}

/// Game of Life on a 32x32 torus, where a cell that stays empty long enough
/// may come alive at random. Each cell holds how long it has been empty;
/// 0 means alive.
pub struct Gol {
    ages: Vec<u16>,
}

impl Gol {
    pub closed spec fn ages_spec(&self) -> Seq<u16> {
        self.ages@
    }

    /// Every cell empty for one tick.
    pub fn new() -> (g: Gol)
        ensures
            g.wf(),
            g.ages_spec() == Seq::new(1024, |i: int| 1u16),
    {
        let g = Gol { ages: vec![1u16; 1024] };
        assert(g.ages_spec() =~= Seq::new(1024, |i: int| 1u16));
        g
    }

    /// Seeds each cell from its random word (see `seeded_age`).
    pub fn randomize(&mut self, noise: &Vec<u32>)
        requires
            old(self).wf(),
            noise@.len() == NOISE_LEN,
        ensures
            final(self).wf(),
            final(self).ages_spec() == Seq::new(1024, |i: int| seeded_age(noise@[i])),
    {
        let mut i: usize = 0;
        while i < 1024
            invariant
                self.ages@.len() == 1024,
                noise@.len() == NOISE_LEN,
                i <= 1024,
                forall|j: int| 0 <= j < i ==> self.ages@[j] == seeded_age(noise@[j]),
            decreases 1024 - i,
        {
            let a: u16 = if noise[i] > u32::MAX / 2 {
                0
            } else {
                1
            };
            self.ages.set(i, a);
            i = i + 1;
        }
        assert(self.ages_spec() =~= Seq::new(1024, |i: int| seeded_age(noise@[i])));
    }

    /// Brings a glider to life near the top left corner.
    pub fn glider(&mut self)
        requires
            old(self).wf(),
        ensures
            final(self).wf(),
            final(self).ages_spec() == old(self).ages_spec().update(cell_index(1, 1), 0).update(
                cell_index(1, 3),
                0,
            ).update(cell_index(2, 2), 0).update(cell_index(2, 3), 0).update(cell_index(3, 2), 0),
    {
        self.ages.set(torus_index(1, 1), 0);
        self.ages.set(torus_index(1, 3), 0);
        self.ages.set(torus_index(2, 2), 0);
        self.ages.set(torus_index(2, 3), 0);
        self.ages.set(torus_index(3, 2), 0);
    }

    /// The empty age of cell `(x, y)`.
    pub fn age(&self, x: usize, y: usize) -> (a: u16)
        requires
            self.wf(),
            x < 32,
            y < 32,
        ensures
            a == self.ages_spec()[x + 32 * y],
    {
        self.ages[x + 32 * y]
    }

    fn empty_point_age(&self, x: i32, y: i32) -> (a: u16)
        requires
            self.wf(),
            -1 <= x <= 32,
            -1 <= y <= 32,
        ensures
            a == self.ages@[cell_index(x as int, y as int)],
    {
        self.ages[torus_index(x, y)]
    }

    fn num_neighbors(&self, x: i32, y: i32) -> (n: u8)
        requires
            self.wf(),
            0 <= x < 32,
            0 <= y < 32,
        ensures
            n == live_neighbors(self.ages@, x as int, y as int),
    {
        let mut n: u8 = 0;
        if self.empty_point_age(x - 1, y - 1) == 0 {
            n = n + 1;
        }
        if self.empty_point_age(x, y - 1) == 0 {
            n = n + 1;
        }
        if self.empty_point_age(x + 1, y - 1) == 0 {
            n = n + 1;
        }
        if self.empty_point_age(x - 1, y) == 0 {
            n = n + 1;
        }
        if self.empty_point_age(x + 1, y) == 0 {
            n = n + 1;
        }
        if self.empty_point_age(x - 1, y + 1) == 0 {
            n = n + 1;
        }
        if self.empty_point_age(x, y + 1) == 0 {
            n = n + 1;
        }
        if self.empty_point_age(x + 1, y + 1) == 0 {
            n = n + 1;
        }
        n
    }
    fn cell_color(&self, i: usize) -> (c: Rgb555)
        requires
            self.wf(),
            i < 1024,
        ensures
            c == gol_color(self.ages@, i as int),
    {
        if self.ages[i] == 0 {
            let n = self.num_neighbors((i % 32) as i32, (i / 32) as i32);
            if n == 2 {
                Rgb555::green()
            } else if n == 3 {
                Rgb555::red()
            } else {
                Rgb555::blue()
            }
        } else {
            Rgb555::black()
        }
    }
}

impl Default for Gol {
    /// The same as `Gol::new`.
    fn default() -> (g: Gol)
        ensures
            g.wf(),
            g.ages_spec() == Seq::new(1024, |i: int| 1u16),
    {
        Gol::new()
    }
}

impl RenderSource for Gol {
    open spec fn wf(&self) -> bool {
        self.ages_spec().len() == 1024
    }

    open spec fn step_spec(&self, noise: Seq<u32>, next: Gol) -> bool {
        next.ages_spec() == gol_next(self.ages_spec(), noise)
    }

    open spec fn paint_spec(&self, bytes: Seq<u8>) -> Seq<u8> {
        plot_all(bytes, gol_pixels(self.ages_spec()))
    }

    fn step(&mut self, noise: &Vec<u32>) {
        let ghost old_ages = self.ages@;
        let mut neighbors: Vec<u8> = Vec::new();
        let mut i: usize = 0;
        while i < 1024
            invariant
                self.ages@ == old_ages,
                old_ages.len() == 1024,
                i <= 1024,
                neighbors@.len() == i,
                forall|j: int|
                    0 <= j < i ==> #[trigger] neighbors@[j] == live_neighbors(
                        old_ages,
                        j % 32,
                        j / 32,
                    ),
            decreases 1024 - i,
        {
            let n = self.num_neighbors((i % 32) as i32, (i / 32) as i32);
            neighbors.push(n);
            i = i + 1;
        }
        let mut i: usize = 0;
        while i < 1024
            invariant
                self.ages@.len() == 1024,
                old_ages.len() == 1024,
                noise@.len() == NOISE_LEN,
                i <= 1024,
                neighbors@.len() == 1024,
                forall|j: int|
                    0 <= j < 1024 ==> #[trigger] neighbors@[j] == live_neighbors(
                        old_ages,
                        j % 32,
                        j / 32,
                    ),
                forall|j: int|
                    0 <= j < i ==> #[trigger] self.ages@[j] == next_age(
                        old_ages[j],
                        live_neighbors(old_ages, j % 32, j / 32),
                        noise@[j],
                    ),
                forall|j: int| i <= j < 1024 ==> #[trigger] self.ages@[j] == old_ages[j],
            decreases 1024 - i,
        {
            let age = self.ages[i];
            let n = neighbors[i];
            let next: u16 = if (n == 2 && age == 0) || n == 3 {
                0
            } else if age as u32 > noise[i] {
                0
            } else {
                age.saturating_add(1)
            };
            self.ages.set(i, next);
            i = i + 1;
        }
        assert(self.ages@ =~= gol_next(old_ages, noise@));
    }

    fn draw(&self, target: &mut LedMatrixDisplay) {
        let ghost start = target@;
        let ghost pixels = gol_pixels(self.ages@);
        let mut i: usize = 0;
        while i < 1024
            invariant
                self.wf(),
                target.wf(),
                i <= 1024,
                pixels == gol_pixels(self.ages@),
                target@ == plot_all(start, pixels.subrange(0, i as int)),
            decreases 1024 - i,
        {
            let x = (i % 32) as i32;
            let y = (i / 32) as i32;
            let color = self.cell_color(i);
            target.plot(x, y, color);
            proof {
                let next = pixels.subrange(0, i + 1);
                assert(next.drop_last() =~= pixels.subrange(0, i as int));
            }
            i = i + 1;
        }
        assert(pixels.subrange(0, 1024) =~= pixels);
    }
}

} // verus!
