use crate::color::Rgb555;
use crate::framebuffer::{plot_all, LedMatrixDisplay, Pixel};
use crate::gol::{cell_index, torus_index};
use crate::render::{RenderSource, NOISE_LEN};
use vstd::prelude::*;

verus! {

/// Number of states a cell cycles through.
pub const STATES: u8 = 14;

/// Neighbours in the successor state that a cell needs in order to advance.
pub const THRESHOLD: u8 = 3;

/// The state after `s` in the cycle.
pub open spec fn successor(s: u8) -> u8 {
    ((s + 1) % 14) as u8
}

/// 1 when cell `(x, y)` holds `target`, else 0.
pub open spec fn match_term(states: Seq<u8>, x: int, y: int, target: u8) -> int {
    if states[cell_index(x, y)] == target {
        1
    } else {
        0
    }
}

/// Neighbours of `(x, y)`, wrapping around, that hold `target`.
pub open spec fn count_matching(states: Seq<u8>, x: int, y: int, target: u8) -> int {
    match_term(states, x - 1, y - 1, target) + match_term(states, x, y - 1, target) + match_term(
        states,
        x + 1,
        y - 1,
        target,
    ) + match_term(states, x - 1, y, target) + match_term(states, x + 1, y, target) + match_term(
        states,
        x - 1,
        y + 1,
        target,
    ) + match_term(states, x, y + 1, target) + match_term(states, x + 1, y + 1, target)
}

/// Cell `i` after one tick: it advances to its successor state when at least
/// three neighbours already hold that state.
pub open spec fn cca_cell(states: Seq<u8>, i: int) -> u8 {
    let target = successor(states[i]);
    if count_matching(states, i % 32, i / 32, target) >= 3 {
        target
    } else {
        states[i]
    }
}

/// All cells after one tick, before any kick.
#[verifier::opaque]
pub open spec fn cca_next(states: Seq<u8>) -> Seq<u8> {
    Seq::new(1024, |i: int| cca_cell(states, i))
}

/// The cells after a full tick with random word `rn`: when no cell changed,
/// the cell at `rn % 1024` is advanced so the automaton never stays dead.
#[verifier::opaque]
pub open spec fn cca_step(states: Seq<u8>, rn: u32) -> Seq<u8> {
    let next = cca_next(states);
    if next == states {
        let k = rn % 1024;
        next.update(k as int, successor(next[k as int]))
    } else {
        next
    }
}

/// The colour of each of the fourteen states.
pub open spec fn state_color(s: u8) -> Rgb555 {
    if s == 0 {
        Rgb555 { r: 31, g: 0, b: 0 }
    } else if s == 1 {
        Rgb555 { r: 0, g: 31, b: 0 }
    } else if s == 2 {
        Rgb555 { r: 0, g: 0, b: 31 }
    } else if s == 3 {
        Rgb555 { r: 31, g: 31, b: 0 }
    } else if s == 4 {
        Rgb555 { r: 0, g: 31, b: 31 }
    } else if s == 5 {
        Rgb555 { r: 31, g: 0, b: 31 }
    } else if s == 6 {
        Rgb555 { r: 31, g: 31, b: 31 }
    } else if s == 7 {
        Rgb555 { r: 31, g: 15, b: 0 }
    } else if s == 8 {
        Rgb555 { r: 15, g: 31, b: 0 }
    } else if s == 9 {
        Rgb555 { r: 0, g: 31, b: 15 }
    } else if s == 10 {
        Rgb555 { r: 15, g: 0, b: 31 }
    } else if s == 11 {
        Rgb555 { r: 31, g: 0, b: 15 }
    } else if s == 12 {
        Rgb555 { r: 15, g: 15, b: 31 }
    } else {
        Rgb555 { r: 31, g: 31, b: 15 }
    }
}

/// One point per cell, row by row.
pub open spec fn cca_pixels(states: Seq<u8>) -> Seq<Pixel> {
    Seq::new(
        1024,
        |i: int| Pixel { x: (i % 32) as i32, y: (i / 32) as i32, color: state_color(states[i]) },
    )
}

/// A cyclic cellular automaton on a 32x32 torus.
pub struct Cca {
    states: Vec<u8>,
    next_states: Vec<u8>,
}

impl Cca {
    pub closed spec fn states_spec(&self) -> Seq<u8> {
        self.states@
    }

    /// An automaton seeded from `noise` (see `randomize`).
    pub fn new(noise: &Vec<u32>) -> (c: Cca)
        requires
            noise@.len() == NOISE_LEN,
        ensures
            c.wf(),
            c.states_spec() == Seq::new(1024, |i: int| (noise@[i] % 14) as u8),
    {
        let mut c = Cca { states: vec![0u8; 1024], next_states: vec![0u8; 1024] };
        c.randomize(noise);
        c
    }

    /// Sets each cell to its random word modulo the number of states.
    pub fn randomize(&mut self, noise: &Vec<u32>)
        requires
            old(self).wf(),
            noise@.len() == NOISE_LEN,
        ensures
            final(self).wf(),
            final(self).states_spec() == Seq::new(1024, |i: int| (noise@[i] % 14) as u8),
    {
        let mut i: usize = 0;
        while i < 1024
            invariant
                self.wf(),
                noise@.len() == NOISE_LEN,
                i <= 1024,
                forall|j: int| 0 <= j < i ==> self.states@[j] == (noise@[j] % 14) as u8,
            decreases 1024 - i,
        {
            self.states.set(i, (noise[i] % (STATES as u32)) as u8);
            i = i + 1;
        }
        assert(self.states_spec() =~= Seq::new(1024, |i: int| (noise@[i] % 14) as u8));
    }

    /// The state of cell `(x, y)`.
    pub fn state(&self, x: usize, y: usize) -> (s: u8)
        requires
            self.wf(),
            x < 32,
            y < 32,
        ensures
            s == self.states_spec()[y * 32 + x],
    {
        self.states[y * 32 + x]
    }

    fn matches_at(&self, x: i32, y: i32, target: u8) -> (m: u8)
        requires
            self.wf(),
            -1 <= x <= 32,
            -1 <= y <= 32,
        ensures
            m == match_term(self.states@, x as int, y as int, target),
    {
        if self.states[torus_index(x, y)] == target {
            1
        } else {
            0
        }
    }

    fn next_cell(&self, i: usize) -> (s: u8)
        requires
            self.wf(),
            i < 1024,
        ensures
            s == cca_cell(self.states@, i as int),
            s < 14,
    {
        let x = (i % 32) as i32;
        let y = (i / 32) as i32;
        let current = self.states[i];
        let target = (current + 1) % STATES;
        let count = self.matches_at(x - 1, y - 1, target) + self.matches_at(x, y - 1, target)
            + self.matches_at(x + 1, y - 1, target) + self.matches_at(x - 1, y, target)
            + self.matches_at(x + 1, y, target) + self.matches_at(x - 1, y + 1, target)
            + self.matches_at(x, y + 1, target) + self.matches_at(x + 1, y + 1, target);
        if count >= THRESHOLD {
            target
        } else {
            current
        }
    }

    /// Writes the next state of every cell into `next` and tells whether any
    /// cell changed.
    fn fill_next(&self, next: &mut Vec<u8>) -> (changed: bool)
        requires
            self.wf(),
        ensures
            final(next)@ == cca_next(self.states@),
            final(next)@.len() == 1024,
            forall|j: int| 0 <= j < 1024 ==> #[trigger] final(next)@[j] < 14,
            changed == (cca_next(self.states@) != self.states@),
    {
        next.clear();
        let mut changed = false;
        let ghost mut witness: int = 0;
        let mut i: usize = 0;
        while i < 1024
            invariant
                self.wf(),
                i <= 1024,
                next@.len() == i,
                forall|j: int| 0 <= j < i ==> #[trigger] next@[j] == cca_cell(self.states@, j),
                forall|j: int| 0 <= j < i ==> #[trigger] next@[j] < 14,
                !changed ==> forall|j: int| 0 <= j < i ==> #[trigger] next@[j] == self.states@[j],
                changed ==> 0 <= witness < i && next@[witness] != self.states@[witness],
            decreases 1024 - i,
        {
            let s = self.next_cell(i);
            if s != self.states[i] {
                changed = true;
                proof {
                    witness = i as int;
                }
            }
            next.push(s);
            i = i + 1;
        }
        proof {
            reveal(cca_next);
        }
        assert(next@ =~= cca_next(self.states@));
        if !changed {
            assert(cca_next(self.states@) =~= self.states@);
        } else {
            assert(cca_next(self.states@)[witness] != self.states@[witness]);
        }
        changed
    }
}

impl RenderSource for Cca {
    open spec fn wf(&self) -> bool {
        &&& self.states_spec().len() == 1024
        &&& forall|i: int| 0 <= i < 1024 ==> #[trigger] self.states_spec()[i] < 14
    }

    /// Only the first random word is used.
    open spec fn step_spec(&self, noise: Seq<u32>, next: Cca) -> bool {
        next.states_spec() == cca_step(self.states_spec(), noise[0])
    }

    open spec fn paint_spec(&self, bytes: Seq<u8>) -> Seq<u8> {
        plot_all(bytes, cca_pixels(self.states_spec()))
    }

    fn step(&mut self, noise: &Vec<u32>) {
        let ghost old_states = self.states@;
        let mut next: Vec<u8> = Vec::new();
        std::mem::swap(&mut next, &mut self.next_states);
        let changed = self.fill_next(&mut next);
        std::mem::swap(&mut next, &mut self.states);
        self.next_states = next;
        proof {
            reveal(cca_step);
        }
        if !changed {
            let k = (noise[0] % 1024) as usize;
            let s = self.states[k];
            self.states.set(k, (s + 1) % STATES);
            assert(self.states@ == cca_next(old_states).update(k as int, successor(s)));
        }
    }

    fn draw(&self, target: &mut LedMatrixDisplay) {
        let ghost start = target@;
        let ghost pixels = cca_pixels(self.states@);
        let mut i: usize = 0;
        while i < 1024
            invariant
                self.wf(),
                target.wf(),
                i <= 1024,
                pixels == cca_pixels(self.states@),
                target@ == plot_all(start, pixels.subrange(0, i as int)),
            decreases 1024 - i,
        {
            let color = state_color_of(self.states[i]);
            target.plot((i % 32) as i32, (i / 32) as i32, color);
            proof {
                let next = pixels.subrange(0, i + 1);
                assert(next.drop_last() =~= pixels.subrange(0, i as int));
            }
            i = i + 1;
        }
        assert(pixels.subrange(0, 1024) =~= pixels);
    }
}

/// The colour of state `s`.
pub fn state_color_of(s: u8) -> (c: Rgb555)
    ensures
        c == state_color(s),
{
    if s == 0 {
        Rgb555::red()
    } else if s == 1 {
        Rgb555::green()
    } else if s == 2 {
        Rgb555::blue()
    } else if s == 3 {
        Rgb555::yellow()
    } else if s == 4 {
        Rgb555::cyan()
    } else if s == 5 {
        Rgb555::magenta()
    } else if s == 6 {
        Rgb555::white()
    } else if s == 7 {
        Rgb555::new(31, 15, 0)
    } else if s == 8 {
        Rgb555::new(15, 31, 0)
    } else if s == 9 {
        Rgb555::new(0, 31, 15)
    } else if s == 10 {
        Rgb555::new(15, 0, 31)
    } else if s == 11 {
        Rgb555::new(31, 0, 15)
    } else if s == 12 {
        Rgb555::new(15, 15, 31)
    } else {
        Rgb555::new(31, 31, 15)
    }
}

} // verus!
