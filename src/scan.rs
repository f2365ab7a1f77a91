use crate::framebuffer::{code_at, dark_frame, frame_ok, LedMatrixDisplay, COLUMNS, ROWS};
use vstd::prelude::*;

verus! {

/// Line operations of one row: the blanking, the address, 32 column shifts,
/// the latch, and the dwell with output enabled.
pub const OPS_PER_ROW: usize = 36;

/// Line operations of a full scan pass over the 16 row addresses.
pub const OPS_PER_PASS: usize = 576;

/// One step of the panel protocol, for the pins to carry out.
#[derive(Clone, Copy, Debug, PartialEq, Eq, Structural)]
pub enum LineOp {
    /// Put the row address on the four address lines.
    Address(u8),
    /// Put the packed byte on the six colour lines, then pulse the clock.
    Shift(u8),
    /// Pulse the latch line.
    Latch,
    /// Enable the outputs for the dwell window.
    Show,
    /// Disable the outputs.
    Blank,
}

/// Operation `k` of a full scan pass over the packed frame `bytes`.
pub open spec fn pass_op(bytes: Seq<u8>, k: int) -> LineOp {
    let row = k / 36;
    let j = k % 36;
    if j == 0 {
        LineOp::Blank
    } else if j == 1 {
        LineOp::Address(row as u8)
    } else if j <= 33 {
        LineOp::Shift(bytes[row * 32 + (j - 2)])
    } else if j == 34 {
        LineOp::Latch
    } else {
        LineOp::Show
    }
}

/// Levels of the six colour lines.
#[derive(Clone, Copy, Debug, PartialEq, Eq, Structural)]
pub struct ColorLevels {
    pub r1: bool,
    pub g1: bool,
    pub b1: bool,
    pub r2: bool,
    pub g2: bool,
    pub b2: bool,
}

/// Levels of the four address lines, least significant first.
#[derive(Clone, Copy, Debug, PartialEq, Eq, Structural)]
pub struct AddressLevels {
    pub a: bool,
    pub b: bool,
    pub c: bool,
    pub d: bool,
}

pub open spec fn bit(n: u8, i: nat) -> bool {
    (n as nat / vstd::arithmetic::power2::pow2(i)) % 2 == 1
}

/// The colour lines for a packed byte: bits 2, 1, 0 drive r1, g1, b1 of the
/// upper half, bits 6, 5, 4 drive r2, g2, b2 of the lower half.
pub open spec fn color_levels_of(c: u8) -> ColorLevels {
    ColorLevels {
        r1: bit(c, 2),
        g1: bit(c, 1),
        b1: bit(c, 0),
        r2: bit(c, 6),
        g2: bit(c, 5),
        b2: bit(c, 4),
    }
}

/// Does any colour line go high for this byte?
pub open spec fn lit(c: u8) -> bool {
    let l = color_levels_of(c);
    l.r1 || l.g1 || l.b1 || l.r2 || l.g2 || l.b2
}

/// Does this operation drive a colour line high at its clock edge?
pub open spec fn shows_light(op: LineOp) -> bool {
    match op {
        LineOp::Shift(b) => lit(b),
        _ => false,
    }
}

proof fn lemma_pow2_small()
    ensures
        vstd::arithmetic::power2::pow2(0) == 1,
        vstd::arithmetic::power2::pow2(1) == 2,
        vstd::arithmetic::power2::pow2(2) == 4,
        vstd::arithmetic::power2::pow2(3) == 8,
        vstd::arithmetic::power2::pow2(4) == 16,
        vstd::arithmetic::power2::pow2(5) == 32,
        vstd::arithmetic::power2::pow2(6) == 64,
{
    vstd::arithmetic::power2::lemma2_to64();
}

/// The colour line levels for packed byte `c`.
pub fn color_levels(c: u8) -> (l: ColorLevels)
    ensures
        l == color_levels_of(c),
{
    proof {
        lemma_pow2_small();
    }
    ColorLevels {
        r1: (c / 4) % 2 == 1,
        g1: (c / 2) % 2 == 1,
        b1: c % 2 == 1,
        r2: (c / 64) % 2 == 1,
        g2: (c / 32) % 2 == 1,
        b2: (c / 16) % 2 == 1,
    }
}

/// The address line levels for row address `a`.
pub fn address_levels(a: u8) -> (l: AddressLevels)
    ensures
        l == (AddressLevels { a: bit(a, 0), b: bit(a, 1), c: bit(a, 2), d: bit(a, 3) }),
{
    proof {
        lemma_pow2_small();
    }
    AddressLevels { a: a % 2 == 1, b: (a / 2) % 2 == 1, c: (a / 4) % 2 == 1, d: (a / 8) % 2 == 1 }
}

/// The level of the active-low output-enable line.
pub fn output_enable_level(enabled: bool) -> (level: bool)
    ensures
        level == !enabled,
{
    !enabled
}

/// Phases of the scan of one row.
#[derive(Clone, Copy, Debug, PartialEq, Eq, Structural)]
enum ScanPhase {
    Blank,
    ConfigureRow,
    ShiftColumns,
    Latch,
    Dwell,
}

/// The scan protocol as a state machine: each call of `next_op` yields the
/// next line operation, cycling through the rows forever.
pub struct ScanDriver {
    phase: ScanPhase,
    row: u8,
    column: u8,
}

impl ScanDriver {
    pub closed spec fn wf(&self) -> bool {
        self.row < 16 && self.column < 32
    }

    /// Index within the scan pass of the operation that comes next.
    pub closed spec fn position(&self) -> int {
        let base = self.row * 36;
        match self.phase {
            ScanPhase::Blank => base,
            ScanPhase::ConfigureRow => base + 1,
            ScanPhase::ShiftColumns => base + 2 + self.column,
            ScanPhase::Latch => base + 34,
            ScanPhase::Dwell => base + 35,
        }
    }

    /// A driver at the start of a pass, about to blank the outputs before
    /// addressing row 0.
    pub fn new() -> (s: ScanDriver)
        ensures
            s.wf(),
            s.position() == 0,
    {
        ScanDriver { phase: ScanPhase::Blank, row: 0, column: 0 }
    }

    /// Yields the next line operation for `frame` and advances the state.
    pub fn next_op(&mut self, frame: &LedMatrixDisplay) -> (op: LineOp)
        requires
            old(self).wf(),
            frame.wf(),
        ensures
            final(self).wf(),
            0 <= old(self).position() < OPS_PER_PASS,
            op == pass_op(frame@, old(self).position()),
            final(self).position() == (old(self).position() + 1) % (OPS_PER_PASS as int),
    {
        let ghost k = self.position();
        assert(k / 36 == self.row as int && k % 36 == k - self.row * 36) by (nonlinear_arith)
            requires
                k == self.row * 36 + (k - self.row * 36),
                0 <= k - self.row * 36 < 36,
        ;
        match self.phase {
            ScanPhase::Blank => {
                self.phase = ScanPhase::ConfigureRow;
                LineOp::Blank
            },
            ScanPhase::ConfigureRow => {
                self.phase = ScanPhase::ShiftColumns;
                self.column = 0;
                LineOp::Address(self.row)
            },
            ScanPhase::ShiftColumns => {
                let b = frame.row_byte(self.row as usize, self.column as usize);
                if self.column == 31 {
                    self.phase = ScanPhase::Latch;
                } else {
                    self.column = self.column + 1;
                }
                LineOp::Shift(b)
            },
            ScanPhase::Latch => {
                self.phase = ScanPhase::Dwell;
                LineOp::Latch
            },
            ScanPhase::Dwell => {
                self.phase = ScanPhase::Blank;
                self.row = if self.row == 15 {
                    0
                } else {
                    self.row + 1
                };
                LineOp::Show
            },
        }
    }
}

impl LedMatrixDisplay {
    /// The line operations of one full scan pass over this frame.
    pub fn run(&self) -> (ops: Vec<LineOp>)
        requires
            self.wf(),
        ensures
            ops@.len() == OPS_PER_PASS,
            forall|k: int| 0 <= k < OPS_PER_PASS ==> #[trigger] ops@[k] == pass_op(self@, k),
    {
        let mut driver = ScanDriver::new();
        let mut ops: Vec<LineOp> = Vec::new();
        let mut i: usize = 0;
        while i < OPS_PER_PASS
            invariant
                driver.wf(),
                i <= OPS_PER_PASS,
                i < OPS_PER_PASS ==> driver.position() == i,
                self.wf(),
                ops@.len() == i,
                forall|k: int| 0 <= k < i ==> #[trigger] ops@[k] == pass_op(self@, k),
            decreases OPS_PER_PASS - i,
        {
            let op = driver.next_op(self);
            ops.push(op);
            i = i + 1;
        }
        ops
    }
}

/// A cleared frame lights nothing: in a full scan pass over it no colour
/// line is high at any clock edge, on any row or column.
pub proof fn lemma_dark_frame_scans_dark()
    ensures
        forall|k: int| 0 <= k < OPS_PER_PASS ==> !shows_light(#[trigger] pass_op(dark_frame(), k)),
{
    lemma_pow2_small();
    assert forall|k: int| 0 <= k < OPS_PER_PASS implies !shows_light(
        #[trigger] pass_op(dark_frame(), k),
    ) by {
        let row = k / 36;
        let j = k % 36;
        if 2 <= j <= 33 {
            assert(0 <= row * 32 + (j - 2) < 512) by (nonlinear_arith)
                requires
                    0 <= row < 16,
                    2 <= j <= 33,
            ;
        }
    }
}

/// Does this operation change the address, colour or latch lines?
pub open spec fn drives_lines(op: LineOp) -> bool {
    match op {
        LineOp::Address(_) | LineOp::Shift(_) | LineOp::Latch => true,
        _ => false,
    }
}

/// Output-enable is off whenever the lines change: a pass opens by blanking
/// the outputs, every row blanks them before its address, and no Show comes
/// between that blanking and the row's address, shifts and latch. Each Show
/// follows its row's latch directly.
pub proof fn lemma_outputs_off_while_shifting(bytes: Seq<u8>)
    ensures
        pass_op(bytes, 0) == LineOp::Blank,
        forall|k: int|
            0 <= k < OPS_PER_PASS && drives_lines(#[trigger] pass_op(bytes, k)) ==> pass_op(
                bytes,
                (k / 36) * 36,
            ) == LineOp::Blank && (k / 36) * 36 < k,
        forall|k: int, m: int|
            0 <= k < OPS_PER_PASS && drives_lines(#[trigger] pass_op(bytes, k)) && (k / 36) * 36
                <= m < k ==> #[trigger] pass_op(bytes, m) != LineOp::Show,
        forall|k: int|
            0 <= k < OPS_PER_PASS && #[trigger] pass_op(bytes, k) == LineOp::Show ==> pass_op(
                bytes,
                k - 1,
            ) == LineOp::Latch,
{
    assert forall|k: int|
        0 <= k < OPS_PER_PASS && drives_lines(#[trigger] pass_op(bytes, k)) implies pass_op(
        bytes,
        (k / 36) * 36,
    ) == LineOp::Blank && (k / 36) * 36 < k by {
        assert(((k / 36) * 36) % 36 == 0 && ((k / 36) * 36) / 36 == k / 36) by (nonlinear_arith)
            requires
                0 <= k,
        ;
    }
    assert forall|k: int, m: int|
        0 <= k < OPS_PER_PASS && drives_lines(#[trigger] pass_op(bytes, k)) && (k / 36) * 36 <= m
            < k implies #[trigger] pass_op(bytes, m) != LineOp::Show by {
        assert(m / 36 == k / 36 && m % 36 == m - (k / 36) * 36) by (nonlinear_arith)
            requires
                0 <= k,
                (k / 36) * 36 <= m < k,
                k - (k / 36) * 36 < 36,
        ;
    }
    assert forall|k: int|
        0 <= k < OPS_PER_PASS && #[trigger] pass_op(bytes, k) == LineOp::Show implies pass_op(
        bytes,
        k - 1,
    ) == LineOp::Latch by {
        assert((k - 1) / 36 == k / 36 && (k - 1) % 36 == k % 36 - 1) by (nonlinear_arith)
            requires
                0 <= k,
                k % 36 == 35,
        ;
    }
}

} // verus!
