use crate::exchange::{other, BufferExchange, BufferId};
use crate::framebuffer::{byte_index, code_at, dark_frame, frame_ok, on_canvas, LedMatrixDisplay};
use crate::scan::{pass_op, LineOp, OPS_PER_PASS};
use vstd::prelude::*;

verus! {

/// Random words a render source may draw on in one tick, one per pixel.
pub const NOISE_LEN: usize = 1024;

/// What the render loop asks of a source of frames.
pub trait RenderSource: Sized {
    spec fn wf(&self) -> bool;

    /// Does one tick, with the random words `noise`, take `self` to `next`?
    spec fn step_spec(&self, noise: Seq<u32>, next: Self) -> bool;

    /// The packed frame after painting the current state onto `bytes`.
    spec fn paint_spec(&self, bytes: Seq<u8>) -> Seq<u8>;

    /// Advances the simulation by one tick.
    fn step(&mut self, noise: &Vec<u32>)
        requires
            old(self).wf(),
            noise@.len() == NOISE_LEN,
        ensures
            final(self).wf(),
            old(self).step_spec(noise@, *final(self)),
    ;

    /// Paints the current state onto `target`.
    fn draw(&self, target: &mut LedMatrixDisplay)
        requires
            self.wf(),
            old(target).wf(),
        ensures
            final(target).wf(),
            final(target)@ == self.paint_spec(old(target)@),
    ;
}

/// One cycle of the render loop: step the source, paint it onto the cleared
/// inactive buffer, and publish that buffer. Returns the buffer that was
/// active before.
pub fn render_cycle<S: RenderSource>(
    exchange: &mut BufferExchange,
    source: &mut S,
    noise: &Vec<u32>,
) -> (previous: Option<BufferId>)
    requires
        old(exchange).wf(),
        old(source).wf(),
        noise@.len() == NOISE_LEN,
    ensures
        final(source).wf(),
        old(source).step_spec(noise@, *final(source)),
        final(exchange).wf(),
        previous == old(exchange).active_spec(),
        final(exchange).active_spec() == Some(old(exchange).inactive_spec()),
        final(exchange).frame(old(exchange).inactive_spec()) == final(source).paint_spec(
            dark_frame(),
        ),
        final(exchange).frame(other(old(exchange).inactive_spec())) == old(exchange).frame(
            other(old(exchange).inactive_spec()),
        ),
{
    source.step(noise);
    let (id, target) = exchange.acquire_inactive();
    target.clear();
    source.draw(target);
    exchange.publish(id)
}

/// While the render side draws into the inactive buffer, the active frame
/// stays as published, so every scan pass shows the same operations until the
/// next publish.
pub proof fn lemma_published_frame_persists(before: BufferExchange, after: BufferExchange)
    requires
        before.wf(),
        before.active_spec() is Some,
        after.active_spec() == before.active_spec(),
        after.frame(other(before.inactive_spec())) == before.frame(other(before.inactive_spec())),
    ensures
        forall|k: int|
            0 <= k < OPS_PER_PASS ==> #[trigger] pass_op(after.frame(after.active_spec().unwrap()), k)
                == pass_op(before.frame(before.active_spec().unwrap()), k),
{
    let id = before.active_spec().unwrap();
    assert(other(before.inactive_spec()) == id);
}

/// A pixel of the published frame stays visible: while only the inactive
/// buffer changes, every scan pass addresses row `y % 16` and, at column `x`,
/// shifts the byte whose nibble for `y` (low for the upper half, high for the
/// lower) is the code published at `(x, y)`.
pub proof fn lemma_published_pixel_visible(
    before: BufferExchange,
    after: BufferExchange,
    x: int,
    y: int,
)
    requires
        before.wf(),
        before.active_spec() is Some,
        after.active_spec() == before.active_spec(),
        after.frame(other(before.inactive_spec())) == before.frame(other(before.inactive_spec())),
        on_canvas(x, y),
    ensures
        ({
            let f = after.frame(after.active_spec().unwrap());
            let row = y % 16;
            &&& pass_op(f, row * 36 + 1) == LineOp::Address(row as u8)
            &&& pass_op(f, row * 36 + 2 + x) == LineOp::Shift(f[byte_index(x, y)])
            &&& code_at(before.frame(before.active_spec().unwrap()), x, y) == if y < 16 {
                f[byte_index(x, y)] % 16
            } else {
                f[byte_index(x, y)] / 16
            }
        }),
{
    let id = before.active_spec().unwrap();
    assert(other(before.inactive_spec()) == id);
    let row = y % 16;
    assert((row * 36 + 1) / 36 == row && (row * 36 + 1) % 36 == 1) by (nonlinear_arith)
        requires
            0 <= row < 16,
    ;
    assert((row * 36 + 2 + x) / 36 == row && (row * 36 + 2 + x) % 36 == 2 + x) by (nonlinear_arith)
        requires
            0 <= row < 16,
            0 <= x < 32,
    ;
}

} // verus!
