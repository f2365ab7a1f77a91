use led_matrix::{
    render_cycle, BufferExchange, BufferId, Gol, LedMatrixDisplay, LineOp, RenderSource, Rgb555,
    NOISE_LEN,
};

fn bytes(d: &LedMatrixDisplay) -> Vec<u8> {
    let mut v = Vec::new();
    for r in 0..16 {
        for c in 0..32 {
            v.push(d.row_byte(r, c));
        }
    }
    v
}

#[test]
fn nothing_is_active_before_the_first_publish() {
    let e = BufferExchange::new();
    assert!(e.active().is_none());
    assert_eq!(e.active_id(), None);
    assert_eq!(e.inactive_id(), BufferId::A);
}

#[test]
fn buffers_strictly_alternate() {
    let mut e = BufferExchange::new();
    let (id, _) = e.acquire_inactive();
    assert_eq!(id, BufferId::A);
    assert_eq!(e.publish(id), None);
    assert_eq!(e.active_id(), Some(BufferId::A));
    let (id, _) = e.acquire_inactive();
    assert_eq!(id, BufferId::B);
    assert_eq!(e.publish(id), Some(BufferId::A));
    let (id, _) = e.acquire_inactive();
    assert_eq!(id, BufferId::A);
    assert_ne!(Some(id), e.active_id());
    assert_eq!(e.publish(id), Some(BufferId::B));
    for _ in 0..10 {
        let active = e.active_id();
        let (id, _) = e.acquire_inactive();
        assert_ne!(Some(id), active);
        assert_eq!(e.publish(id), active);
    }
}

#[test]
fn publish_exposes_the_whole_drawn_frame() {
    let mut e = BufferExchange::new();
    let (id, t) = e.acquire_inactive();
    t.plot(1, 2, Rgb555::red());
    t.plot(3, 20, Rgb555::green());
    let mut expected = LedMatrixDisplay::new();
    expected.plot(1, 2, Rgb555::red());
    expected.plot(3, 20, Rgb555::green());
    e.publish(id);
    assert_eq!(bytes(e.active().unwrap()), bytes(&expected));
    let (id, t) = e.acquire_inactive();
    t.plot(30, 30, Rgb555::blue());
    assert_eq!(bytes(e.active().unwrap()), bytes(&expected));
    e.publish(id);
    let mut second = LedMatrixDisplay::new();
    second.plot(30, 30, Rgb555::blue());
    assert_eq!(bytes(e.active().unwrap()), bytes(&second));
}

#[test]
fn published_pixel_stays_visible_until_the_next_publish() {
    let mut e = BufferExchange::new();
    let (id, t) = e.acquire_inactive();
    t.plot(15, 15, Rgb555::white());
    e.publish(id);
    let pass = e.active().unwrap().run();
    assert_eq!(pass[15 * 36 + 1], LineOp::Address(15));
    assert_eq!(pass[15 * 36 + 2 + 15], LineOp::Shift(0b111));
    for k in 0..5 {
        let (_, t) = e.acquire_inactive();
        t.clear();
        t.plot(k, k, Rgb555::red());
        assert_eq!(e.active().unwrap().run(), pass);
    }
}

#[test]
fn render_loop_without_pacing_publishes_every_frame() {
    let mut e = BufferExchange::new();
    let mut gol = Gol::new();
    gol.glider();
    let noise = vec![u32::MAX; NOISE_LEN];
    let mut last = None;
    for _ in 0..50 {
        let expected_id = e.inactive_id();
        let previous = render_cycle(&mut e, &mut gol, &noise);
        assert_eq!(previous, last);
        assert_eq!(e.active_id(), Some(expected_id));
        last = Some(expected_id);
        let mut d = LedMatrixDisplay::new();
        gol.draw(&mut d);
        assert_eq!(bytes(e.active().unwrap()), bytes(&d));
        assert_eq!(e.active().unwrap().run(), d.run());
    }
}
