use led_matrix::{
    address_levels, color_levels, output_enable_level, LedMatrixDisplay, LineOp, Rgb555,
    ScanDriver, OPS_PER_PASS,
};

fn dark(d: &LedMatrixDisplay) -> bool {
    (0..16).all(|r| (0..32).all(|c| d.row_byte(r, c) == 0))
}

#[test]
fn plot_red_reads_back_in_low_nibble() {
    let mut d = LedMatrixDisplay::new();
    d.plot(5, 5, Rgb555::red());
    let b = d.row_byte(5, 5);
    assert_eq!(b & 0x0f, 0b100);
    assert_eq!(b >> 4, 0);
    let l = color_levels(b);
    assert!(l.r1 && !l.g1 && !l.b1);
    assert_eq!(d.pixel(5, 5), 0b100);
}

#[test]
fn plot_lower_half_reads_back_in_high_nibble() {
    let mut d = LedMatrixDisplay::new();
    d.plot(5, 21, Rgb555::red());
    let b = d.row_byte(5, 5);
    assert_eq!(b & 0x0f, 0);
    assert_eq!(b >> 4, 0b100);
    let l = color_levels(b);
    assert!(l.r2 && !l.g2 && !l.b2);
    assert!(!l.r1 && !l.g1 && !l.b1);
}

#[test]
fn halves_share_a_byte_without_interfering() {
    let mut d = LedMatrixDisplay::new();
    d.plot(7, 3, Rgb555::green());
    d.plot(7, 19, Rgb555::blue());
    assert_eq!(d.row_byte(3, 7), 0b0001_0010);
    d.plot(7, 3, Rgb555::black());
    assert_eq!(d.row_byte(3, 7), 0b0001_0000);
    assert_eq!(d.pixel(7, 19), 0b001);
}

#[test]
fn corner_pixels_land_in_their_bytes() {
    let mut d = LedMatrixDisplay::new();
    d.plot(0, 0, Rgb555::white());
    d.plot(31, 31, Rgb555::white());
    assert_eq!(d.row_byte(0, 0), 0x07);
    assert_eq!(d.row_byte(15, 31), 0x70);
}

#[test]
fn off_canvas_plots_are_ignored() {
    let mut d = LedMatrixDisplay::new();
    for (x, y) in [(-1, 0), (32, 0), (0, 32), (0, -5), (i32::MIN, i32::MAX), (100, 100)] {
        d.plot(x, y, Rgb555::white());
    }
    assert!(dark(&d));
    d.plot(3, 3, Rgb555::cyan());
    let before: Vec<u8> = (0..16).flat_map(|r| (0..32).map(move |c| (r, c))).map(|(r, c)| d.row_byte(r, c)).collect();
    d.plot(-1, 3, Rgb555::red());
    d.plot(3, 32, Rgb555::red());
    let after: Vec<u8> = (0..16).flat_map(|r| (0..32).map(move |c| (r, c))).map(|(r, c)| d.row_byte(r, c)).collect();
    assert_eq!(before, after);
}

#[test]
fn draw_iter_skips_points_off_canvas() {
    let mut d = LedMatrixDisplay::new();
    let pts = vec![
        led_matrix::Pixel { x: 2, y: 2, color: Rgb555::red() },
        led_matrix::Pixel { x: -2, y: 2, color: Rgb555::green() },
        led_matrix::Pixel { x: 2, y: 40, color: Rgb555::blue() },
        led_matrix::Pixel { x: 2, y: 18, color: Rgb555::green() },
    ];
    d.draw_iter(&pts);
    assert_eq!(d.row_byte(2, 2), 0b0010_0100);
    assert_eq!(d.pixel(0, 2), 0);
}

#[test]
fn clear_turns_everything_off() {
    let mut d = LedMatrixDisplay::new();
    d.plot(1, 1, Rgb555::white());
    d.plot(30, 30, Rgb555::magenta());
    d.clear();
    assert!(dark(&d));
}

#[test]
fn quantize_lights_any_nonzero_channel() {
    assert_eq!(Rgb555::new(2, 0, 0).quantize(), 0b100);
    assert_eq!(Rgb555::new(0, 1, 0).quantize(), 0b010);
    assert_eq!(Rgb555::new(0, 0, 16).quantize(), 0b001);
    assert_eq!(Rgb555::black().quantize(), 0);
    assert_eq!(Rgb555::white().quantize(), 0b111);
    assert_eq!(Rgb555::yellow().quantize(), 0b110);
    assert_eq!(Rgb555::new(15, 15, 31).quantize(), 0b111);
}

#[test]
fn line_levels_follow_the_wiring_table() {
    let l = color_levels(0b0101_0011);
    assert!(!l.r1 && l.g1 && l.b1);
    assert!(l.r2 && !l.g2 && l.b2);
    let a = address_levels(10);
    assert!(!a.a && a.b && !a.c && a.d);
    let a = address_levels(15);
    assert!(a.a && a.b && a.c && a.d);
    assert!(!output_enable_level(true));
    assert!(output_enable_level(false));
}

#[test]
fn clear_then_scan_asserts_no_colour() {
    let mut d = LedMatrixDisplay::new();
    d.plot(9, 9, Rgb555::white());
    d.plot(9, 25, Rgb555::red());
    d.clear();
    let ops = d.run();
    assert_eq!(ops.len(), OPS_PER_PASS);
    let mut shifts = 0;
    for op in ops {
        if let LineOp::Shift(b) = op {
            shifts += 1;
            let l = color_levels(b);
            assert!(!(l.r1 || l.g1 || l.b1 || l.r2 || l.g2 || l.b2));
        }
    }
    assert_eq!(shifts, 16 * 32);
}

#[test]
fn single_white_pixel_lights_only_row_15_column_15() {
    let mut d = LedMatrixDisplay::new();
    d.clear();
    d.plot(15, 15, Rgb555::white());
    let ops = d.run();
    let mut row: Option<u8> = None;
    let mut column = 0;
    let mut lit_edges = 0;
    for op in ops {
        match op {
            LineOp::Address(a) => {
                row = Some(a);
                column = 0;
            }
            LineOp::Shift(b) => {
                let l = color_levels(b);
                let any = l.r1 || l.g1 || l.b1 || l.r2 || l.g2 || l.b2;
                if row == Some(15) && column == 15 {
                    assert!(l.r1 && l.g1 && l.b1);
                    assert!(!l.r2 && !l.g2 && !l.b2);
                    let a = address_levels(15);
                    assert!(a.a && a.b && a.c && a.d);
                    lit_edges += 1;
                } else {
                    assert!(!any);
                }
                column += 1;
            }
            _ => {}
        }
    }
    assert_eq!(lit_edges, 1);
}

#[test]
fn scan_pass_follows_the_row_protocol() {
    let mut d = LedMatrixDisplay::new();
    d.plot(4, 2, Rgb555::blue());
    let ops = d.run();
    for row in 0..16usize {
        let base = row * 36;
        assert_eq!(ops[base], LineOp::Blank);
        assert_eq!(ops[base + 1], LineOp::Address(row as u8));
        for col in 0..32usize {
            assert_eq!(ops[base + 2 + col], LineOp::Shift(d.row_byte(row, col)));
        }
        assert_eq!(ops[base + 34], LineOp::Latch);
        assert_eq!(ops[base + 35], LineOp::Show);
    }
    assert_eq!(ops[2 * 36 + 2 + 4], LineOp::Shift(0b001));
}

#[test]
fn scan_driver_cycles_forever() {
    let d = LedMatrixDisplay::new();
    let mut s = ScanDriver::new();
    let first: Vec<LineOp> = (0..OPS_PER_PASS).map(|_| s.next_op(&d)).collect();
    assert_eq!(first, d.run());
    assert_eq!(s.next_op(&d), LineOp::Blank);
    assert_eq!(s.next_op(&d), LineOp::Address(0));
    assert_eq!(s.next_op(&d), LineOp::Shift(0));
}

#[test]
fn outputs_are_off_whenever_lines_change() {
    let mut d = LedMatrixDisplay::new();
    d.plot(3, 3, Rgb555::white());
    let ops = d.run();
    assert_eq!(ops[0], LineOp::Blank);
    // Start as if the outputs had been left on by an earlier pass.
    let mut enabled = true;
    let mut previous = LineOp::Blank;
    for op in ops {
        match op {
            LineOp::Blank => enabled = false,
            LineOp::Show => {
                assert_eq!(previous, LineOp::Latch);
                enabled = true;
            }
            LineOp::Address(_) | LineOp::Shift(_) | LineOp::Latch => assert!(!enabled),
        }
        previous = op;
    }
    assert!(enabled);
}
