use led_matrix::{
    depth_color_of, state_color_of, Ants, Cca, Direction, Gol, LedMatrixDisplay, RenderSource,
    Rgb555, Trail, TrailPoint, NOISE_LEN,
};

#[test]
fn gol_blinker_oscillates() {
    let mut noise = vec![0u32; NOISE_LEN];
    for x in 1..4 {
        noise[2 * 32 + x] = u32::MAX;
    }
    let mut g = Gol::new();
    g.randomize(&noise);
    assert_eq!(g.age(1, 2), 0);
    assert_eq!(g.age(2, 2), 0);
    assert_eq!(g.age(3, 2), 0);
    assert_eq!(g.age(0, 0), 1);
    let quiet = vec![u32::MAX; NOISE_LEN];
    g.step(&quiet);
    assert_eq!(g.age(2, 1), 0);
    assert_eq!(g.age(2, 2), 0);
    assert_eq!(g.age(2, 3), 0);
    assert_eq!(g.age(1, 2), 1);
    assert_eq!(g.age(3, 2), 1);
    assert_eq!(g.age(10, 10), 2);
    g.step(&quiet);
    assert_eq!(g.age(1, 2), 0);
    assert_eq!(g.age(3, 2), 0);
    assert_eq!(g.age(2, 1), 1);
}

#[test]
fn gol_long_empty_cell_spawns() {
    let mut g = Gol::new();
    let zero = vec![0u32; NOISE_LEN];
    g.step(&zero);
    assert_eq!(g.age(5, 5), 0);
}

#[test]
fn gol_draw_colours_by_neighbours() {
    let mut noise = vec![0u32; NOISE_LEN];
    for x in 1..4 {
        noise[2 * 32 + x] = u32::MAX;
    }
    let mut g = Gol::new();
    g.randomize(&noise);
    let mut d = LedMatrixDisplay::new();
    d.plot(20, 20, Rgb555::white());
    g.draw(&mut d);
    assert_eq!(d.pixel(2, 2), 0b010);
    assert_eq!(d.pixel(1, 2), 0b001);
    assert_eq!(d.pixel(20, 20), 0);
}

#[test]
fn gol_glider_cells() {
    let mut g = Gol::new();
    g.glider();
    for (x, y) in [(1, 1), (1, 3), (2, 2), (2, 3), (3, 2)] {
        assert_eq!(g.age(x, y), 0);
    }
    assert_eq!(g.age(2, 1), 1);
}

#[test]
fn cca_kicks_a_dead_automaton() {
    let zero = vec![0u32; NOISE_LEN];
    let mut c = Cca::new(&zero);
    let mut noise = vec![0u32; NOISE_LEN];
    noise[0] = 1024 + 37;
    c.step(&noise);
    assert_eq!(c.state(5, 1), 1);
    assert_eq!(c.state(4, 1), 0);
}

#[test]
fn cca_advances_with_three_successor_neighbours() {
    let mut noise = vec![0u32; NOISE_LEN];
    noise[0] = 1;
    noise[1] = 15;
    noise[2] = 29;
    let mut c = Cca::new(&noise);
    assert_eq!(c.state(1, 0), 1);
    c.step(&vec![0u32; NOISE_LEN]);
    assert_eq!(c.state(1, 1), 1);
    assert_eq!(c.state(0, 0), 1);
    assert_eq!(c.state(10, 10), 0);
}

#[test]
fn cca_draw_uses_state_palette() {
    let mut noise = vec![0u32; NOISE_LEN];
    noise[33] = 7;
    let c = Cca::new(&noise);
    let mut d = LedMatrixDisplay::new();
    c.draw(&mut d);
    assert_eq!(d.pixel(1, 1), 0b110);
    assert_eq!(d.pixel(0, 0), 0b100);
    assert_eq!(state_color_of(13), Rgb555::new(31, 31, 15));
}

#[test]
fn ants_turn_flip_and_move() {
    let mut a = Ants::new();
    a.step(&vec![0u32; NOISE_LEN]);
    assert_eq!(a.cell(10, 10), 1);
    assert_eq!(a.cell(20, 10), 1);
    assert_eq!(a.cell(15, 20), 1);
    let first = a.ant(0);
    assert_eq!((first.x, first.y, first.dir), (11, 10, Direction::Right));
    let second = a.ant(1);
    assert_eq!((second.x, second.y, second.dir), (20, 11, Direction::Down));
    let third = a.ant(2);
    assert_eq!((third.x, third.y, third.dir), (14, 20, Direction::Left));
    let mut d = LedMatrixDisplay::new();
    a.draw(&mut d);
    assert_eq!(d.pixel(10, 10), 0b111);
    assert_eq!(d.pixel(11, 10), 0b100);
    assert_eq!(d.pixel(14, 20), 0b001);
}

#[test]
fn ants_wrap_around_the_edges() {
    let mut a = Ants::new();
    for _ in 0..200 {
        a.step(&vec![0u32; NOISE_LEN]);
        for i in 0..3 {
            let ant = a.ant(i);
            assert!((0..32).contains(&ant.x) && (0..32).contains(&ant.y));
        }
    }
}

#[test]
fn trail_head_is_white_and_tail_coloured_by_depth() {
    let mut t = Trail::new();
    t.push(TrailPoint { x: 3, y: 4, depth: 5 });
    let mut d = LedMatrixDisplay::new();
    t.draw(&mut d);
    assert_eq!(d.pixel(3, 4), 0b111);
    t.push(TrailPoint { x: 6, y: 7, depth: 25 });
    t.push(TrailPoint { x: -3, y: 7, depth: 25 });
    let mut d = LedMatrixDisplay::new();
    t.draw(&mut d);
    assert_eq!(d.pixel(3, 4), 0b001);
    assert_eq!(d.pixel(6, 7), 0b110);
    assert_eq!(depth_color_of(12), Rgb555::cyan());
    assert_eq!(depth_color_of(30), Rgb555::red());
}

#[test]
fn trail_drops_its_oldest_point() {
    let mut t = Trail::new();
    t.push(TrailPoint { x: 1, y: 1, depth: 0 });
    for _ in 0..64 {
        t.push(TrailPoint { x: 2, y: 2, depth: 0 });
    }
    let mut d = LedMatrixDisplay::new();
    t.draw(&mut d);
    assert_eq!(d.pixel(1, 1), 0);
    assert_eq!(d.pixel(2, 2), 0b111);
}

#[test]
fn defaults_match_new() {
    let g = Gol::default();
    assert_eq!(g.age(0, 0), 1);
    assert_eq!(g.age(31, 31), 1);
    let a = Ants::default();
    assert_eq!(a.cell(10, 10), 0);
    let first = a.ant(0);
    assert_eq!((first.x, first.y, first.dir, first.color), (10, 10, Direction::Up, Rgb555::red()));
}
