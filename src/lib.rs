//! Double-buffered scan/render pipeline for a multiplexed 32x32 RGB LED panel.
//!
//! The panel keeps no frame of its own: every row must be shifted out, latched
//! and shown again and again. This crate holds the packed frame buffer, the
//! scan protocol as a state machine, the exchange that hands finished frames
//! from the render side to the scan side, and the integer render sources.

mod ants;
mod cca;
mod color;
mod exchange;
mod framebuffer;
mod gol;
mod render;
mod scan;
mod trail;

pub use ants::{ant_move, ants_run, grid_pixels, left_of, right_of, wrap, Ant, Ants, Direction};
pub use cca::{
    cca_cell, cca_next, cca_pixels, cca_step, count_matching, state_color, state_color_of,
    successor, Cca, STATES, THRESHOLD,
};
pub use color::{code_of, Rgb555};
pub use exchange::{
    lemma_inactive_never_active, lemma_publish_alternates, lemma_publish_atomic, other,
    BufferExchange, BufferId,
};
pub use framebuffer::{
    byte_index, code_at, dark_frame, frame_ok, lemma_off_canvas_plots_ignored, on_canvas, pixel_on_canvas,
    plot_all, plot_one, set_code, LedMatrixDisplay, Pixel, COLUMNS, FRAME_BYTES, ROWS,
};
pub use gol::{
    cell_index, gol_color, gol_next, gol_pixels, live_neighbors, next_age, seeded_age, Gol,
};
pub use render::{
    lemma_published_frame_persists, lemma_published_pixel_visible, render_cycle, RenderSource, NOISE_LEN};
pub use scan::{
    address_levels, color_levels, color_levels_of, drives_lines, lemma_dark_frame_scans_dark,
    lemma_outputs_off_while_shifting, lit,
    output_enable_level, pass_op, shows_light, AddressLevels, ColorLevels, LineOp, ScanDriver,
    OPS_PER_PASS, OPS_PER_ROW,
};
pub use trail::{
    depth_color, depth_color_of, trail_pixel, trail_pixels, Trail, TrailPoint, TRAIL_LEN,
};
