use emulator::frame::{FrameLoop, StepBurst};
use emulator::input::InputLatch;
use emulator::palette::{hex_string_to_color, Palette, Rgb};
use emulator::raster::{color_buffer, Mesh, PixelGrid, Vertex, VerticalAxis};
use emulator::scheduler::{steps_for, ClockState};
use emulator::{SCREEN_HEIGHT, SCREEN_WIDTH};

fn black_and_white() -> Palette {
    Palette::new(Rgb { r: 255, g: 255, b: 255 }, Rgb { r: 0, g: 0, b: 0 })
}

fn to_unit(c: u8) -> f32 {
    c as f32 / 255.0
}

#[test]
fn steps_for_twenty_ms_at_500_hz() {
    assert_eq!(steps_for(20_000, 500), 10);
}

#[test]
fn steps_round_down() {
    assert_eq!(steps_for(16_667, 500), 8);
    assert_eq!(steps_for(1_999, 1000), 1);
    assert_eq!(steps_for(0, 1_000_000), 0);
}

#[test]
fn paused_clock_owes_no_steps() {
    assert_eq!(steps_for(0, 0), 0);
    assert_eq!(steps_for(3_600_000_000, 0), 0);
}

#[test]
fn steps_grow_with_time_and_speed() {
    let mut previous: u128 = 0;
    for dt in [0u64, 1_000, 16_667, 20_000, 50_000, 1_000_000] {
        let n = steps_for(dt, 700);
        assert!(n >= previous);
        previous = n;
    }
    previous = 0;
    for speed in [0u64, 1, 60, 500, 700, 5_000] {
        let n = steps_for(20_000, speed);
        assert!(n >= previous);
        previous = n;
    }
}

#[test]
fn huge_gap_gives_unclamped_burst() {
    assert_eq!(steps_for(u64::MAX, u64::MAX), (u64::MAX as u128) * (u64::MAX as u128) / 1_000_000);
}

#[test]
fn timer_waits_for_a_full_period() {
    let mut clock = ClockState::new(1_000);
    let b = clock.advance(1_000 + 16_666, 500);
    assert!(!b.timer_due);
    assert_eq!(clock.last_timer_us, 1_000);
    assert_eq!(clock.last_frame_us, 17_666);
}

#[test]
fn timer_threshold_is_inclusive() {
    let mut clock = ClockState::new(0);
    // 60 * 16_667 us is just over one second; 60 * 16_666 us just under.
    let b = clock.advance(16_667, 0);
    assert!(b.timer_due);
    assert_eq!(clock.last_timer_us, 16_667);
}

#[test]
fn timer_ticks_once_per_50_ms_frame() {
    let mut clock = ClockState::new(0);
    for frame in 1..=5u64 {
        let now = frame * 50_000;
        let b = clock.advance(now, 500);
        assert!(b.timer_due);
        assert_eq!(b.n_steps, 25);
        assert_eq!(clock.last_timer_us, now);
        assert_eq!(clock.last_frame_us, now);
    }
}

#[test]
fn timer_resets_to_frame_time_after_lag() {
    let mut clock = ClockState::new(0);
    // A whole second passes: one tick only, and the base moves to now.
    let b = clock.advance(1_000_000, 60);
    assert!(b.timer_due);
    assert_eq!(b.n_steps, 60);
    assert_eq!(clock.last_timer_us, 1_000_000);
    // The missed periods are not caught up in the next frame.
    let b = clock.advance(1_010_000, 60);
    assert!(!b.timer_due);
    assert_eq!(clock.last_timer_us, 1_000_000);
}

#[test]
fn clock_going_backwards_owes_nothing() {
    let mut clock = ClockState::new(50_000);
    let b = clock.advance(40_000, 1_000);
    assert_eq!(b.n_steps, 0);
    assert!(!b.timer_due);
    assert_eq!(clock.last_frame_us, 50_000);
    assert_eq!(clock.last_timer_us, 50_000);
}

#[test]
fn mesh_and_buffer_sizes() {
    let mesh = Mesh::new(VerticalAxis::TopDown);
    assert_eq!(mesh.vertex_count(), 8192);
    assert_eq!(mesh.index_count(), 12288);
    assert_eq!(mesh.vertices().len(), 8192);
    assert_eq!(mesh.indices().len(), 12288);
    let grid = PixelGrid::new();
    assert_eq!(color_buffer(&grid, &black_and_white()).len(), 24576);
    assert_eq!(SCREEN_WIDTH * SCREEN_HEIGHT * 4 * 3, 24576);
}

#[test]
fn mesh_top_down_corners() {
    let mesh = Mesh::new(VerticalAxis::TopDown);
    let v = mesh.vertices();
    assert_eq!(v[0], Vertex { x: -64, y: 32 });
    assert_eq!(v[1], Vertex { x: -64, y: 30 });
    assert_eq!(v[2], Vertex { x: -62, y: 32 });
    assert_eq!(v[3], Vertex { x: -62, y: 30 });
    // Pixel (0, 1) lies below pixel (0, 0).
    assert_eq!(v[4], Vertex { x: -64, y: 30 });
    // The last pixel, (63, 31), ends at the bottom right corner.
    assert_eq!(v[8191], Vertex { x: 64, y: -32 });
    assert_eq!(v[0].x as f32 / SCREEN_WIDTH as f32, -1.0);
    assert_eq!(v[0].y as f32 / SCREEN_HEIGHT as f32, 1.0);
}

#[test]
fn mesh_bottom_up_corners() {
    let mesh = Mesh::new(VerticalAxis::BottomUp);
    let v = mesh.vertices();
    assert_eq!(v[0], Vertex { x: -64, y: -32 });
    assert_eq!(v[1], Vertex { x: -64, y: -30 });
    assert_eq!(v[8191], Vertex { x: 64, y: 32 });
}

#[test]
fn mesh_indices_form_two_triangles_per_quad() {
    let mesh = Mesh::new(VerticalAxis::TopDown);
    let idx = mesh.indices();
    assert_eq!(&idx[0..12], &[0, 1, 2, 1, 2, 3, 4, 5, 6, 5, 6, 7]);
    assert_eq!(&idx[12282..12288], &[8188, 8189, 8190, 8189, 8190, 8191]);
}

#[test]
fn clearing_a_pixel_repaints_only_its_quad() {
    let palette = Palette::new(Rgb { r: 10, g: 20, b: 30 }, Rgb { r: 1, g: 2, b: 3 });
    let mut grid = PixelGrid::new();
    grid.set(0, 0, true);
    grid.set(63, 31, true);
    let before = color_buffer(&grid, &palette);
    grid.set(7, 9, true);
    let lit = color_buffer(&grid, &palette);
    let i = (7 * SCREEN_HEIGHT + 9) * 12;
    assert_eq!(&lit[i..i + 12], &[10, 20, 30, 10, 20, 30, 10, 20, 30, 10, 20, 30]);
    grid.set(7, 9, false);
    let after = color_buffer(&grid, &palette);
    assert_eq!(&after[i..i + 12], &[1, 2, 3, 1, 2, 3, 1, 2, 3, 1, 2, 3]);
    assert_eq!(before, after);
    assert_eq!(&after[0..3], &[10, 20, 30]);
}

#[test]
fn white_on_black_pixels() {
    let mut palette = black_and_white();
    assert_eq!(palette.set_from_hex("#FFFFFF", "#000000"), Ok(()));
    let mut grid = PixelGrid::new();
    grid.set(2, 1, true);
    assert!(grid.get(2, 1));
    assert!(!grid.get(1, 2));
    let buf = color_buffer(&grid, &palette);
    let on = (2 * SCREEN_HEIGHT + 1) * 12;
    for c in &buf[on..on + 12] {
        assert_eq!(to_unit(*c), 1.0);
    }
    let off = (1 * SCREEN_HEIGHT + 2) * 12;
    for c in &buf[off..off + 12] {
        assert_eq!(to_unit(*c), 0.0);
    }
}

#[test]
fn hex_parse_of_1a2b3c() {
    let c = hex_string_to_color("#1A2B3C").unwrap();
    assert_eq!(c, Rgb { r: 0x1A, g: 0x2B, b: 0x3C });
    assert!((to_unit(c.r) - 0.102).abs() < 0.001);
    assert!((to_unit(c.g) - 0.169).abs() < 0.001);
    assert!((to_unit(c.b) - 0.235).abs() < 0.001);
}

#[test]
fn hex_parse_accepts_lower_case() {
    assert_eq!(hex_string_to_color("#ff8000"), Ok(Rgb { r: 255, g: 128, b: 0 }));
    assert_eq!(hex_string_to_color("#aBcDeF"), Ok(Rgb { r: 0xAB, g: 0xCD, b: 0xEF }));
}

#[test]
fn hex_parse_rejects_malformed() {
    for bad in ["", "#12345", "#1234567", "123456#", "1A2B3C4", "#GG0000", "#12 456", "#+12345", "#1A2B3é"] {
        let e = hex_string_to_color(bad).unwrap_err();
        assert_eq!(e.text, bad);
    }
}

#[test]
fn palette_keeps_colours_on_bad_input() {
    let mut palette = black_and_white();
    let e = palette.set_from_hex("#00FF00", "black").unwrap_err();
    assert_eq!(e.text, "black");
    assert_eq!(palette, black_and_white());
    let e = palette.set_from_hex("green", "#zzzzzz").unwrap_err();
    assert_eq!(e.text, "green");
    assert_eq!(palette, black_and_white());
    assert_eq!(palette.set_from_hex("#00ff00", "#101010"), Ok(()));
    assert_eq!(palette.foreground, Rgb { r: 0, g: 255, b: 0 });
    assert_eq!(palette.background, Rgb { r: 16, g: 16, b: 16 });
}

#[test]
fn release_is_delivered_once() {
    let mut latch = InputLatch::new();
    assert!(latch.press(4));
    assert!(latch.snapshot()[4]);
    assert!(latch.release(4));
    assert!(!latch.snapshot()[4]);
    assert_eq!(latch.take_release(), Some(4));
    assert_eq!(latch.take_release(), None);
}

#[test]
fn keys_out_of_range_are_refused() {
    let mut latch = InputLatch::new();
    assert!(!latch.press(16));
    assert!(!latch.release(200));
    assert_eq!(latch.snapshot(), [false; 16]);
    assert_eq!(latch.take_release(), None);
}

#[test]
fn snapshot_replaces_keys_and_keeps_release() {
    let mut latch = InputLatch::new();
    latch.release(9);
    let mut keys = [false; 16];
    keys[0] = true;
    keys[15] = true;
    latch.set_all(keys);
    assert_eq!(latch.snapshot(), keys);
    assert_eq!(latch.take_release(), Some(9));
}

#[test]
fn frame_plan_carries_inputs_and_budget() {
    let mut frames = FrameLoop::new(0, black_and_white());
    frames.input.press(1);
    frames.input.press(2);
    frames.input.release(2);
    let plan = frames.begin_frame(20_000, 500);
    assert_eq!(plan.n_steps, 10);
    assert!(plan.timer_due);
    assert_eq!(plan.released, Some(2));
    let mut expected = [false; 16];
    expected[1] = true;
    assert_eq!(plan.keys, expected);
    let plan = frames.begin_frame(30_000, 500);
    assert_eq!(plan.n_steps, 5);
    assert!(!plan.timer_due);
    assert_eq!(plan.released, None);
    assert_eq!(plan.keys, expected);
}

#[test]
fn frame_paints_grid() {
    let frames = FrameLoop::new(0, black_and_white());
    let mut grid = PixelGrid::new();
    grid.set(0, 0, true);
    let buf = frames.paint(&grid);
    assert_eq!(buf.len(), 24576);
    assert_eq!(&buf[0..12], &[255; 12]);
    assert_eq!(&buf[12..24], &[0; 12]);
}

#[test]
fn failed_step_ends_the_burst() {
    let mut burst = StepBurst::new(5);
    let outcomes = [true, true, false, true, true];
    let mut ran = 0;
    while burst.wants_step() {
        burst.record(outcomes[ran]);
        ran += 1;
    }
    assert_eq!(ran, 3);
    assert_eq!(burst.remaining, 0);
}

#[test]
fn burst_runs_every_step_without_failure() {
    let mut burst = StepBurst::new(4);
    let mut ran = 0;
    while burst.wants_step() {
        burst.record(true);
        ran += 1;
    }
    assert_eq!(ran, 4);
    assert!(!StepBurst::new(0).wants_step());
}
