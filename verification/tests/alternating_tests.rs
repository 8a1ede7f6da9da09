use lightshow::patterns::alternating::{
    cycle_period, generate, generate_at, AlternatingOrder, AlternatingState, COLOR_CYCLE_SECS,
    DURATION_MS, PALETTE_LEN,
};
use lightshow::pixel::Pixel;

const RED: Pixel = Pixel { r: 255, g: 0, b: 0 };
const GREEN: Pixel = Pixel { r: 0, g: 128, b: 0 };
const BLUE: Pixel = Pixel { r: 0, g: 0, b: 255 };
const DARK_VIOLET: Pixel = Pixel { r: 148, g: 0, b: 211 };
const ORANGE: Pixel = Pixel { r: 255, g: 165, b: 0 };
const BLACK: Pixel = Pixel { r: 0, g: 0, b: 0 };

/// Thirty seconds on a clock of a million ticks per second.
const CYCLE: u64 = 30_000_000;

#[test]
fn alternating_starts_with_the_first_pair() {
    let state = AlternatingState::starting_at(77);
    assert_eq!(state.palette_index(), 0);
    assert_eq!(state.order(), AlternatingOrder::Forward);
    assert_eq!(state.last_cycle_time(), 77);
}

#[test]
fn alternating_first_frame_puts_the_first_colour_on_even_pixels() {
    let mut frame = [BLACK; 5];
    let mut state = AlternatingState::starting_at(0);
    generate_at(&mut frame, &mut state, 400_000, CYCLE);
    assert_eq!(frame, [RED, GREEN, RED, GREEN, RED]);
    assert_eq!(state.order(), AlternatingOrder::Reverse);
    assert_eq!(state.palette_index(), 0);
    assert_eq!(state.last_cycle_time(), 0);
}

#[test]
fn alternating_flips_on_every_frame() {
    let mut frame = [BLACK; 4];
    let mut state = AlternatingState::starting_at(0);
    generate_at(&mut frame, &mut state, 1, CYCLE);
    assert_eq!(frame, [RED, GREEN, RED, GREEN]);
    generate_at(&mut frame, &mut state, 2, CYCLE);
    assert_eq!(frame, [GREEN, RED, GREEN, RED]);
    assert_eq!(state.order(), AlternatingOrder::Forward);
    generate_at(&mut frame, &mut state, 3, CYCLE);
    assert_eq!(frame, [RED, GREEN, RED, GREEN]);
}

#[test]
fn alternating_keeps_the_pair_until_thirty_seconds_are_over() {
    let mut frame = [BLACK; 2];
    let mut state = AlternatingState::starting_at(1_000);
    generate_at(&mut frame, &mut state, 1_000 + CYCLE - 1, CYCLE);
    assert_eq!(state.palette_index(), 0);
    assert_eq!(state.last_cycle_time(), 1_000);
    assert_eq!(frame, [RED, GREEN]);
}

#[test]
fn alternating_takes_the_next_pair_after_thirty_seconds() {
    let mut frame = [BLACK; 3];
    let mut state = AlternatingState::starting_at(1_000);
    generate_at(&mut frame, &mut state, 1_000 + CYCLE, CYCLE);
    assert_eq!(state.palette_index(), 1);
    assert_eq!(state.last_cycle_time(), 1_000 + CYCLE);
    assert_eq!(state.order(), AlternatingOrder::Reverse);
    assert_eq!(frame, [BLUE, RED, BLUE]);
}

#[test]
fn alternating_pair_changes_while_the_flip_goes_on() {
    let mut frame = [BLACK; 2];
    let mut state = AlternatingState::starting_at(0);
    generate_at(&mut frame, &mut state, 10, CYCLE);
    assert_eq!(frame, [RED, GREEN]);
    generate_at(&mut frame, &mut state, CYCLE + 5, CYCLE);
    assert_eq!(state.palette_index(), 1);
    assert_eq!(frame, [RED, BLUE]);
    generate_at(&mut frame, &mut state, CYCLE + 6, CYCLE);
    assert_eq!(state.palette_index(), 1);
    assert_eq!(state.last_cycle_time(), CYCLE + 5);
    assert_eq!(frame, [BLUE, RED]);
}

#[test]
fn alternating_walks_the_whole_palette_and_wraps() {
    let mut frame = [BLACK; 2];
    let mut state = AlternatingState::starting_at(0);
    let expected = [
        [BLUE, RED],
        [BLUE, DARK_VIOLET],
        [GREEN, DARK_VIOLET],
        [GREEN, ORANGE],
        [BLUE, ORANGE],
        [BLUE, GREEN],
        [RED, GREEN],
    ];
    let mut now = 0;
    for (round, pair) in expected.iter().enumerate() {
        now += CYCLE;
        generate_at(&mut frame, &mut state, now, CYCLE);
        assert_eq!(state.palette_index(), (round + 1) % PALETTE_LEN);
        assert_eq!(state.last_cycle_time(), now);
        assert_eq!(frame, *pair);
    }
    assert_eq!(state.palette_index(), 0);
}

#[test]
fn alternating_clock_behind_the_last_change_keeps_the_pair() {
    let mut frame = [BLACK; 2];
    let mut state = AlternatingState::starting_at(5_000);
    generate_at(&mut frame, &mut state, 10, 0);
    assert_eq!(state.palette_index(), 0);
    assert_eq!(state.last_cycle_time(), 5_000);
}

#[test]
fn alternating_zero_cycle_changes_the_pair_on_every_frame() {
    let mut frame = [BLACK; 2];
    let mut state = AlternatingState::starting_at(5);
    generate_at(&mut frame, &mut state, 5, 0);
    assert_eq!(state.palette_index(), 1);
    generate_at(&mut frame, &mut state, 5, 0);
    assert_eq!(state.palette_index(), 2);
}

#[test]
fn alternating_on_an_empty_strip_still_moves_the_state() {
    let mut frame: [Pixel; 0] = [];
    let mut state = AlternatingState::starting_at(0);
    generate_at(&mut frame, &mut state, CYCLE, CYCLE);
    assert_eq!(state.palette_index(), 1);
    assert_eq!(state.order(), AlternatingOrder::Reverse);
}

#[test]
fn alternating_cycle_period_is_thirty_seconds_of_ticks() {
    assert_eq!(cycle_period(1_000_000), 30_000_000);
    assert_eq!(cycle_period(32_768), 983_040);
    assert_eq!(cycle_period(1), 30);
    assert_eq!(cycle_period(0), 0);
}

#[test]
fn alternating_cycle_period_saturates() {
    assert_eq!(cycle_period(u64::MAX), u64::MAX);
    assert_eq!(cycle_period(u64::MAX / 30), 30 * (u64::MAX / 30));
    assert_eq!(cycle_period(u64::MAX / 30 + 1), u64::MAX);
}

#[test]
fn alternating_by_the_clock_flips_and_keeps_the_fresh_pair() {
    let mut frame = [BLACK; 6];
    let mut state = AlternatingState::default();
    assert_eq!(state.palette_index(), 0);
    assert_eq!(state.order(), AlternatingOrder::Forward);
    generate(&mut frame, &mut state);
    assert_eq!(state.order(), AlternatingOrder::Reverse);
    assert_eq!(state.palette_index(), 0);
    assert_eq!(frame, [RED, GREEN, RED, GREEN, RED, GREEN]);
    generate(&mut frame, &mut state);
    assert_eq!(state.order(), AlternatingOrder::Forward);
    assert_eq!(frame, [GREEN, RED, GREEN, RED, GREEN, RED]);
}

#[test]
fn alternating_constants() {
    assert_eq!(DURATION_MS, 400);
    assert_eq!(COLOR_CYCLE_SECS, 30);
    assert_eq!(PALETTE_LEN, 7);
}
