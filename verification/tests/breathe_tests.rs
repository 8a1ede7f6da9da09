use lightshow::colors;
use lightshow::patterns::breathe::{
    generate, FadingDirection, FadingState, COLOR_PALETTE, DURATION_MS, FADE_AMOUNT, PALETTE_LEN,
};
use lightshow::pixel::Pixel;

fn px(r: u8, g: u8, b: u8) -> Pixel {
    Pixel { r, g, b }
}

fn run(frame: &mut [Pixel], state: &mut FadingState, frames: usize) {
    for _ in 0..frames {
        generate(frame, state);
    }
}

#[test]
fn breathe_starts_dark_on_the_first_colour() {
    let state = FadingState::default();
    assert_eq!(state.direction(), FadingDirection::FadingIn);
    assert_eq!(state.palette_index(), 0);
    assert_eq!(state.linear_step(), 0);
    assert_eq!(state.target_color(), px(255, 0, 0));
}

#[test]
fn breathe_first_frame_is_still_black_after_gamma() {
    let mut frame = [px(9, 9, 9); 3];
    let mut state = FadingState::default();
    generate(&mut frame, &mut state);
    assert_eq!(state.linear_step(), 1);
    assert_eq!(frame, [px(0, 0, 0); 3]);
}

#[test]
fn breathe_half_way_up_is_gamma_corrected() {
    let mut frame = [px(0, 0, 0); 5];
    let mut state = FadingState::default();
    run(&mut frame, &mut state, 128);
    assert_eq!(state.linear_step(), 128);
    assert_eq!(state.direction(), FadingDirection::FadingIn);
    // 255 * 129 / 256 = 128, and the gamma table holds 37 at 128.
    assert_eq!(frame, [px(37, 0, 0); 5]);
}

#[test]
fn breathe_turns_at_full_brightness() {
    let mut frame = [px(0, 0, 0); 2];
    let mut state = FadingState::default();
    run(&mut frame, &mut state, 254);
    assert_eq!(state.linear_step(), 254);
    assert_eq!(state.direction(), FadingDirection::FadingIn);
    generate(&mut frame, &mut state);
    assert_eq!(state.linear_step(), 255);
    assert_eq!(state.direction(), FadingDirection::FadingOut);
    assert_eq!(frame, [px(255, 0, 0); 2]);
    generate(&mut frame, &mut state);
    assert_eq!(state.linear_step(), 254);
    assert_eq!(state.direction(), FadingDirection::FadingOut);
}

#[test]
fn breathe_takes_the_next_colour_when_dark() {
    let mut frame = [px(0, 0, 0); 2];
    let mut state = FadingState::default();
    run(&mut frame, &mut state, 509);
    assert_eq!(state.linear_step(), 1);
    assert_eq!(state.palette_index(), 0);
    assert_eq!(state.direction(), FadingDirection::FadingOut);
    generate(&mut frame, &mut state);
    assert_eq!(state.linear_step(), 0);
    assert_eq!(state.palette_index(), 1);
    assert_eq!(state.direction(), FadingDirection::FadingIn);
    assert_eq!(state.target_color(), Pixel::from_hex(colors::ORANGE_RED));
    assert_eq!(frame, [px(0, 0, 0); 2]);
}

#[test]
fn breathe_second_colour_on_the_way_up() {
    let mut frame = [px(0, 0, 0); 1];
    let mut state = FadingState::default();
    run(&mut frame, &mut state, 510 + 200);
    assert_eq!(state.palette_index(), 1);
    assert_eq!(state.linear_step(), 200);
    // Orange red is (255, 69, 0): 255 * 201 / 256 = 200 and 69 * 201 / 256 = 54;
    // the gamma table holds 129 at 200 and 3 at 54.
    assert_eq!(frame, [px(129, 3, 0)]);
}

#[test]
fn breathe_third_colour_all_channels() {
    let mut frame = [px(0, 0, 0); 1];
    let mut state = FadingState::default();
    run(&mut frame, &mut state, 1020 + 77);
    assert_eq!(state.palette_index(), 2);
    assert_eq!(state.linear_step(), 77);
    assert_eq!(state.target_color(), Pixel::from_hex(colors::TOMATO));
    assert_eq!(frame, [px(9, 1, 0)]);
}

#[test]
fn breathe_is_a_triangle_wave() {
    let mut frame: [Pixel; 0] = [];
    let mut state = FadingState::default();
    for frame_number in 1..=(3 * 510usize) {
        generate(&mut frame, &mut state);
        let phase = frame_number % 510;
        let expected = if phase <= 255 { phase } else { 510 - phase };
        assert_eq!(state.linear_step() as usize, expected);
        assert_eq!(state.palette_index(), frame_number / 510);
    }
}

#[test]
fn breathe_palette_wraps_after_the_last_colour() {
    let mut frame: [Pixel; 0] = [];
    let mut state = FadingState::default();
    run(&mut frame, &mut state, 510 * 22);
    assert_eq!(state.palette_index(), 22);
    assert_eq!(state.target_color(), Pixel::from_hex(colors::CRIMSON));
    run(&mut frame, &mut state, 510);
    assert_eq!(state.palette_index(), 0);
    assert_eq!(state.linear_step(), 0);
    assert_eq!(state.direction(), FadingDirection::FadingIn);
    assert_eq!(state.target_color(), px(255, 0, 0));
}

#[test]
fn breathe_advance_alone_moves_the_state() {
    let mut state = FadingState::default();
    state.advance();
    state.advance();
    assert_eq!(state.linear_step(), 2);
    assert_eq!(state.direction(), FadingDirection::FadingIn);
}

#[test]
fn breathe_palette_and_constants() {
    assert_eq!(DURATION_MS, 8);
    assert_eq!(FADE_AMOUNT, 1);
    assert_eq!(PALETTE_LEN, 23);
    assert_eq!(COLOR_PALETTE.len(), PALETTE_LEN);
    assert_eq!(COLOR_PALETTE[0], colors::RED);
    assert_eq!(COLOR_PALETTE[8], colors::GREEN);
    assert_eq!(COLOR_PALETTE[15], colors::INDIGO);
    assert_eq!(COLOR_PALETTE[22], colors::CRIMSON);
}
