use lightshow::patterns::twinkle;
use lightshow::pixel::Pixel;

fn px(r: u8, g: u8, b: u8) -> Pixel {
    Pixel { r, g, b }
}

#[test]
fn twinkle_fades_and_sparkles() {
    let mut frame =
        [px(10, 20, 5), px(0, 8, 9), px(255, 255, 255), px(7, 7, 7), px(100, 0, 0), px(1, 2, 3)];
    twinkle::generate(&mut frame, &[3, 0, 9, 85, 255, 170, 3, 128, 6, 1]);
    assert_eq!(
        frame,
        [
            px(252, 3, 0),
            px(0, 0, 1),
            px(247, 247, 247),
            px(0, 126, 129),
            px(92, 0, 0),
            px(0, 0, 0)
        ]
    );
}

#[test]
fn twinkle_later_pair_wins() {
    let mut frame = [px(0, 0, 0); 4];
    twinkle::generate(&mut frame, &[2, 85, 2, 170]);
    assert_eq!(frame, [px(0, 0, 0), px(0, 0, 0), px(0, 0, 255), px(0, 0, 0)]);
}

#[test]
fn twinkle_leaves_a_single_byte_unused() {
    let mut frame = [px(10, 20, 5); 3];
    twinkle::generate(&mut frame, &[1, 2, 3]);
    assert_eq!(frame, [px(2, 12, 0), px(249, 6, 0), px(2, 12, 0)]);
}

#[test]
fn twinkle_without_random_bytes_only_fades() {
    let mut frame = [px(8, 9, 7), px(255, 0, 16)];
    twinkle::generate(&mut frame, &[]);
    assert_eq!(frame, [px(0, 1, 0), px(247, 0, 8)]);
}

#[test]
fn twinkle_on_an_empty_strip() {
    let mut frame: [Pixel; 0] = [];
    twinkle::generate(&mut frame, &[1, 2, 3, 4, 5, 6, 7, 8, 9, 10]);
    assert_eq!(frame.len(), 0);
}

#[test]
fn twinkle_unselected_pixels_never_rise() {
    let mut frame = [px(200, 100, 3); 50];
    let random = [0u8, 10, 50, 20, 99, 30, 149, 40, 250, 50];
    for _ in 0..40 {
        let before = frame;
        twinkle::generate(&mut frame, &random);
        for (i, (now, was)) in frame.iter().zip(before.iter()).enumerate() {
            if i != 0 && i != 49 {
                assert_eq!(now.r, was.r.saturating_sub(8));
                assert_eq!(now.g, was.g.saturating_sub(8));
                assert_eq!(now.b, was.b.saturating_sub(8));
            }
        }
    }
    assert_eq!(frame[1], px(0, 0, 0));
    assert_eq!(frame[0], px(105, 150, 0));
    assert_eq!(frame[49], px(135, 120, 0));
}

#[test]
fn twinkle_constants() {
    assert_eq!(twinkle::DURATION_MS, 2);
    assert_eq!(twinkle::FADE_AMOUNT, 8);
    assert_eq!(twinkle::RANDOM_BYTES, 10);
}
