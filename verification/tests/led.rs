use ir_recorder::led::{
    bit_timing, rainbow_colors, BitTiming, RgbColor, FRAME_BITS, RAINBOW_FADE_STEPS,
};

#[test]
fn named_colors_have_their_channels() {
    assert_eq!(RgbColor::new(1, 2, 3), RgbColor { red: 1, green: 2, blue: 3 });
    assert_eq!(RgbColor::black(), RgbColor { red: 0, green: 0, blue: 0 });
    assert_eq!(RgbColor::white(), RgbColor { red: 255, green: 255, blue: 255 });
    assert_eq!(RgbColor::red(), RgbColor { red: 255, green: 0, blue: 0 });
    assert_eq!(RgbColor::green(), RgbColor { red: 0, green: 255, blue: 0 });
    assert_eq!(RgbColor::blue(), RgbColor { red: 0, green: 0, blue: 255 });
}

#[test]
fn word_holds_green_red_blue_from_the_top() {
    assert_eq!(RgbColor::new(0x12, 0x34, 0x56).grb_word(), 0x0034_1256);
    assert_eq!(RgbColor::black().grb_word(), 0);
    assert_eq!(RgbColor::white().grb_word(), 0x00FF_FFFF);
    assert_eq!(RgbColor::red().grb_word(), 0x0000_FF00);
    assert_eq!(RgbColor::green().grb_word(), 0x00FF_0000);
    assert_eq!(RgbColor::blue().grb_word(), 0x0000_00FF);
}

#[test]
fn frame_sends_the_word_from_its_highest_bit() {
    let bits = RgbColor::new(0x01, 0x80, 0xA5).signal_bits();
    assert_eq!(FRAME_BITS, 24);
    assert_eq!(bits.len(), 24);
    let expected = [
        true, false, false, false, false, false, false, false, // green 0x80
        false, false, false, false, false, false, false, true, // red 0x01
        true, false, true, false, false, true, false, true, // blue 0xA5
    ];
    assert_eq!(bits, expected.to_vec());
}

#[test]
fn frame_of_black_and_white() {
    assert_eq!(RgbColor::black().signal_bits(), vec![false; 24]);
    assert_eq!(RgbColor::white().signal_bits(), vec![true; 24]);
}

#[test]
fn bits_have_the_pixel_timing() {
    assert_eq!(bit_timing(false), BitTiming { high_ns: 350, low_ns: 800 });
    assert_eq!(bit_timing(true), BitTiming { high_ns: 700, low_ns: 600 });
}

#[test]
fn rainbow_runs_from_red_to_violet() {
    assert_eq!(
        rainbow_colors(),
        vec![
            RgbColor::new(255, 0, 0),
            RgbColor::new(255, 127, 0),
            RgbColor::new(255, 255, 0),
            RgbColor::new(0, 255, 0),
            RgbColor::new(0, 255, 255),
            RgbColor::new(0, 0, 255),
            RgbColor::new(127, 0, 255),
        ]
    );
    assert_eq!(RAINBOW_FADE_STEPS, 20);
}
