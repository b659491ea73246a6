use image_converter::watermark::{SimpleWatermarkProcessor, WatermarkPosition};

#[test]
fn test_position_calculation() {
    let processor = SimpleWatermarkProcessor::new();
    let (x, y) =
        processor.calculate_position(1000, 800, 100, 50, WatermarkPosition::BottomRight, 20);

    assert_eq!(x, 880);
    assert_eq!(y, 730);
}

#[test]
fn test_char_patterns() {
    let processor = SimpleWatermarkProcessor::new();
    let pattern_a = processor.get_char_pattern('A');
    let pattern_space = processor.get_char_pattern(' ');

    assert_ne!(pattern_a, [0; 8]);
    assert_eq!(pattern_space, [0; 8]);
}

#[test]
fn every_position_is_placed() {
    let processor = SimpleWatermarkProcessor::new();
    let at = |position| processor.calculate_position(1000, 800, 100, 50, position, 20);
    assert_eq!(at(WatermarkPosition::TopLeft), (20, 20));
    assert_eq!(at(WatermarkPosition::TopCenter), (450, 20));
    assert_eq!(at(WatermarkPosition::TopRight), (880, 20));
    assert_eq!(at(WatermarkPosition::MiddleLeft), (20, 375));
    assert_eq!(at(WatermarkPosition::MiddleCenter), (450, 375));
    assert_eq!(at(WatermarkPosition::MiddleRight), (880, 375));
    assert_eq!(at(WatermarkPosition::BottomLeft), (20, 730));
    assert_eq!(at(WatermarkPosition::BottomCenter), (450, 730));
    assert_eq!(at(WatermarkPosition::BottomRight), (880, 730));
    assert_eq!(at(WatermarkPosition::Custom(7, 9)), (7, 9));
}

#[test]
fn watermark_larger_than_image_goes_to_the_edge() {
    let processor = SimpleWatermarkProcessor::new();
    assert_eq!(
        processor.calculate_position(100, 80, 200, 90, WatermarkPosition::BottomRight, 20),
        (0, 0)
    );
    assert_eq!(
        processor.calculate_position(100, 80, 200, 90, WatermarkPosition::MiddleCenter, 20),
        (0, 0)
    );
    assert_eq!(
        processor.calculate_position(100, 80, 90, 70, WatermarkPosition::BottomRight, 20),
        (0, 0)
    );
    assert_eq!(
        processor.calculate_position(
            u32::MAX,
            u32::MAX,
            u32::MAX,
            1,
            WatermarkPosition::BottomRight,
            u32::MAX
        ),
        (0, 0)
    );
    assert_eq!(
        processor.calculate_position(100, 80, 90, 70, WatermarkPosition::TopLeft, 500),
        (500, 500)
    );
}

#[test]
fn patterns_ignore_letter_case() {
    let processor = SimpleWatermarkProcessor::new();
    for (upper, lower) in ('A'..='Z').zip('a'..='z') {
        assert_eq!(processor.get_char_pattern(upper), processor.get_char_pattern(lower));
    }
    assert_eq!(
        processor.get_char_pattern('A'),
        [0x18, 0x24, 0x42, 0x42, 0x7E, 0x42, 0x42, 0x00]
    );
    assert_eq!(
        processor.get_char_pattern('z'),
        [0x7E, 0x04, 0x08, 0x10, 0x20, 0x40, 0x7E, 0x00]
    );
    assert_eq!(
        processor.get_char_pattern('7'),
        [0x7E, 0x02, 0x04, 0x08, 0x10, 0x20, 0x20, 0x00]
    );
    assert_eq!(
        processor.get_char_pattern('©'),
        [0x3C, 0x42, 0x9D, 0xA1, 0xA1, 0x9D, 0x42, 0x3C]
    );
    assert_eq!(
        processor.get_char_pattern('_'),
        [0x00, 0x00, 0x00, 0x00, 0x00, 0x00, 0x00, 0xFF]
    );
}

#[test]
fn unknown_characters_get_the_ring() {
    let processor = SimpleWatermarkProcessor::new();
    let ring = [0x3C, 0x42, 0x99, 0xA1, 0xA1, 0x99, 0x42, 0x3C];
    assert_eq!(processor.get_char_pattern('?'), ring);
    assert_eq!(processor.get_char_pattern('水'), ring);
    assert_eq!(processor.get_char_pattern('!'), ring);
}

#[test]
fn positions_and_their_names() {
    let all = WatermarkPosition::all_positions();
    assert_eq!(all.len(), 9);
    assert_eq!(all[0], (WatermarkPosition::TopLeft, "左上角"));
    assert_eq!(all[4], (WatermarkPosition::MiddleCenter, "正中央"));
    assert_eq!(all[8], (WatermarkPosition::BottomRight, "右下角"));
    for (position, name) in all {
        assert_eq!(position.display_name(), name);
    }
    assert_eq!(WatermarkPosition::Custom(12, 0).display_name(), "自定义 (12, 0)");
    assert_eq!(
        WatermarkPosition::Custom(u32::MAX, 305).display_name(),
        "自定义 (4294967295, 305)"
    );
    assert_eq!(WatermarkPosition::default(), WatermarkPosition::BottomRight);
}
