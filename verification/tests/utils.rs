use render_core::utils::approach;
use render_core::utils::glyph::{Glyph, GlyphData};
use std::collections::HashMap;

#[test]
fn approach_steps_towards_the_value() {
    assert_eq!(approach(0, 10, 3), 3);
    assert_eq!(approach(9, 10, 3), 10);
    assert_eq!(approach(10, 10, 3), 10);
    assert_eq!(approach(20, 10, 3), 17);
    assert_eq!(approach(11, 10, 3), 10);
    assert_eq!(approach(-5i64, -10, 2), -7);
}

#[test]
fn approach_works_on_floats() {
    assert_eq!(approach(2.0f32, 1.0, 0.25), 1.75);
    assert_eq!(approach(0.3f32, 1.0, 0.5), 0.8);
    assert_eq!(approach(0.8f32, 1.0, 0.5), 1.0);
    assert_eq!(approach(1.0f32, 1.0, 0.5), 1.0);
}

#[test]
fn glyph_by_character() {
    let mut map = HashMap::new();
    let a = Glyph { id: 65, x: 1, y: 2, width: 3, height: 4, x_offset: -1, y_offset: 5, x_advance: 6 };
    map.insert(65, a);
    let data = GlyphData { map };
    assert_eq!(*data.get('A'), a);
}
