use wasm_image_processor::glyph::glyph_for;
use wasm_image_processor::glyph::DIGITS;

fn rows(digit: u8) -> Vec<String> {
    let glyph = glyph_for(digit);
    (0..7u32)
        .map(|row| (0..5u32).map(|col| if glyph.is_set(col, row) { '#' } else { '.' }).collect())
        .collect()
}

#[test]
fn glyph_of_zero() {
    assert_eq!(rows(0), vec![".###.", "#...#", "#..##", "#.#.#", "##..#", "#...#", ".###."]);
}

#[test]
fn glyph_of_one() {
    assert_eq!(rows(1), vec!["..#..", ".##..", "#.#..", "..#..", "..#..", "..#..", "#####"]);
}

#[test]
fn glyph_of_seven() {
    assert_eq!(rows(7), vec!["#####", "....#", "...#.", "..#..", ".#...", ".#...", ".#..."]);
}

#[test]
fn every_digit_has_its_own_glyph() {
    for a in 0..10u8 {
        assert_eq!(glyph_for(a).cells, DIGITS[a as usize]);
        for b in 0..a {
            assert_ne!(glyph_for(a), glyph_for(b));
        }
    }
}

#[test]
fn digits_above_nine_are_drawn_as_nine() {
    assert_eq!(glyph_for(10), glyph_for(9));
    assert_eq!(glyph_for(200), glyph_for(9));
    assert_eq!(glyph_for(255), glyph_for(9));
}

#[test]
fn cells_outside_the_matrix_are_background() {
    let glyph = glyph_for(8);
    assert!(!glyph.is_set(5, 0));
    assert!(!glyph.is_set(0, 7));
    assert!(!glyph.is_set(u32::MAX, u32::MAX));
    assert!(glyph.is_set(4, 1));
}

#[test]
fn cells_hold_zero_or_one() {
    for glyph in DIGITS.iter() {
        assert_eq!(glyph.len(), 35);
        assert!(glyph.iter().all(|&cell| cell <= 1));
        assert!(glyph.iter().any(|&cell| cell == 1));
    }
}
