use rand::rngs::StdRng;
use rand::Rng;
use rand::SeedableRng;
use wasm_image_processor::grid::Pixel;
use wasm_image_processor::grid::PixelGrid;
use wasm_image_processor::watermark::composite_watermark;
use wasm_image_processor::watermark::corner_from_draw;
use wasm_image_processor::watermark::draw_corner;
use wasm_image_processor::watermark::draw_digit;
use wasm_image_processor::watermark::draw_watermark_digit;
use wasm_image_processor::watermark::watermark_placement;
use wasm_image_processor::watermark::Corner;
use wasm_image_processor::watermark::WatermarkPlacement;

const WHITE: Pixel = Pixel { red: 255, green: 255, blue: 255, alpha: 255 };

fn changed(before: &PixelGrid, after: &PixelGrid) -> Vec<(u32, u32)> {
    let mut list = Vec::new();
    for y in 0..before.height() {
        for x in 0..before.width() {
            if before.get_pixel(x, y) != after.get_pixel(x, y) {
                list.push((x, y));
            }
        }
    }
    list
}

fn placed(width: u32, height: u32, corner: Corner) -> (i64, i64, u32, u32) {
    let place = watermark_placement(width, corner);
    assert_eq!(place.corner, corner);
    let (left, top) = place.origin(width, height);
    (left, top, place.scale, place.margin)
}

#[test]
fn placement_on_a_wide_grid() {
    // 1500 / 150 = 10: cells of 10 pixels, a margin of 5, a glyph of 50 x 70.
    assert_eq!(
        watermark_placement(1500, Corner::TopRight),
        WatermarkPlacement { corner: Corner::TopRight, scale: 10, margin: 5 }
    );
    assert_eq!(placed(1500, 900, Corner::TopLeft), (5, 5, 10, 5));
    assert_eq!(placed(1500, 900, Corner::TopRight), (1445, 5, 10, 5));
    assert_eq!(placed(1500, 900, Corner::BottomRight), (1445, 825, 10, 5));
    assert_eq!(placed(1500, 900, Corner::BottomLeft), (5, 825, 10, 5));
}

#[test]
fn placement_uses_cells_of_eight_pixels_at_least() {
    assert_eq!(placed(100, 100, Corner::TopLeft), (4, 4, 8, 4));
    assert_eq!(placed(100, 100, Corner::BottomRight), (56, 40, 8, 4));
    assert_eq!(watermark_placement(1349, Corner::TopLeft).scale, 8);
    assert_eq!(watermark_placement(1350, Corner::TopLeft).scale, 9);
    assert_eq!(watermark_placement(1350, Corner::TopLeft).margin, 4);
    assert_eq!(watermark_placement(1500, Corner::TopLeft).scale, 10);
    assert_eq!(watermark_placement(1650, Corner::TopLeft).margin, 5);
}

#[test]
fn placement_may_start_outside_a_small_grid() {
    assert_eq!(placed(10, 10, Corner::TopRight), (-34, 4, 8, 4));
    assert_eq!(placed(10, 10, Corner::BottomLeft), (4, -50, 8, 4));
    assert_eq!(placed(0, 0, Corner::BottomRight), (-44, -60, 8, 4));
}

#[test]
fn placement_on_the_widest_grid() {
    let (left, top, scale, margin) = placed(u32::MAX, u32::MAX, Corner::BottomRight);
    assert_eq!(scale, 28_633_115);
    assert_eq!(margin, 14_316_557);
    assert_eq!(left, 4_294_967_295 - 14_316_557 - 5 * 28_633_115);
    assert_eq!(top, 4_294_967_295 - 14_316_557 - 7 * 28_633_115);
}

#[test]
fn blending_keeps_85_hundredths_of_a_channel() {
    for (src, expected) in [(255u8, 217u8), (200, 170), (100, 85), (10, 9), (4, 3), (3, 3), (2, 2), (1, 1), (0, 0)] {
        let pixel = Pixel { red: src, green: src, blue: src, alpha: 77 };
        let mut grid = PixelGrid::filled(1, 1, pixel).unwrap();
        // The glyph of 7 has ink in its top-left cell.
        draw_digit(&mut grid, 7, 0, 0, 1);
        assert_eq!(
            grid.get_pixel(0, 0),
            Pixel { red: expected, green: expected, blue: expected, alpha: 77 }
        );
    }
}

#[test]
fn a_digit_is_drawn_cell_by_cell() {
    let before = PixelGrid::filled(100, 100, WHITE).unwrap();
    let mut grid = before.clone();
    composite_watermark(&mut grid, 1, Corner::TopLeft);
    // The glyph of 1 has 13 foreground cells of 8 x 8 pixels.
    let list = changed(&before, &grid);
    assert_eq!(list.len(), 13 * 64);
    let ink = Pixel { red: 217, green: 217, blue: 217, alpha: 255 };
    // Top row: only the middle cell.
    assert_eq!(grid.get_pixel(4 + 16, 4), ink);
    assert_eq!(grid.get_pixel(4 + 23, 4 + 7), ink);
    assert_eq!(grid.get_pixel(4 + 15, 4), WHITE);
    assert_eq!(grid.get_pixel(4 + 24, 4), WHITE);
    assert_eq!(grid.get_pixel(4, 4), WHITE);
    // Bottom row: all five cells.
    assert_eq!(grid.get_pixel(4, 4 + 48), ink);
    assert_eq!(grid.get_pixel(4 + 39, 4 + 55), ink);
    assert_eq!(grid.get_pixel(4 + 40, 4 + 55), WHITE);
    assert_eq!(grid.get_pixel(4 + 39, 4 + 56), WHITE);
    for (x, y) in list {
        assert_eq!(grid.get_pixel(x, y), ink);
    }
}

#[test]
fn pixels_outside_the_footprint_are_untouched() {
    for (corner, x0, y0) in [
        (Corner::TopLeft, 4i64, 4i64),
        (Corner::TopRight, 156, 4),
        (Corner::BottomRight, 156, 90),
        (Corner::BottomLeft, 4, 90),
    ] {
        for digit in 0..10 {
            let before = PixelGrid::filled(200, 150, WHITE).unwrap();
            let mut grid = before.clone();
            composite_watermark(&mut grid, digit, corner);
            let list = changed(&before, &grid);
            assert!(!list.is_empty());
            assert_eq!(list.len() % 64, 0);
            for (x, y) in list {
                assert!((x0..x0 + 40).contains(&(x as i64)));
                assert!((y0..y0 + 56).contains(&(y as i64)));
            }
        }
    }
}

#[test]
fn cells_outside_the_grid_are_skipped() {
    let before = PixelGrid::filled(10, 10, WHITE).unwrap();
    let mut grid = before.clone();
    // The glyph of 5 starts at (4, 4) with ink in its top-left cell: the
    // part of that cell on the grid is 6 x 6 pixels.
    composite_watermark(&mut grid, 5, Corner::TopLeft);
    let list = changed(&before, &grid);
    assert_eq!(list.len(), 36);
    assert!(list.iter().all(|&(x, y)| x >= 4 && y >= 4));

    let mut far = before.clone();
    draw_digit(&mut far, 8, -1000, -1000, 8);
    assert_eq!(far, before);
    draw_digit(&mut far, 8, 10, 0, 8);
    assert_eq!(far, before);
    draw_digit(&mut far, 8, i64::MAX, i64::MIN, u32::MAX);
    assert_eq!(far, before);
    draw_digit(&mut far, 8, 0, 0, 0);
    assert_eq!(far, before);
}

#[test]
fn a_glyph_that_reaches_over_the_left_edge_is_cut() {
    let before = PixelGrid::filled(10, 10, WHITE).unwrap();
    let mut grid = before.clone();
    // Cells of 2 pixels from (-3, -1): the glyph of 8 has no ink in its
    // top-left cell and ink in the cell right of it.
    draw_digit(&mut grid, 8, -3, -1, 2);
    assert_eq!(grid.get_pixel(0, 0), Pixel { red: 217, green: 217, blue: 217, alpha: 255 });
    assert_eq!(grid.get_pixel(9, 9), WHITE);
    assert_eq!(grid.get_pixel(7, 0), WHITE);
}

#[test]
fn a_digit_above_nine_is_drawn_as_nine() {
    let mut nine = PixelGrid::filled(60, 80, WHITE).unwrap();
    let mut other = nine.clone();
    composite_watermark(&mut nine, 9, Corner::BottomLeft);
    composite_watermark(&mut other, 42, Corner::BottomLeft);
    assert_eq!(nine, other);
}

#[test]
fn alpha_is_preserved() {
    let glass = Pixel { red: 40, green: 80, blue: 120, alpha: 13 };
    let mut grid = PixelGrid::filled(50, 64, glass).unwrap();
    composite_watermark(&mut grid, 8, Corner::TopLeft);
    let mut touched = 0;
    for y in 0..64 {
        for x in 0..50 {
            let p = grid.get_pixel(x, y);
            assert_eq!(p.alpha, 13);
            if p != glass {
                assert_eq!(p, Pixel { red: 34, green: 68, blue: 102, alpha: 13 });
                touched += 1;
            }
        }
    }
    assert!(touched > 0);
}

#[test]
fn very_dark_pixels_do_not_change() {
    let dark = Pixel { red: 3, green: 2, blue: 0, alpha: 255 };
    let before = PixelGrid::filled(50, 64, dark).unwrap();
    let mut grid = before.clone();
    composite_watermark(&mut grid, 8, Corner::TopLeft);
    assert_eq!(grid, before);
}

#[test]
fn drawn_digits_and_corners() {
    let mut rng = StdRng::seed_from_u64(5);
    let mut digits = [false; 10];
    let mut corners = [false; 4];
    for _ in 0..400 {
        let digit = draw_watermark_digit(&mut rng);
        assert!(digit <= 9);
        digits[digit as usize] = true;
        let at = match draw_corner(&mut rng) {
            Corner::TopLeft => 0,
            Corner::TopRight => 1,
            Corner::BottomRight => 2,
            Corner::BottomLeft => 3,
        };
        corners[at] = true;
    }
    assert!(digits.iter().all(|&seen| seen));
    assert!(corners.iter().all(|&seen| seen));
}

#[test]
fn draws_stand_for_corners() {
    assert_eq!(corner_from_draw(0), Corner::TopLeft);
    assert_eq!(corner_from_draw(1), Corner::TopRight);
    assert_eq!(corner_from_draw(2), Corner::BottomRight);
    assert_eq!(corner_from_draw(3), Corner::BottomLeft);
    // Values that are never drawn stand for the bottom left.
    assert_eq!(corner_from_draw(4), Corner::BottomLeft);
    assert_eq!(corner_from_draw(u32::MAX), Corner::BottomLeft);
}

#[test]
fn the_drawn_digit_and_corner_follow_the_generator() {
    for seed in 0..64 {
        let mut rng = StdRng::seed_from_u64(seed);
        let mut twin = rng.clone();
        let digit = draw_watermark_digit(&mut rng);
        let corner = draw_corner(&mut rng);
        let first: u32 = twin.random_range(0..10);
        let second: u32 = twin.random_range(0..4);
        assert_eq!(digit as u32, first);
        assert_eq!(corner, corner_from_draw(second));
        assert_eq!(rng, twin);
    }
}
