use rand::rngs::StdRng;
use rand::Rng;
use rand::SeedableRng;
use wasm_image_processor::grid::ChannelLayout;
use wasm_image_processor::grid::Pixel;
use wasm_image_processor::grid::PixelGrid;
use wasm_image_processor::jitter::apply_jitter;
use wasm_image_processor::jitter::draw_jitter;
use wasm_image_processor::jitter::jitter_from_draws;
use wasm_image_processor::jitter::JitterChoice;

const RED: Pixel = Pixel { red: 255, green: 0, blue: 0, alpha: 255 };

fn size_after(width: u32, height: u32, choice: JitterChoice) -> (u32, u32) {
    let mut grid = PixelGrid::filled(width, height, RED).unwrap();
    apply_jitter(&mut grid, choice);
    assert_eq!(grid.as_samples().len() as u64, grid.width() as u64 * grid.height() as u64 * 4);
    (grid.width(), grid.height())
}

#[test]
fn keep_leaves_the_grid_as_it_was() {
    let mut grid = PixelGrid::filled(10, 7, RED).unwrap();
    let before = grid.clone();
    apply_jitter(&mut grid, JitterChoice::Keep);
    assert_eq!(grid, before);
}

#[test]
fn grow_adds_one_pixel_to_both_sides() {
    assert_eq!(size_after(10, 10, JitterChoice::Grow), (11, 11));
    assert_eq!(size_after(3, 20, JitterChoice::Grow), (4, 21));
    assert_eq!(size_after(1, 1, JitterChoice::Grow), (2, 2));
}

#[test]
fn shrink_takes_one_pixel_from_both_sides() {
    assert_eq!(size_after(10, 10, JitterChoice::Shrink), (9, 9));
    assert_eq!(size_after(3, 20, JitterChoice::Shrink), (2, 19));
    assert_eq!(size_after(2, 2, JitterChoice::Shrink), (1, 1));
}

#[test]
fn shrink_stops_at_one_pixel() {
    assert_eq!(size_after(1, 1, JitterChoice::Shrink), (1, 1));
    assert_eq!(size_after(1, 5, JitterChoice::Shrink), (1, 4));
    assert_eq!(size_after(5, 1, JitterChoice::Shrink), (4, 1));
}

#[test]
fn an_empty_grid_becomes_one_pixel_at_least_when_resized() {
    assert_eq!(size_after(0, 0, JitterChoice::Keep), (0, 0));
    assert_eq!(size_after(0, 0, JitterChoice::Grow), (1, 1));
    assert_eq!(size_after(0, 0, JitterChoice::Shrink), (1, 1));
}

#[test]
fn a_grid_too_wide_to_resample_keeps_its_size() {
    assert_eq!(size_after(65_535, 1, JitterChoice::Grow), (65_535, 1));
    assert_eq!(size_after(65_536, 1, JitterChoice::Shrink), (65_536, 1));
    assert_eq!(size_after(65_535, 2, JitterChoice::Shrink), (65_534, 1));
}

#[test]
fn a_solid_grid_stays_solid() {
    for choice in [JitterChoice::Grow, JitterChoice::Shrink] {
        let mut grid = PixelGrid::filled(10, 10, RED).unwrap();
        apply_jitter(&mut grid, choice);
        for y in 0..grid.height() {
            for x in 0..grid.width() {
                assert_eq!(grid.get_pixel(x, y), RED);
            }
        }
    }
}

#[test]
fn resizing_blends_neighbours() {
    // Left half black, right half white: the grown grid holds a grey
    // column where the halves meet.
    let mut samples = Vec::new();
    for _y in 0..4 {
        for x in 0..4 {
            let v = if x < 2 { 0 } else { 255 };
            samples.extend_from_slice(&[v, v, v, 255]);
        }
    }
    let mut grid = PixelGrid::from_raw(4, 4, samples).unwrap();
    apply_jitter(&mut grid, JitterChoice::Grow);
    assert_eq!((grid.width(), grid.height()), (5, 5));
    assert_eq!(grid.get_pixel(0, 0).red, 0);
    assert_eq!(grid.get_pixel(4, 4).red, 255);
    let row: Vec<u8> = (0..5).map(|x| grid.get_pixel(x, 2).red).collect();
    assert_eq!(row, vec![0, 0, 128, 255, 255]);
    assert_eq!(grid.get_pixel(2, 2).alpha, 255);
}

#[test]
fn all_three_choices_are_drawn() {
    let mut rng = StdRng::seed_from_u64(11);
    let mut seen = [0u32; 3];
    for _ in 0..400 {
        match draw_jitter(&mut rng) {
            JitterChoice::Keep => seen[0] += 1,
            JitterChoice::Grow => seen[1] += 1,
            JitterChoice::Shrink => seen[2] += 1,
        }
    }
    assert_eq!(seen.iter().sum::<u32>(), 400);
    // One chance in two to keep, one in four for each direction.
    assert!(seen[0] > 150 && seen[0] < 250);
    assert!(seen[1] > 60 && seen[1] < 140);
    assert!(seen[2] > 60 && seen[2] < 140);
}

#[test]
fn draws_stand_for_choices() {
    assert_eq!(jitter_from_draws(0, 0), JitterChoice::Keep);
    assert_eq!(jitter_from_draws(0, 1), JitterChoice::Keep);
    assert_eq!(jitter_from_draws(1, 0), JitterChoice::Shrink);
    assert_eq!(jitter_from_draws(1, 1), JitterChoice::Grow);
    // Values that are never drawn: any first draw but 0 resizes, any second
    // draw but 0 grows.
    assert_eq!(jitter_from_draws(7, 0), JitterChoice::Shrink);
    assert_eq!(jitter_from_draws(u32::MAX, u32::MAX), JitterChoice::Grow);
    assert_eq!(jitter_from_draws(0, u32::MAX), JitterChoice::Keep);
}

#[test]
fn the_drawn_choice_follows_the_generator() {
    for seed in 0..64 {
        let mut rng = StdRng::seed_from_u64(seed);
        let mut twin = rng.clone();
        let choice = draw_jitter(&mut rng);
        let resize: u32 = twin.random_range(0..2);
        let direction: u32 = if resize == 0 { 0 } else { twin.random_range(0..2) };
        assert_eq!(choice, jitter_from_draws(resize, direction));
        // The second draw is made only for a resize.
        assert_eq!(rng, twin);
    }
}

#[test]
fn resizing_keeps_the_layout() {
    for layout in [ChannelLayout::Rgb, ChannelLayout::Rgba] {
        for choice in [JitterChoice::Keep, JitterChoice::Grow, JitterChoice::Shrink] {
            let mut grid = PixelGrid::filled(6, 6, RED).unwrap().with_layout(layout);
            apply_jitter(&mut grid, choice);
            assert_eq!(grid.layout(), layout);
        }
    }
}
