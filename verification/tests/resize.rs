use rust_me::resize::{
    output_name, output_names, scaled_height, target_width, Raster, ResizeError,
    DEFAULT_TARGET_WIDTH, MIN_TARGET_WIDTH,
};

#[test]
fn scaled_height_keeps_the_aspect_ratio() {
    assert_eq!(scaled_height(200, 1000, 500), Some(100));
    assert_eq!(scaled_height(300, 300, 200), Some(200));
    assert_eq!(scaled_height(600, 300, 200), Some(400));
}

#[test]
fn scaled_height_rounds_down() {
    assert_eq!(scaled_height(100, 300, 200), Some(66));
    assert_eq!(scaled_height(100, 1000, 9), Some(0));
    assert_eq!(scaled_height(7, 2, 1), Some(3));
}

#[test]
fn scaled_height_does_not_wrap() {
    assert_eq!(scaled_height(100_000, 100_000, 100_000), Some(100_000));
    assert_eq!(scaled_height(u32::MAX, u32::MAX, u32::MAX), Some(u32::MAX));
    assert_eq!(scaled_height(u32::MAX, 2, 2), Some(u32::MAX));
}

#[test]
fn scaled_height_has_no_answer_without_columns() {
    assert_eq!(scaled_height(200, 0, 500), None);
    assert_eq!(scaled_height(0, 0, 0), None);
}

#[test]
fn scaled_height_has_no_answer_beyond_32_bits() {
    assert_eq!(scaled_height(u32::MAX, 1, 2), None);
    assert_eq!(scaled_height(65536, 1, 65536), None);
    assert_eq!(scaled_height(65536, 1, 65535), Some(65536 * 65535));
}

#[test]
fn target_width_enforces_the_minimum() {
    assert_eq!(MIN_TARGET_WIDTH, 100);
    assert_eq!(target_width(Some(100)), Ok(100));
    assert_eq!(target_width(Some(4000)), Ok(4000));
    assert_eq!(target_width(Some(99)), Err(ResizeError::WidthBelowMinimum));
    assert_eq!(target_width(Some(0)), Err(ResizeError::WidthBelowMinimum));
}

#[test]
fn target_width_has_a_default() {
    assert_eq!(DEFAULT_TARGET_WIDTH, 300);
    assert_eq!(target_width(None), Ok(300));
}

#[test]
fn output_name_puts_the_prefix_before_the_name() {
    assert_eq!(output_name("cat.png"), "new_cat.png");
    assert_eq!(output_name(""), "new_");
    assert_eq!(output_name("new_cat.png"), "new_new_cat.png");
}

#[test]
fn three_files_give_three_outputs() {
    let names = vec!["a.png".to_string(), "b.jpg".to_string(), "c d.gif".to_string()];
    assert_eq!(output_names(&names), vec!["new_a.png", "new_b.jpg", "new_c d.gif"]);
}

#[test]
fn no_files_give_no_outputs() {
    assert_eq!(output_names(&vec![]), Vec::<String>::new());
}

#[test]
fn raster_needs_four_samples_for_each_pixel() {
    assert!(Raster::new(2, 3, vec![0; 24]).is_some());
    assert!(Raster::new(2, 3, vec![0; 23]).is_none());
    assert!(Raster::new(2, 3, vec![0; 25]).is_none());
    assert!(Raster::new(0, 0, vec![]).is_some());
    assert!(Raster::new(0, 7, vec![]).is_some());
    assert!(Raster::new(0, 0, vec![1]).is_none());
    assert!(Raster::new(u32::MAX, u32::MAX, vec![]).is_none());
}

#[test]
fn raster_hands_back_what_it_was_made_of() {
    let pixels: Vec<u8> = (0..24).collect();
    let raster = Raster::new(3, 2, pixels.clone()).unwrap();
    assert_eq!(raster.width(), 3);
    assert_eq!(raster.height(), 2);
    assert_eq!(raster.pixels(), &pixels);
}

#[test]
fn resizing_1000_by_500_to_width_200_gives_200_by_100() {
    let raster = Raster::new(1000, 500, vec![255; 4 * 1000 * 500]).unwrap();
    let resized = raster.resize_to_width(200).unwrap();
    assert_eq!(resized.width(), 200);
    assert_eq!(resized.height(), 100);
    assert_eq!(resized.pixels().len(), 4 * 200 * 100);
}

#[test]
fn resizing_resamples_the_pixels() {
    let mut pixels = Vec::new();
    for _row in 0..4 {
        for column in 0..8u8 {
            let shade = if column < 4 { 0 } else { 255 };
            pixels.extend_from_slice(&[shade, shade, shade, 255]);
        }
    }
    let raster = Raster::new(8, 4, pixels.clone()).unwrap();
    let resized = raster.resize_to_width(4).unwrap();
    assert_eq!((resized.width(), resized.height()), (4, 2));
    let out = resized.pixels();
    assert_eq!(out.len(), 32);
    assert_ne!(out, &pixels[..32].to_vec());
    for row in 0..2 {
        let left = out[row * 16];
        let right = out[row * 16 + 12];
        assert!(left < 64);
        assert!(right > 192);
        assert_eq!(out[row * 16 + 3], 255);
    }
}

#[test]
fn resizing_to_the_same_width_copies_the_image() {
    let pixels: Vec<u8> = (0..96).collect();
    let raster = Raster::new(4, 6, pixels.clone()).unwrap();
    let resized = raster.resize_to_width(4).unwrap();
    assert_eq!(resized, raster);
    assert_eq!(resized.pixels(), &pixels);
}

#[test]
fn resizing_can_enlarge() {
    let raster = Raster::new(2, 3, vec![9; 24]).unwrap();
    let resized = raster.resize_to_width(5).unwrap();
    assert_eq!((resized.width(), resized.height()), (5, 7));
    assert_eq!(resized.pixels().len(), 4 * 5 * 7);
}

#[test]
fn resizing_a_flat_image_can_leave_no_rows() {
    let raster = Raster::new(1000, 1, vec![0; 4000]).unwrap();
    let resized = raster.resize_to_width(200).unwrap();
    assert_eq!((resized.width(), resized.height()), (200, 0));
    assert_eq!(resized.pixels().len(), 0);
}

#[test]
fn resizing_an_image_without_rows_gives_one_without_rows() {
    let raster = Raster::new(10, 0, vec![]).unwrap();
    let resized = raster.resize_to_width(100).unwrap();
    assert_eq!((resized.width(), resized.height()), (100, 0));
    assert_eq!(resized.pixels().len(), 0);
}

#[test]
fn resizing_needs_columns() {
    let raster = Raster::new(0, 5, vec![]).unwrap();
    assert_eq!(raster.resize_to_width(100), Err(ResizeError::NoColumns));
    let raster = Raster::new(0, 0, vec![]).unwrap();
    assert_eq!(raster.resize_to_width(0), Err(ResizeError::NoColumns));
}

#[test]
fn resizing_refuses_what_memory_cannot_hold() {
    let raster = Raster::new(1, 1, vec![0; 4]).unwrap();
    assert_eq!(raster.resize_to_width(u32::MAX), Err(ResizeError::TooLarge));
    let raster = Raster::new(1, 2, vec![0; 8]).unwrap();
    assert_eq!(raster.resize_to_width(u32::MAX), Err(ResizeError::TooLarge));
}
