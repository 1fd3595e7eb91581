use dock_launcher::pixels::{blank_image, icon_bitmap, rgba_to_x11, IconError, IconSource};
use dock_launcher::raster::load_scale_image;
use dock_launcher::ximage::icon_x_image;
use image::{ImageOutputFormat, RgbaImage};
use std::io::Cursor;

#[test]
fn pixels_become_bgra_and_transparent_ones_grey() {
    let mut data = vec![1, 2, 3, 4, 10, 20, 30, 0, 9, 8, 7, 255, 5, 6];
    rgba_to_x11(&mut data);
    assert_eq!(data, vec![3, 2, 1, 4, 0xa0, 0xa0, 0xa0, 0xff, 7, 8, 9, 255, 5, 6]);
}

#[test]
fn converting_opaque_pixels_twice_restores_them() {
    let original = vec![1, 2, 3, 4, 200, 100, 50, 1, 0, 0, 0, 9];
    let mut data = original.clone();
    rgba_to_x11(&mut data);
    assert_ne!(data, original);
    rgba_to_x11(&mut data);
    assert_eq!(data, original);
}

#[test]
fn blank_image_is_zeroed() {
    assert_eq!(blank_image(2, 3), vec![0u8; 24]);
    assert!(blank_image(0, 7).is_empty());
}

#[test]
fn raster_keeps_its_size_and_is_converted() {
    let b = icon_bitmap(IconSource::Raster { width: 1, height: 2, rgba: vec![1, 2, 3, 4, 5, 6, 7, 0] }, 64, 64)
        .unwrap();
    assert_eq!((b.width, b.height), (1, 2));
    assert_eq!(b.data, vec![3, 2, 1, 4, 0xa0, 0xa0, 0xa0, 0xff]);
}

#[test]
fn oversized_raster_is_refused() {
    let r = icon_bitmap(IconSource::Raster { width: 70000, height: 1, rgba: vec![] }, 64, 64);
    assert_eq!(r.err(), Some(IconError::SizeTooLarge));
    let r = icon_bitmap(IconSource::Raster { width: 1, height: 65536, rgba: vec![] }, 64, 64);
    assert_eq!(r.err(), Some(IconError::SizeTooLarge));
}

#[test]
fn vector_and_missing_take_the_launcher_size() {
    let b = icon_bitmap(IconSource::Vector { rgba: vec![1, 2, 3, 4] }, 1, 1).unwrap();
    assert_eq!((b.width, b.height, b.data), (1, 1, vec![1, 2, 3, 4]));
    let b = icon_bitmap(IconSource::Missing, 3, 2).unwrap();
    assert_eq!((b.width, b.height, b.data), (3, 2, vec![0u8; 24]));
}

#[test]
fn x_image_needs_enough_bytes() {
    let b = icon_bitmap(IconSource::Missing, 4, 4).unwrap();
    let image = icon_x_image(&b).ok().unwrap();
    let image = image.image();
    assert_eq!((image.width(), image.height()), (4, 4));
    assert_eq!(image.data(), &vec![0u8; 64][..]);
    let short = icon_bitmap(IconSource::Vector { rgba: vec![0; 63] }, 4, 4).unwrap();
    assert_eq!(icon_x_image(&short).err(), Some(IconError::DataTooShort));
    let wide = icon_bitmap(IconSource::Vector { rgba: vec![0; 100] }, 4, 4).unwrap();
    assert!(icon_x_image(&wide).is_ok());
}

#[test]
fn well_formed_raster_always_gives_an_x_image() {
    let b = icon_bitmap(IconSource::Raster { width: 3, height: 5, rgba: vec![7; 60] }, 64, 64).unwrap();
    assert!(icon_x_image(&b).is_ok());
}

#[test]
fn x_image_keeps_size_format_and_all_bytes() {
    let b = icon_bitmap(IconSource::Vector { rgba: vec![1, 2, 3, 4, 5, 6, 7, 8] }, 2, 1).unwrap();
    let made = icon_x_image(&b).ok().unwrap();
    let image = made.image();
    assert_eq!((image.width(), image.height(), image.depth()), (2, 1, 24));
    assert_eq!(image.bits_per_pixel(), x11rb::image::BitsPerPixel::B32);
    assert_eq!(image.scanline_pad(), x11rb::image::ScanlinePad::Pad8);
    assert_eq!(image.byte_order(), x11rb::image::ImageOrder::MsbFirst);
    assert_eq!(image.data(), &[1, 2, 3, 4, 5, 6, 7, 8][..]);
    let b = icon_bitmap(IconSource::Vector { rgba: vec![1, 2, 3, 4, 5] }, 1, 1).unwrap();
    assert_eq!(icon_x_image(&b).ok().unwrap().image().data(), &[1, 2, 3, 4, 5][..]);
}

fn png(width: u32, height: u32, rgba: Vec<u8>) -> Vec<u8> {
    let image = RgbaImage::from_raw(width, height, rgba).unwrap();
    let mut out = Cursor::new(Vec::new());
    image.write_to(&mut out, ImageOutputFormat::Png).unwrap();
    out.into_inner()
}

#[test]
fn raster_file_is_decoded_and_converted() {
    let bytes = png(2, 1, vec![10, 20, 30, 255, 10, 20, 30, 0]);
    let source = load_scale_image(&bytes, Some("png"), 2, 1).unwrap();
    let b = icon_bitmap(source, 2, 1).unwrap();
    assert_eq!((b.width, b.height), (2, 1));
    assert_eq!(b.data, vec![30, 20, 10, 255, 0xa0, 0xa0, 0xa0, 255]);
    let image = icon_x_image(&b).ok().unwrap();
    assert_eq!(image.image().data(), &[30, 20, 10, 255, 0xa0, 0xa0, 0xa0, 255][..]);
}

#[test]
fn raster_is_scaled_to_fit() {
    let bytes = png(4, 2, vec![200; 32]);
    match load_scale_image(&bytes, Some("PNG"), 2, 2).unwrap() {
        IconSource::Raster { width, height, rgba } => {
            assert_eq!((width, height), (2, 1));
            assert_eq!(rgba.len(), 8);
        },
        _ => panic!("expected a raster"),
    }
}

#[test]
fn raster_needs_a_known_extension_and_good_bytes() {
    let bytes = png(1, 1, vec![1, 2, 3, 4]);
    assert!(load_scale_image(&bytes, None, 64, 64).is_none());
    assert!(load_scale_image(&bytes, Some("svg"), 64, 64).is_none());
    assert!(load_scale_image(&[1, 2, 3], Some("png"), 64, 64).is_none());
    assert!(load_scale_image(&bytes, Some("png"), 64, 64).is_some());
}

#[test]
fn raster_at_the_target_size_is_unchanged() {
    let pixels: Vec<u8> = (0..16).map(|i| i * 10).collect();
    let bytes = png(2, 2, pixels.clone());
    match load_scale_image(&bytes, Some("png"), 2, 2).unwrap() {
        IconSource::Raster { width, height, rgba } => {
            assert_eq!((width, height), (2, 2));
            assert_eq!(rgba, pixels);
        },
        _ => panic!("expected a raster"),
    }
}

#[test]
fn fitted_raster_reaches_one_bound() {
    let bytes = png(3, 1, vec![255; 12]);
    match load_scale_image(&bytes, Some("Png"), 64, 64).unwrap() {
        IconSource::Raster { width, height, rgba } => {
            assert_eq!((width, height), (64, 21));
            assert_eq!(rgba.len(), 64 * 21 * 4);
        },
        _ => panic!("expected a raster"),
    }
}
