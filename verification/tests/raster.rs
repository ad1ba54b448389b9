use xscreen::errors::Error;
use xscreen::pixels::{get_colors, Raster};

#[test]
fn pixel_decomposition_is_bit_exact() {
    assert_eq!(get_colors(0x123456), [0x12, 0x34, 0x56]);
    assert_eq!(get_colors(0xffffff), [255, 255, 255]);
    assert_eq!(get_colors(0), [0, 0, 0]);
}

#[test]
fn high_bits_are_discarded() {
    assert_eq!(get_colors(0xff00_0000_0012_3456), [0x12, 0x34, 0x56]);
}

#[test]
fn raster_lays_pixels_out_row_major() {
    let pixels = vec![0x123456, 0xffffff, 0x000000, 0x0a0b0c, 0x010203, 0xf0e0d0];
    let raster = Raster::from_pixels(3, 2, &pixels).unwrap();
    assert_eq!(raster.width, 3);
    assert_eq!(raster.height, 2);
    assert_eq!(
        raster.data,
        vec![
            0x12, 0x34, 0x56, 0xff, 0xff, 0xff, 0x00, 0x00, 0x00, 0x0a, 0x0b, 0x0c, 0x01, 0x02,
            0x03, 0xf0, 0xe0, 0xd0
        ]
    );
}

#[test]
fn zero_width_is_invalid_rect() {
    let err = Raster::from_pixels(0, 5, &vec![]).unwrap_err();
    assert!(matches!(err, Error::InvalidRect));
}

#[test]
fn zero_height_is_invalid_rect() {
    let err = Raster::from_pixels(5, 0, &vec![]).unwrap_err();
    assert!(matches!(err, Error::InvalidRect));
}

#[test]
fn short_pixel_buffer_is_image_error() {
    let err = Raster::from_pixels(2, 2, &vec![0x123456]).unwrap_err();
    assert!(matches!(err, Error::ImageError));
}

#[test]
fn saved_raster_round_trips_through_a_decoder() {
    let pixels = vec![0x123456, 0xffffff, 0x000000, 0x0a0b0c, 0x010203, 0xf0e0d0];
    let raster = Raster::from_pixels(3, 2, &pixels).unwrap();
    let bytes = raster.encode().unwrap();
    let decoded = image::load_from_memory(&bytes).unwrap().into_rgb8();
    assert_eq!(decoded.width(), 3);
    assert_eq!(decoded.height(), 2);
    for y in 0..2u32 {
        for x in 0..3u32 {
            let rgb = get_colors(pixels[(y * 3 + x) as usize]);
            assert_eq!(decoded.get_pixel(x, y).0, rgb);
        }
    }
}

#[test]
fn empty_raster_cannot_be_encoded() {
    let raster = Raster { width: 0, height: 0, data: vec![] };
    let err = raster.encode().unwrap_err();
    assert!(matches!(err, Error::IOError(_)));
}

#[test]
fn single_pixel_round_trips() {
    let raster = Raster::from_pixels(1, 1, &vec![0x8090a0]).unwrap();
    let bytes = raster.encode().unwrap();
    let decoded = image::load_from_memory(&bytes).unwrap().into_rgb8();
    assert_eq!(decoded.width(), 1);
    assert_eq!(decoded.height(), 1);
    assert_eq!(decoded.get_pixel(0, 0).0, [0x80, 0x90, 0xa0]);
}
