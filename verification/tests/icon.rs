use std::io::Cursor;

use nephrite::icon::{icon_from_bytes, icon_from_rgba, IconError};

fn png(width: u32, height: u32) -> Vec<u8> {
    let mut img = image::RgbaImage::new(width, height);
    for (x, y, p) in img.enumerate_pixels_mut() {
        *p = image::Rgba([x as u8, y as u8, 7, 255]);
    }
    let mut out = Cursor::new(Vec::new());
    img.write_to(&mut out, image::ImageFormat::Png).unwrap();
    out.into_inner()
}

#[test]
fn decodes_an_embedded_png() {
    let icon = icon_from_bytes(&png(3, 2)).unwrap();
    assert_eq!((icon.width, icon.height), (3, 2));
    assert_eq!(icon.rgba.len(), 3 * 2 * 4);
    assert_eq!(&icon.rgba[0..4], &[0, 0, 7, 255]);
    assert_eq!(&icon.rgba[4..8], &[1, 0, 7, 255]);
}

#[test]
fn undecodable_bytes() {
    assert!(matches!(icon_from_bytes(b"not an image"), Err(IconError::Decode(_))));
    assert!(matches!(icon_from_bytes(&[]), Err(IconError::Decode(_))));
}

#[test]
fn pixel_checks() {
    assert!(matches!(
        icon_from_rgba(vec![0; 7], 1, 1),
        Err(IconError::ByteCountNotDivisibleBy4 { byte_count: 7 })
    ));
    assert!(matches!(
        icon_from_rgba(vec![0; 8], 3, 1),
        Err(IconError::DimensionsVsPixelCount { width: 3, height: 1, width_x_height: 3, pixel_count: 2 })
    ));
    assert!(matches!(
        icon_from_rgba(vec![0; 8], u32::MAX, 2),
        Err(IconError::DimensionsVsPixelCount { width_x_height: 8_589_934_590, .. })
    ));
    let ok = icon_from_rgba(vec![9; 24], 3, 2).unwrap();
    assert_eq!((ok.width, ok.height, ok.rgba.len()), (3, 2, 24));
    assert!(icon_from_rgba(vec![], 0, 5).is_ok());
}
