use openexr::math::Box2i;
use openexr::types::{image_type_named, Compression, ImageType, LineOrder};

#[test]
fn line_order_codes() {
    assert_eq!(LineOrder::IncreasingY.code(), 0);
    assert_eq!(LineOrder::DecreasingY.code(), 1);
    assert_eq!(LineOrder::RandomY.code(), 2);
    assert_eq!(LineOrder::from_code(2), Some(LineOrder::RandomY));
    assert_eq!(LineOrder::from_code(3), None);
}

#[test]
fn compression_codes() {
    assert_eq!(Compression::NoCompression.code(), 0);
    assert_eq!(Compression::Zip.code(), 3);
    assert_eq!(Compression::Dwab.code(), 9);
    assert_eq!(Compression::from_code(7), Some(Compression::B44a));
    assert_eq!(Compression::from_code(10), None);
}

#[test]
fn image_type_names() {
    assert_eq!(ImageType::ScanlineImage.name(), "scanlineimage");
    assert_eq!(ImageType::DeepTile.name(), "deeptile");
    assert_eq!(image_type_named("deepscanline"), Some(ImageType::DeepScanline));
    assert_eq!(image_type_named("tiledimage"), Some(ImageType::TiledImage));
    assert_eq!(image_type_named("TiledImage"), None);
    assert_eq!(image_type_named(""), None);
    assert!(ImageType::TiledImage.is_tiled());
    assert!(!ImageType::DeepScanline.is_tiled());
}

#[test]
fn box_measures() {
    let b = Box2i::new(-2, 3, 5, 3);
    assert_eq!(b.width(), 8);
    assert_eq!(b.height(), 1);
    assert!(!b.is_empty());
    assert!(Box2i::new(1, 0, 0, 0).is_empty());
    let wide = Box2i::new(i32::MIN, 0, i32::MAX, 0);
    assert_eq!(wide.width(), 1i64 << 32);
}
