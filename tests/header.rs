use openexr::attribute::{Attribute, AttributeValue};
use openexr::error::{Error, Violation};
use openexr::header::Header;
use openexr::math::{Box2i, Float32Bits, V2f};
use openexr::types::{
    Channel, ChannelList, Compression, LevelMode, LevelRoundingMode, LineOrder, PixelType, PreviewImage,
    TileDescription,
};
use openexr::validation::Limits;

fn float(v: f32) -> Float32Bits {
    Float32Bits::from_bits(v.to_bits())
}

fn channel(name: &str, x_sampling: i32, y_sampling: i32) -> Channel {
    Channel { name: name.to_string(), pixel_type: PixelType::Half, x_sampling, y_sampling, p_linear: false }
}

fn rgb() -> ChannelList {
    let mut list = ChannelList::new();
    list.push(channel("R", 1, 1));
    list.push(channel("G", 1, 1));
    list.push(channel("B", 1, 1));
    list
}

fn valid_header() -> Header {
    let mut header = Header::default();
    *header.channels_mut() = rgb();
    header
}

fn tiles(x_size: u32, y_size: u32) -> TileDescription {
    TileDescription {
        x_size,
        y_size,
        mode: LevelMode::OneLevel,
        rounding_mode: LevelRoundingMode::RoundDown,
    }
}

fn violation(r: Result<(), Error>) -> Violation {
    match r {
        Err(Error::ValidationFailed(v)) => v,
        other => panic!("expected a validation failure, got {:?}", other),
    }
}

#[test]
fn default_header_has_documented_settings() {
    let header = Header::default();
    assert_eq!(*header.display_window(), Box2i::new(0, 0, 63, 63));
    assert_eq!(*header.data_window(), Box2i::new(0, 0, 63, 63));
    assert_eq!(header.pixel_aspect_ratio(), float(1.0));
    assert_eq!(*header.screen_window_center(), V2f { x: float(0.0), y: float(0.0) });
    assert_eq!(*header.screen_window_width(), float(1.0));
    assert_eq!(header.line_order(), LineOrder::IncreasingY);
    assert_eq!(header.compression(), Compression::Zip);
    assert_eq!(header.channels().len(), 0);
    assert!(!header.reads_nothing());
}

#[test]
fn default_header_passes_once_it_has_channels() {
    let limits = Limits::unlimited();
    let header = Header::default();
    assert_eq!(violation(header.sanity_check(&limits, false, false)), Violation::NoChannels);
    assert_eq!(valid_header().sanity_check(&limits, false, false), Ok(()));
}

#[test]
fn set_dimensions_derives_both_windows() {
    let mut header = Header::default();
    header.set_dimensions(1920, 1080);
    assert_eq!(*header.data_window(), Box2i::new(0, 0, 1919, 1079));
    assert_eq!(*header.display_window(), Box2i::new(0, 0, 1919, 1079));
    let header = Header::from_dimensions(1, 1);
    assert_eq!(*header.data_window(), Box2i::new(0, 0, 0, 0));
    assert_eq!(header.compression(), Compression::Zip);
}

#[test]
fn non_positive_dimensions_fail_validation() {
    let limits = Limits::unlimited();
    let mut header = valid_header();
    header.set_dimensions(0, 10);
    assert_eq!(violation(header.sanity_check(&limits, false, false)), Violation::DisplayWindowEmpty);
}

#[test]
fn with_dimensions_and_new_build_headers() {
    let header = Header::with_dimensions(
        10,
        20,
        float(2.0),
        V2f { x: float(0.5), y: float(-0.5) },
        float(3.0),
        LineOrder::DecreasingY,
        Compression::Piz,
    )
    .unwrap();
    assert_eq!(*header.display_window(), Box2i::new(0, 0, 9, 19));
    assert_eq!(header.pixel_aspect_ratio(), float(2.0));
    assert_eq!(header.line_order(), LineOrder::DecreasingY);
    let header = Header::new(
        Box2i::new(-5, -5, 5, 5),
        Box2i::new(0, 0, 3, 3),
        float(1.0),
        V2f { x: float(0.0), y: float(0.0) },
        float(1.0),
        LineOrder::IncreasingY,
        Compression::NoCompression,
    )
    .unwrap();
    assert_eq!(*header.data_window(), Box2i::new(-5, -5, 5, 5));
    assert_eq!(*header.display_window(), Box2i::new(0, 0, 3, 3));
    assert_eq!(header.compression(), Compression::NoCompression);
}

#[test]
fn image_size_limit_is_inclusive() {
    let mut limits = Limits::unlimited();
    Header::set_max_image_size(&mut limits, 100, 100);
    assert_eq!(limits.max_image_width, 100);
    assert_eq!(limits.max_image_height, 100);
    let mut header = valid_header();
    header.set_dimensions(101, 50);
    assert_eq!(violation(header.sanity_check(&limits, false, false)), Violation::DataWindowTooLarge);
    header.set_dimensions(100, 50);
    assert_eq!(header.sanity_check(&limits, false, false), Ok(()));
    header.set_dimensions(100, 101);
    assert_eq!(violation(header.sanity_check(&limits, false, false)), Violation::DataWindowTooLarge);
}

#[test]
fn image_size_limit_applies_to_data_window() {
    let mut limits = Limits::unlimited();
    Header::set_max_image_size(&mut limits, 100, 100);
    let mut header = valid_header();
    header.set_dimensions(200, 200);
    *header.data_window_mut() = Box2i::new(10, 10, 109, 109);
    assert_eq!(header.sanity_check(&limits, false, false), Ok(()));
}

#[test]
fn tile_size_limit() {
    let mut limits = Limits::unlimited();
    Header::set_max_tile_size(&mut limits, 64, 64);
    let mut header = valid_header();
    header.set_tile_description(tiles(65, 32)).unwrap();
    assert_eq!(violation(header.sanity_check(&limits, true, false)), Violation::TileTooLarge);
    header.set_tile_description(tiles(64, 64)).unwrap();
    assert_eq!(header.sanity_check(&limits, true, false), Ok(()));
    header.set_tile_description(tiles(0, 64)).unwrap();
    assert_eq!(violation(header.sanity_check(&limits, true, false)), Violation::InvalidTileSize);
}

#[test]
fn tiled_image_needs_tile_description() {
    let limits = Limits::unlimited();
    let header = valid_header();
    assert!(!header.has_tile_description());
    assert_eq!(violation(header.sanity_check(&limits, true, false)), Violation::MissingTileDescription);
}

#[test]
fn random_y_requires_tiles() {
    let limits = Limits::unlimited();
    let mut header = valid_header();
    header.set_line_order(LineOrder::RandomY);
    assert_eq!(violation(header.sanity_check(&limits, false, false)), Violation::RandomYRequiresTiles);
    header.set_tile_description(tiles(32, 32)).unwrap();
    assert_eq!(header.sanity_check(&limits, true, false), Ok(()));
    assert_eq!(*header.tile_description(), tiles(32, 32));
}

#[test]
fn float_attribute_checks() {
    let limits = Limits::unlimited();
    let mut header = valid_header();
    header.set_pixel_aspect_ratio(float(f32::NAN));
    assert_eq!(violation(header.sanity_check(&limits, false, false)), Violation::PixelAspectRatioInvalid);
    header.set_pixel_aspect_ratio(float(0.0));
    assert_eq!(violation(header.sanity_check(&limits, false, false)), Violation::PixelAspectRatioInvalid);
    header.set_pixel_aspect_ratio(float(f32::INFINITY));
    assert_eq!(violation(header.sanity_check(&limits, false, false)), Violation::PixelAspectRatioInvalid);
    header.set_pixel_aspect_ratio(float(f32::MIN_POSITIVE));
    assert_eq!(header.sanity_check(&limits, false, false), Ok(()));
    *header.screen_window_width_mut() = float(-1.0);
    assert_eq!(violation(header.sanity_check(&limits, false, false)), Violation::ScreenWindowWidthInvalid);
    *header.screen_window_width_mut() = float(-0.0);
    assert_eq!(header.sanity_check(&limits, false, false), Ok(()));
    *header.screen_window_width_mut() = float(0.0);
    assert_eq!(header.sanity_check(&limits, false, false), Ok(()));
}

#[test]
fn float_bits_classification() {
    assert!(float(1.5).is_finite_positive());
    assert!(!float(-1.5).is_finite_positive());
    assert!(!float(f32::NAN).is_finite_non_negative());
    assert!(float(-0.0).is_finite_non_negative());
    assert!(float(f32::MAX).is_finite_positive());
    assert!(!float(f32::NEG_INFINITY).is_finite_non_negative());
    assert_eq!(Float32Bits::one(), float(1.0));
    assert_eq!(Float32Bits::zero(), float(0.0));
}

#[test]
fn channel_checks() {
    let limits = Limits::unlimited();
    let mut header = valid_header();
    header.channels_mut().push(channel("", 1, 1));
    assert_eq!(violation(header.sanity_check(&limits, false, false)), Violation::EmptyChannelName);

    let mut header = valid_header();
    header.channels_mut().push(channel("G", 1, 1));
    assert_eq!(violation(header.sanity_check(&limits, false, false)), Violation::DuplicateChannelName);

    let mut header = valid_header();
    header.channels_mut().push(channel("A", 0, 1));
    assert_eq!(violation(header.sanity_check(&limits, false, false)), Violation::InvalidChannelSampling);

    let mut header = valid_header();
    header.channels_mut().push(channel("Z", 2, -1));
    assert_eq!(violation(header.sanity_check(&limits, false, false)), Violation::InvalidChannelSampling);
}

#[test]
fn first_violation_in_order() {
    let limits = Limits::unlimited();
    let mut header = Header::default();
    header.set_dimensions(0, 0);
    header.set_pixel_aspect_ratio(float(-1.0));
    header.set_line_order(LineOrder::RandomY);
    assert_eq!(violation(header.sanity_check(&limits, false, true)), Violation::DisplayWindowEmpty);
    assert_eq!(violation(header.sanity_check(&limits, false, true)), Violation::DisplayWindowEmpty);
    header.set_dimensions(4, 4);
    assert_eq!(violation(header.sanity_check(&limits, false, true)), Violation::PixelAspectRatioInvalid);
    header.set_pixel_aspect_ratio(float(1.0));
    assert_eq!(violation(header.sanity_check(&limits, false, true)), Violation::NoChannels);
    *header.channels_mut() = rgb();
    assert_eq!(violation(header.sanity_check(&limits, false, true)), Violation::MissingName);
    assert_eq!(header.find_violation(&limits, false, false), Some(Violation::RandomYRequiresTiles));
    assert!(!Violation::RandomYRequiresTiles.description().is_empty());
}

#[test]
fn data_window_empty_is_reported_after_display_window() {
    let limits = Limits::unlimited();
    let mut header = valid_header();
    *header.data_window_mut() = Box2i::new(5, 0, 4, 10);
    assert_eq!(violation(header.sanity_check(&limits, false, false)), Violation::DataWindowEmpty);
}

#[test]
fn multi_part_checks() {
    let limits = Limits::unlimited();
    let mut header = valid_header();
    assert!(!header.has_name());
    assert_eq!(violation(header.sanity_check(&limits, false, true)), Violation::MissingName);
    header.set_name("left").unwrap();
    assert_eq!(header.name(), "left");
    assert_eq!(violation(header.sanity_check(&limits, false, true)), Violation::MissingImageType);
    header.set_image_type("tiledimage").unwrap();
    assert_eq!(header.image_type(), "tiledimage");
    assert_eq!(violation(header.sanity_check(&limits, false, true)), Violation::ImageTypeRequiresTiles);
    header.set_image_type("scanlineimage").unwrap();
    assert_eq!(header.sanity_check(&limits, false, true), Ok(()));
    header.insert("type", AttributeValue::Text("ScanLineImage".to_string())).unwrap();
    assert_eq!(violation(header.sanity_check(&limits, false, true)), Violation::UnknownImageType);
    header.set_name("").unwrap();
    assert_eq!(violation(header.sanity_check(&limits, false, true)), Violation::MissingName);
}

#[test]
fn text_setters_refuse_bad_input() {
    let mut header = valid_header();
    assert_eq!(header.set_name("a\0b"), Err(Error::InvalidArgument));
    assert!(!header.has_name());
    assert_eq!(header.set_image_type("picture"), Err(Error::InvalidArgument));
    assert!(!header.has_image_type());
    assert_eq!(header.set_view("x\0"), Err(Error::InvalidArgument));
    header.insert("view", AttributeValue::Int(3)).unwrap();
    assert_eq!(header.set_view("right"), Err(Error::TypeMismatch));
    assert!(!header.has_view());
}

#[test]
fn view_version_and_chunk_count() {
    let mut header = valid_header();
    assert!(!header.has_view());
    header.set_view("right").unwrap();
    assert!(header.has_view());
    assert_eq!(header.view(), "right");
    assert!(!header.has_version());
    header.set_version(2).unwrap();
    assert!(header.has_version());
    assert_eq!(header.version(), 2);
    assert!(!header.has_chunk_count());
    header.insert("chunkCount", AttributeValue::Int(17)).unwrap();
    assert!(header.has_chunk_count());
    assert_eq!(header.chunk_count(), 17);
}

#[test]
fn preview_image_attribute() {
    let mut header = valid_header();
    assert!(!header.has_preview_image());
    header.set_preview_image(PreviewImage { width: 2, height: 1, pixels: vec![1, 2, 3, 4, 5, 6, 7, 8] }).unwrap();
    assert!(header.has_preview_image());
    assert_eq!(header.preview_image().width, 2);
    assert_eq!(header.preview_image().pixels, vec![1, 2, 3, 4, 5, 6, 7, 8]);
}

#[test]
fn insert_same_name_same_type_overwrites_in_place() {
    let mut header = valid_header();
    header.insert("comment", AttributeValue::Text("one".to_string())).unwrap();
    header.insert("owner", AttributeValue::Int(1)).unwrap();
    header.insert("comment", AttributeValue::Text("two".to_string())).unwrap();
    let attributes = header.into_attributes();
    assert_eq!(attributes.len(), 10);
    assert_eq!(attributes[8].name, "comment");
    assert!(matches!(&attributes[8].value, AttributeValue::Text(t) if t == "two"));
    assert_eq!(attributes[9].name, "owner");
}

#[test]
fn insert_same_name_other_type_fails() {
    let mut header = valid_header();
    header.insert("comment", AttributeValue::Text("one".to_string())).unwrap();
    assert_eq!(header.insert("comment", AttributeValue::Int(3)), Err(Error::TypeMismatch));
    assert!(matches!(header.find("comment"), Some(AttributeValue::Text(t)) if t == "one"));
    assert_eq!(
        header.insert("dataWindow", AttributeValue::V2f(V2f { x: float(0.0), y: float(0.0) })),
        Err(Error::TypeMismatch)
    );
    assert_eq!(*header.data_window(), Box2i::new(0, 0, 63, 63));
}

#[test]
fn opaque_values_compare_by_type_name() {
    let mut header = valid_header();
    let blob = |kind: &str, bytes: Vec<u8>| AttributeValue::Opaque { kind_name: kind.to_string(), bytes };
    header.insert("custom", blob("myType", vec![1])).unwrap();
    header.insert("custom", blob("myType", vec![2, 3])).unwrap();
    assert_eq!(header.insert("custom", blob("otherType", vec![])), Err(Error::TypeMismatch));
    assert!(matches!(header.find("custom"), Some(AttributeValue::Opaque { bytes, .. }) if *bytes == vec![2, 3]));
}

#[test]
fn insert_refuses_invalid_names() {
    let mut header = valid_header();
    assert_eq!(header.insert("", AttributeValue::Int(1)), Err(Error::InvalidName));
    assert_eq!(header.insert("a\0b", AttributeValue::Int(1)), Err(Error::InvalidName));
}

#[test]
fn erase_absent_name_is_no_error() {
    let mut header = valid_header();
    header.insert("comment", AttributeValue::Text("x".to_string())).unwrap();
    assert_eq!(header.erase("nonexistent"), Ok(()));
    let attributes = header.into_attributes();
    assert_eq!(attributes.len(), 9);
    assert_eq!(attributes[8].name, "comment");
}

#[test]
fn erase_removes_optional_and_keeps_mandatory() {
    let mut header = valid_header();
    header.insert("comment", AttributeValue::Text("x".to_string())).unwrap();
    assert_eq!(header.erase("comment"), Ok(()));
    assert!(header.find("comment").is_none());
    assert_eq!(header.erase("dataWindow"), Err(Error::InvalidArgument));
    assert_eq!(header.erase(""), Err(Error::InvalidName));
    assert_eq!(*header.data_window(), Box2i::new(0, 0, 63, 63));
}

#[test]
fn typed_box_lookup_fails_closed() {
    let mut header = valid_header();
    header.insert("crop", AttributeValue::Box2i(Box2i::new(1, 2, 3, 4))).unwrap();
    header.insert("note", AttributeValue::Text("n".to_string())).unwrap();
    assert_eq!(header.find_typed_attribute_box2i("crop"), Some(&Box2i::new(1, 2, 3, 4)));
    assert_eq!(header.find_typed_attribute_box2i("note"), None);
    assert_eq!(header.find_typed_attribute_box2i("absent"), None);
    if let Some(b) = header.find_typed_attribute_box2i_mut("crop") {
        b.max.x = 30;
    }
    assert_eq!(header.find_typed_attribute_box2i("crop"), Some(&Box2i::new(1, 2, 30, 4)));
    assert!(header.find_typed_attribute_box2i_mut("note").is_none());
    assert_eq!(header.find_typed_attribute_box2i("displayWindow"), Some(&Box2i::new(0, 0, 63, 63)));
}

#[test]
fn mutable_accessors_change_in_place() {
    let mut header = valid_header();
    header.display_window_mut().max.x = 99;
    assert_eq!(*header.display_window(), Box2i::new(0, 0, 99, 63));
    header.screen_window_center_mut().x = float(2.0);
    assert_eq!(header.screen_window_center().x, float(2.0));
    header.set_compression(Compression::Dwab);
    assert_eq!(header.compression(), Compression::Dwab);
}

#[test]
fn attribute_list_round_trip() {
    let mut header = valid_header();
    header.set_name("part").unwrap();
    header.insert("owner", AttributeValue::Int(7)).unwrap();
    let attributes = header.into_attributes();
    let names: Vec<String> = attributes.iter().map(|a| a.name.clone()).collect();
    let rebuilt = Header::from_attributes(attributes).unwrap();
    assert_eq!(rebuilt.name(), "part");
    assert_eq!(rebuilt.channels().len(), 3);
    let again: Vec<String> = rebuilt.into_attributes().iter().map(|a| a.name.clone()).collect();
    assert_eq!(names, again);
    assert_eq!(names[0], "displayWindow");
    assert_eq!(names[9], "owner");
}

#[test]
fn from_attributes_refuses_non_headers() {
    let mut attributes = valid_header().into_attributes();
    attributes.push(Attribute { name: "dataWindow".to_string(), value: AttributeValue::Int(1) });
    assert_eq!(Header::from_attributes(attributes).err(), Some(Error::InvalidArgument));
    let mut attributes = valid_header().into_attributes();
    attributes.remove(7);
    assert_eq!(Header::from_attributes(attributes).err(), Some(Error::InvalidArgument));
    let mut attributes = valid_header().into_attributes();
    attributes.push(Attribute { name: String::new(), value: AttributeValue::Int(1) });
    assert_eq!(Header::from_attributes(attributes).err(), Some(Error::InvalidName));
}
