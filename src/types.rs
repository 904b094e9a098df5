use vstd::prelude::*;
use crate::text::str_equal;

verus! {

/// The vertical order in which scanlines are stored.
#[derive(Clone, Copy, Debug, PartialEq, Eq, Structural)]
pub enum LineOrder {
    IncreasingY,
    DecreasingY,
    RandomY,
}

impl LineOrder {
    pub open spec fn spec_code(self) -> u8 {
        match self {
            LineOrder::IncreasingY => 0,
            LineOrder::DecreasingY => 1,
            LineOrder::RandomY => 2,
        }
    }

    /// The fixed code of this line order in the file format.
    pub fn code(&self) -> (r: u8)
        ensures
            r == self.spec_code(),
    {
        match self {
            LineOrder::IncreasingY => 0,
            LineOrder::DecreasingY => 1,
            LineOrder::RandomY => 2,
        }
    }

    /// The line order with the given file-format code, if there is one.
    pub fn from_code(code: u8) -> (r: Option<LineOrder>)
        ensures
            r matches Some(lo) ==> lo.spec_code() == code,
            r is None <==> code > 2,
    {
        match code {
            0 => Some(LineOrder::IncreasingY),
            1 => Some(LineOrder::DecreasingY),
            2 => Some(LineOrder::RandomY),
            _ => None,
        }
    }
}

/// The compression scheme applied to the pixel data.
#[derive(Clone, Copy, Debug, PartialEq, Eq, Structural)]
pub enum Compression {
    NoCompression,
    Rle,
    Zips,
    Zip,
    Piz,
    Pxr24,
    B44,
    B44a,
    Dwaa,
    Dwab,
}

impl Compression {
    pub open spec fn spec_code(self) -> u8 {
        match self {
            Compression::NoCompression => 0,
            Compression::Rle => 1,
            Compression::Zips => 2,
            Compression::Zip => 3,
            Compression::Piz => 4,
            Compression::Pxr24 => 5,
            Compression::B44 => 6,
            Compression::B44a => 7,
            Compression::Dwaa => 8,
            Compression::Dwab => 9,
        }
    }

    /// The fixed code of this compression scheme in the file format.
    pub fn code(&self) -> (r: u8)
        ensures
            r == self.spec_code(),
    {
        match self {
            Compression::NoCompression => 0,
            Compression::Rle => 1,
            Compression::Zips => 2,
            Compression::Zip => 3,
            Compression::Piz => 4,
            Compression::Pxr24 => 5,
            Compression::B44 => 6,
            Compression::B44a => 7,
            Compression::Dwaa => 8,
            Compression::Dwab => 9,
        }
    }

    /// The compression scheme with the given file-format code, if there is one.
    pub fn from_code(code: u8) -> (r: Option<Compression>)
        ensures
            r matches Some(c) ==> c.spec_code() == code,
            r is None <==> code > 9,
    {
        match code {
            0 => Some(Compression::NoCompression),
            1 => Some(Compression::Rle),
            2 => Some(Compression::Zips),
            3 => Some(Compression::Zip),
            4 => Some(Compression::Piz),
            5 => Some(Compression::Pxr24),
            6 => Some(Compression::B44),
            7 => Some(Compression::B44a),
            8 => Some(Compression::Dwaa),
            9 => Some(Compression::Dwab),
            _ => None,
        }
    }
}

/// The storage type of one channel's samples.
#[derive(Clone, Copy, Debug, PartialEq, Eq, Structural)]
pub enum PixelType {
    Uint,
    Half,
    Float,
}

/// One named channel of an image.
#[derive(Clone, Debug)]
pub struct Channel {
    pub name: String,
    pub pixel_type: PixelType,
    pub x_sampling: i32,
    pub y_sampling: i32,
    pub p_linear: bool,
}

/// The ordered list of an image's channels.
#[derive(Clone, Debug)]
pub struct ChannelList {
    pub channels: Vec<Channel>,
}

impl ChannelList {
    pub open spec fn view(&self) -> Seq<Channel> {
        self.channels@
    }

    pub fn new() -> (r: ChannelList)
        ensures
            r@.len() == 0,
    {
        ChannelList { channels: Vec::new() }
    }

    /// Appends a channel at the end of the list.
    pub fn push(&mut self, channel: Channel)
        ensures
            final(self)@ == old(self)@.push(channel),
    {
        self.channels.push(channel);
    }

    pub fn len(&self) -> (r: usize)
        ensures
            r == self@.len(),
    {
        self.channels.len()
    }
}

/// How the levels of a tiled image are laid out.
#[derive(Clone, Copy, Debug, PartialEq, Eq, Structural)]
pub enum LevelMode {
    OneLevel,
    MipmapLevels,
    RipmapLevels,
}

/// How level sizes are rounded.
#[derive(Clone, Copy, Debug, PartialEq, Eq, Structural)]
pub enum LevelRoundingMode {
    RoundDown,
    RoundUp,
}

/// The tiling parameters of a tiled image.
#[derive(Clone, Copy, Debug, PartialEq, Eq, Structural)]
pub struct TileDescription {
    pub x_size: u32,
    pub y_size: u32,
    pub mode: LevelMode,
    pub rounding_mode: LevelRoundingMode,
}

/// A small preview of the image; its pixels are carried as opaque bytes.
#[derive(Clone, Debug)]
pub struct PreviewImage {
    pub width: u32,
    pub height: u32,
    pub pixels: Vec<u8>,
}

/// The kind of an image part, as named by the `type` attribute.
#[derive(Clone, Copy, Debug, PartialEq, Eq, Structural)]
pub enum ImageType {
    ScanlineImage,
    TiledImage,
    DeepScanline,
    DeepTile,
}

impl ImageType {
    /// The attribute text that names this kind.
    pub open spec fn spec_name(self) -> Seq<char> {
        match self {
            ImageType::ScanlineImage => seq!['s', 'c', 'a', 'n', 'l', 'i', 'n', 'e', 'i', 'm', 'a', 'g', 'e'],
            ImageType::TiledImage => seq!['t', 'i', 'l', 'e', 'd', 'i', 'm', 'a', 'g', 'e'],
            ImageType::DeepScanline => seq!['d', 'e', 'e', 'p', 's', 'c', 'a', 'n', 'l', 'i', 'n', 'e'],
            ImageType::DeepTile => seq!['d', 'e', 'e', 'p', 't', 'i', 'l', 'e'],
        }
    }

    /// Kinds whose pixels are stored in tiles.
    pub open spec fn spec_is_tiled(self) -> bool {
        self is TiledImage || self is DeepTile
    }

    pub fn is_tiled(&self) -> (r: bool)
        ensures
            r == self.spec_is_tiled(),
    {
        match self {
            ImageType::TiledImage | ImageType::DeepTile => true,
            _ => false,
        }
    }

    pub fn name(&self) -> (r: &'static str)
        ensures
            r@ == self.spec_name(),
    {
        match self {
            ImageType::ScanlineImage => {
                proof { reveal_strlit("scanlineimage"); }
                "scanlineimage"
            },
            ImageType::TiledImage => {
                proof { reveal_strlit("tiledimage"); }
                "tiledimage"
            },
            ImageType::DeepScanline => {
                proof { reveal_strlit("deepscanline"); }
                "deepscanline"
            },
            ImageType::DeepTile => {
                proof { reveal_strlit("deeptile"); }
                "deeptile"
            },
        }
    }
}

/// The kind named by the text, if any (exact, case-sensitive match).
pub open spec fn spec_image_type_named(s: Seq<char>) -> Option<ImageType> {
    if s == ImageType::ScanlineImage.spec_name() {
        Some(ImageType::ScanlineImage)
    } else if s == ImageType::TiledImage.spec_name() {
        Some(ImageType::TiledImage)
    } else if s == ImageType::DeepScanline.spec_name() {
        Some(ImageType::DeepScanline)
    } else if s == ImageType::DeepTile.spec_name() {
        Some(ImageType::DeepTile)
    } else {
        None
    }
}

/// The kind named by the text, if any.
pub fn image_type_named(s: &str) -> (r: Option<ImageType>)
    ensures
        r == spec_image_type_named(s@),
{
    if str_equal(s, ImageType::ScanlineImage.name()) {
        Some(ImageType::ScanlineImage)
    } else if str_equal(s, ImageType::TiledImage.name()) {
        Some(ImageType::TiledImage)
    } else if str_equal(s, ImageType::DeepScanline.name()) {
        Some(ImageType::DeepScanline)
    } else if str_equal(s, ImageType::DeepTile.name()) {
        Some(ImageType::DeepTile)
    } else {
        None
    }
}

} // verus!
