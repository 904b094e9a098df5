use vstd::prelude::*;

verus! {

/// The invariant that a header validation found broken. Variants are listed
/// in the order in which validation looks for them.
#[derive(Clone, Copy, Debug, PartialEq, Eq, Structural)]
pub enum Violation {
    DisplayWindowEmpty,
    DataWindowEmpty,
    DataWindowTooLarge,
    PixelAspectRatioInvalid,
    ScreenWindowWidthInvalid,
    NoChannels,
    EmptyChannelName,
    DuplicateChannelName,
    InvalidChannelSampling,
    MissingTileDescription,
    InvalidTileSize,
    TileTooLarge,
    MissingName,
    MissingImageType,
    UnknownImageType,
    ImageTypeRequiresTiles,
    RandomYRequiresTiles,
}

impl Violation {
    /// A human-readable description of the broken invariant.
    pub fn description(&self) -> &'static str {
        match self {
            Violation::DisplayWindowEmpty => "display window is empty",
            Violation::DataWindowEmpty => "data window is empty",
            Violation::DataWindowTooLarge => "data window exceeds the maximum image size",
            Violation::PixelAspectRatioInvalid => "pixel aspect ratio is not a finite positive number",
            Violation::ScreenWindowWidthInvalid => "screen window width is not a finite non-negative number",
            Violation::NoChannels => "channel list is empty",
            Violation::EmptyChannelName => "a channel has an empty name",
            Violation::DuplicateChannelName => "two channels share a name",
            Violation::InvalidChannelSampling => "a channel has a non-positive sampling factor",
            Violation::MissingTileDescription => "tiled image has no tile description",
            Violation::InvalidTileSize => "tile width or height is zero",
            Violation::TileTooLarge => "tile exceeds the maximum tile size",
            Violation::MissingName => "multi-part image has no name",
            Violation::MissingImageType => "multi-part image has no type",
            Violation::UnknownImageType => "image type is not a recognized type",
            Violation::ImageTypeRequiresTiles => "tiled image type in a scanline image",
            Violation::RandomYRequiresTiles => "random line order in a scanline image",
        }
    }
}

/// Failures of the header and attribute operations.
#[derive(Clone, Copy, Debug, PartialEq, Eq, Structural)]
pub enum Error {
    /// An attribute name was empty or held a NUL character.
    InvalidName,
    /// An argument was malformed: an unknown image type, a text value with a
    /// NUL character, or the removal of a mandatory attribute.
    InvalidArgument,
    /// The attribute exists under a different type.
    TypeMismatch,
    /// `sanity_check` found the header invalid.
    ValidationFailed(Violation),
}

} // verus!
