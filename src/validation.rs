use vstd::prelude::*;
use crate::error::Violation;
use crate::header::{
    spec_channels, spec_data_window, spec_display_window, spec_line_order, spec_pixel_aspect_ratio,
    spec_screen_window_width, spec_text, spec_tile_description,
};
use crate::registry::Entries;
use crate::types::{image_type_named, spec_image_type_named, Channel, ChannelList, LineOrder, TileDescription};

verus! {

/// Ceilings on image and tile sizes that validation enforces. A value of
/// zero or less leaves that size unlimited.
#[derive(Clone, Copy, Debug, PartialEq, Eq, Structural)]
pub struct Limits {
    pub max_image_width: i32,
    pub max_image_height: i32,
    pub max_tile_width: i32,
    pub max_tile_height: i32,
}

impl Limits {
    /// No size is limited.
    pub fn unlimited() -> (r: Limits)
        ensures
            r.max_image_width == 0 && r.max_image_height == 0,
            r.max_tile_width == 0 && r.max_tile_height == 0,
    {
        Limits { max_image_width: 0, max_image_height: 0, max_tile_width: 0, max_tile_height: 0 }
    }
}

/// A size breaks a limit that is in force.
pub open spec fn exceeds(size: int, limit: i32) -> bool {
    limit > 0 && size > limit
}

pub fn exceeds_limit(size: i64, limit: i32) -> (r: bool)
    ensures
        r == exceeds(size as int, limit),
{
    limit > 0 && size > limit as i64
}

/// What is wrong with the channel at position `i`, given those before it.
pub open spec fn channel_problem(chs: Seq<Channel>, i: int) -> Option<Violation> {
    if chs[i].name@.len() == 0 {
        Some(Violation::EmptyChannelName)
    } else if exists|j: int| 0 <= j < i && chs[j].name@ == chs[i].name@ {
        Some(Violation::DuplicateChannelName)
    } else if chs[i].x_sampling <= 0 || chs[i].y_sampling <= 0 {
        Some(Violation::InvalidChannelSampling)
    } else {
        None
    }
}

/// The first problem among the first `n` channels.
pub open spec fn first_channel_problem(chs: Seq<Channel>, n: int) -> Option<Violation>
    decreases n,
{
    if n <= 0 {
        None
    } else {
        match first_channel_problem(chs, n - 1) {
            Some(v) => Some(v),
            None => channel_problem(chs, n - 1),
        }
    }
}

/// A problem found among the first `i` channels stays the first problem of
/// any longer prefix.
proof fn lemma_first_problem_stays(chs: Seq<Channel>, i: int, n: int)
    requires
        0 <= i <= n,
        first_channel_problem(chs, i) is Some,
    ensures
        first_channel_problem(chs, n) == first_channel_problem(chs, i),
    decreases n - i,
{
    if n > i {
        lemma_first_problem_stays(chs, i, n - 1);
    }
}

/// The channel checks report only channel problems.
proof fn lemma_channel_problem_kinds(chs: Seq<Channel>, n: int)
    ensures
        first_channel_problem(chs, n) matches Some(v) ==> v is EmptyChannelName || v is DuplicateChannelName
            || v is InvalidChannelSampling,
    decreases n,
{
    if n > 0 {
        lemma_channel_problem_kinds(chs, n - 1);
    }
}

pub open spec fn channels_violation(chs: Seq<Channel>) -> Option<Violation> {
    if chs.len() == 0 {
        Some(Violation::NoChannels)
    } else {
        first_channel_problem(chs, chs.len() as int)
    }
}

pub open spec fn windows_violation(s: Entries, limits: Limits) -> Option<Violation> {
    let display = spec_display_window(s);
    let data = spec_data_window(s);
    if display.spec_is_empty() {
        Some(Violation::DisplayWindowEmpty)
    } else if data.spec_is_empty() {
        Some(Violation::DataWindowEmpty)
    } else if exceeds(data.spec_width(), limits.max_image_width) || exceeds(
        data.spec_height(),
        limits.max_image_height,
    ) {
        Some(Violation::DataWindowTooLarge)
    } else {
        None
    }
}

pub open spec fn tiles_violation(tiles: Option<TileDescription>, limits: Limits) -> Option<Violation> {
    match tiles {
        None => Some(Violation::MissingTileDescription),
        Some(t) => if t.x_size == 0 || t.y_size == 0 {
            Some(Violation::InvalidTileSize)
        } else if exceeds(t.x_size as int, limits.max_tile_width) || exceeds(
            t.y_size as int,
            limits.max_tile_height,
        ) {
            Some(Violation::TileTooLarge)
        } else {
            None
        },
    }
}

pub open spec fn multi_part_violation(name: Option<Seq<char>>, kind: Option<Seq<char>>, is_tiled: bool) -> Option<
    Violation,
> {
    if !(name matches Some(n) && n.len() > 0) {
        Some(Violation::MissingName)
    } else if !(kind matches Some(t) && t.len() > 0) {
        Some(Violation::MissingImageType)
    } else {
        match spec_image_type_named(kind.unwrap()) {
            None => Some(Violation::UnknownImageType),
            Some(ty) => if ty.spec_is_tiled() && !is_tiled {
                Some(Violation::ImageTypeRequiresTiles)
            } else {
                None
            },
        }
    }
}

/// The first broken invariant of a header, in the order: windows, pixel
/// aspect ratio, screen window width, channels, tiles (for tiled images),
/// name and type (for multi-part files), line order.
pub open spec fn first_violation(s: Entries, limits: Limits, is_tiled: bool, is_multi_part: bool) -> Option<
    Violation,
> {
    if windows_violation(s, limits) is Some {
        windows_violation(s, limits)
    } else if !spec_pixel_aspect_ratio(s).spec_is_finite_positive() {
        Some(Violation::PixelAspectRatioInvalid)
    } else if !spec_screen_window_width(s).spec_is_finite_non_negative() {
        Some(Violation::ScreenWindowWidthInvalid)
    } else if channels_violation(spec_channels(s)@) is Some {
        channels_violation(spec_channels(s)@)
    } else if is_tiled && tiles_violation(spec_tile_description(s), limits) is Some {
        tiles_violation(spec_tile_description(s), limits)
    } else if is_multi_part && multi_part_violation(
        spec_text(s, "name"@),
        spec_text(s, "type"@),
        is_tiled,
    ) is Some {
        multi_part_violation(spec_text(s, "name"@), spec_text(s, "type"@), is_tiled)
    } else if spec_line_order(s) == LineOrder::RandomY && !is_tiled {
        Some(Violation::RandomYRequiresTiles)
    } else {
        None
    }
}

/// The first problem of a channel list.
pub fn check_channels(chs: &ChannelList) -> (r: Option<Violation>)
    ensures
        r == channels_violation(chs@),
{
    let n = chs.channels.len();
    if n == 0 {
        return Some(Violation::NoChannels);
    }
    let mut i: usize = 0;
    while i < n
        invariant
            n == chs@.len(),
            i <= n,
            first_channel_problem(chs@, i as int) is None,
        decreases n - i,
    {
        let c = &chs.channels[i];
        if c.name.as_str().is_empty() {
            proof { lemma_first_problem_stays(chs@, i as int + 1, n as int); }
            return Some(Violation::EmptyChannelName);
        }
        let mut j: usize = 0;
        while j < i
            invariant
                n == chs@.len(),
                i < n,
                j <= i,
                c == chs@[i as int],
                c.name@.len() > 0,
                first_channel_problem(chs@, i as int) is None,
                forall|k: int| 0 <= k < j ==> chs@[k].name@ != chs@[i as int].name@,
            decreases i - j,
        {
            if chs.channels[j].name == c.name {
                proof {
                    assert(chs@[j as int].name@ == chs@[i as int].name@);
                    assert(channel_problem(chs@, i as int) == Some(Violation::DuplicateChannelName));
                    lemma_first_problem_stays(chs@, i as int + 1, n as int);
                }
                return Some(Violation::DuplicateChannelName);
            }
            j = j + 1;
        }
        if c.x_sampling <= 0 || c.y_sampling <= 0 {
            proof { lemma_first_problem_stays(chs@, i as int + 1, n as int); }
            return Some(Violation::InvalidChannelSampling);
        }
        i = i + 1;
    }
    None
}

/// The first problem of the tiling parameters.
pub fn check_tiles(tiles: Option<&TileDescription>, limits: &Limits) -> (r: Option<Violation>)
    ensures
        r == tiles_violation(
            match tiles {
                Some(t) => Some(*t),
                None => None,
            },
            *limits,
        ),
{
    match tiles {
        None => Some(Violation::MissingTileDescription),
        Some(t) => if t.x_size == 0 || t.y_size == 0 {
            Some(Violation::InvalidTileSize)
        } else if exceeds_limit(t.x_size as i64, limits.max_tile_width) || exceeds_limit(
            t.y_size as i64,
            limits.max_tile_height,
        ) {
            Some(Violation::TileTooLarge)
        } else {
            None
        },
    }
}

/// The first problem of a multi-part header's name and type texts.
pub fn check_multi_part(name: Option<&String>, kind: Option<&String>, is_tiled: bool) -> (r: Option<Violation>)
    ensures
        r == multi_part_violation(
            match name {
                Some(n) => Some(n@),
                None => None,
            },
            match kind {
                Some(k) => Some(k@),
                None => None,
            },
            is_tiled,
        ),
{
    let has_name = match name {
        Some(n) => !n.as_str().is_empty(),
        None => false,
    };
    if !has_name {
        return Some(Violation::MissingName);
    }
    match kind {
        None => Some(Violation::MissingImageType),
        Some(k) => if k.as_str().is_empty() {
            Some(Violation::MissingImageType)
        } else {
            match image_type_named(k.as_str()) {
                None => Some(Violation::UnknownImageType),
                Some(ty) => if ty.is_tiled() && !is_tiled {
                    Some(Violation::ImageTypeRequiresTiles)
                } else {
                    None
                },
            }
        },
    }
}

/// Validation reports the earliest failing check in its fixed order, however
/// many later checks would fail too.
pub proof fn lemma_first_violation_is_earliest(s: Entries, limits: Limits, is_tiled: bool, is_multi_part: bool)
    ensures
        windows_violation(s, limits) is Some ==> first_violation(s, limits, is_tiled, is_multi_part)
            == windows_violation(s, limits),
        windows_violation(s, limits) is None && !spec_pixel_aspect_ratio(s).spec_is_finite_positive()
            ==> first_violation(s, limits, is_tiled, is_multi_part) == Some(Violation::PixelAspectRatioInvalid),
        windows_violation(s, limits) is None && spec_pixel_aspect_ratio(s).spec_is_finite_positive()
            && !spec_screen_window_width(s).spec_is_finite_non_negative() ==> first_violation(
            s,
            limits,
            is_tiled,
            is_multi_part,
        ) == Some(Violation::ScreenWindowWidthInvalid),
        first_violation(s, limits, is_tiled, is_multi_part) == Some(Violation::RandomYRequiresTiles) ==> {
            &&& windows_violation(s, limits) is None
            &&& spec_pixel_aspect_ratio(s).spec_is_finite_positive()
            &&& spec_screen_window_width(s).spec_is_finite_non_negative()
            &&& channels_violation(spec_channels(s)@) is None
            &&& is_multi_part ==> multi_part_violation(spec_text(s, "name"@), spec_text(s, "type"@), is_tiled) is None
        },
{
    lemma_channel_problem_kinds(spec_channels(s)@, spec_channels(s)@.len() as int);
}

/// With a maximum image width in force, a data window wider than the maximum
/// fails validation, and one exactly as wide passes the size check.
pub proof fn lemma_image_width_limit(s: Entries, limits: Limits, is_tiled: bool, is_multi_part: bool)
    requires
        limits.max_image_width > 0,
        !spec_display_window(s).spec_is_empty(),
        !spec_data_window(s).spec_is_empty(),
    ensures
        spec_data_window(s).spec_width() > limits.max_image_width ==> first_violation(
            s,
            limits,
            is_tiled,
            is_multi_part,
        ) == Some(Violation::DataWindowTooLarge),
        spec_data_window(s).spec_width() == limits.max_image_width && !exceeds(
            spec_data_window(s).spec_height(),
            limits.max_image_height,
        ) ==> windows_violation(s, limits) is None,
{
}

/// Random line order is refused for scanline images; when that is the only
/// complaint, the same header validated as a tiled image with valid tiling
/// parameters passes.
pub proof fn lemma_random_y_requires_tiles(s: Entries, limits: Limits, is_multi_part: bool)
    requires
        spec_line_order(s) == LineOrder::RandomY,
    ensures
        first_violation(s, limits, false, is_multi_part) is Some,
        first_violation(s, limits, false, is_multi_part) == Some(Violation::RandomYRequiresTiles) && tiles_violation(
            spec_tile_description(s),
            limits,
        ) is None ==> first_violation(s, limits, true, is_multi_part) is None,
{
    lemma_channel_problem_kinds(spec_channels(s)@, spec_channels(s)@.len() as int);
}

} // verus!
