use vstd::prelude::*;
use crate::attribute::{Attribute, AttributeValue};
use crate::error::{Error, Violation};
use crate::math::{Box2i, Float32Bits, V2f, V2i, ONE_BITS};
use crate::registry::{
    has_name, index_of, lemma_index_of_unique, lookup, names_unique, names_valid, spec_erase, spec_from_entries,
    spec_insert, AttributeRegistry, Entries,
};
use crate::text::{has_no_nul, is_valid_name, spec_has_no_nul, spec_is_valid_name, str_equal};
use crate::validation::{
    channels_violation, check_channels, check_multi_part, check_tiles, exceeds_limit, first_violation, Limits,
};
use crate::types::{
    image_type_named, spec_image_type_named, ChannelList, Compression, LineOrder, PreviewImage, TileDescription,
};

verus! {

/// The attribute kind (see `AttributeValue::spec_kind`) that a mandatory
/// attribute must have, or `None` for a name that is not mandatory.
pub open spec fn required_kind(name: Seq<char>) -> Option<u8> {
    if name == "displayWindow"@ {
        Some(0u8)
    } else if name == "dataWindow"@ {
        Some(0u8)
    } else if name == "pixelAspectRatio"@ {
        Some(4u8)
    } else if name == "screenWindowCenter"@ {
        Some(2u8)
    } else if name == "screenWindowWidth"@ {
        Some(4u8)
    } else if name == "channels"@ {
        Some(10u8)
    } else if name == "lineOrder"@ {
        Some(6u8)
    } else if name == "compression"@ {
        Some(7u8)
    } else {
        None
    }
}

/// The entry named `name` exists and holds a value of the given kind.
pub open spec fn has_kind(s: Entries, name: Seq<char>, kind: u8) -> bool {
    lookup(s, name) matches Some(v) && v.spec_kind() == kind
}

/// The entries form a header: names are valid and unique, and every
/// mandatory attribute is present with its type.
pub open spec fn is_header(s: Entries) -> bool {
    &&& names_unique(s)
    &&& names_valid(s)
    &&& forall|n: Seq<char>| #[trigger] required_kind(n) is Some ==> has_kind(s, n, required_kind(n).unwrap())
}

pub open spec fn spec_display_window(s: Entries) -> Box2i {
    match lookup(s, "displayWindow"@) {
        Some(AttributeValue::Box2i(b)) => b,
        _ => arbitrary(),
    }
}

pub open spec fn spec_data_window(s: Entries) -> Box2i {
    match lookup(s, "dataWindow"@) {
        Some(AttributeValue::Box2i(b)) => b,
        _ => arbitrary(),
    }
}

pub open spec fn spec_pixel_aspect_ratio(s: Entries) -> Float32Bits {
    match lookup(s, "pixelAspectRatio"@) {
        Some(AttributeValue::Float(f)) => f,
        _ => arbitrary(),
    }
}

pub open spec fn spec_screen_window_center(s: Entries) -> V2f {
    match lookup(s, "screenWindowCenter"@) {
        Some(AttributeValue::V2f(v)) => v,
        _ => arbitrary(),
    }
}

pub open spec fn spec_screen_window_width(s: Entries) -> Float32Bits {
    match lookup(s, "screenWindowWidth"@) {
        Some(AttributeValue::Float(f)) => f,
        _ => arbitrary(),
    }
}

pub open spec fn spec_channels(s: Entries) -> ChannelList {
    match lookup(s, "channels"@) {
        Some(AttributeValue::Channels(c)) => c,
        _ => arbitrary(),
    }
}

pub open spec fn spec_line_order(s: Entries) -> LineOrder {
    match lookup(s, "lineOrder"@) {
        Some(AttributeValue::LineOrder(l)) => l,
        _ => arbitrary(),
    }
}

pub open spec fn spec_compression(s: Entries) -> Compression {
    match lookup(s, "compression"@) {
        Some(AttributeValue::Compression(c)) => c,
        _ => arbitrary(),
    }
}

/// The text stored under `name`, if it is present as text.
pub open spec fn spec_text(s: Entries, name: Seq<char>) -> Option<Seq<char>> {
    match lookup(s, name) {
        Some(AttributeValue::Text(t)) => Some(t@),
        _ => None,
    }
}

/// The integer stored under `name`, if it is present as an integer.
pub open spec fn spec_int(s: Entries, name: Seq<char>) -> Option<i32> {
    match lookup(s, name) {
        Some(AttributeValue::Int(v)) => Some(v),
        _ => None,
    }
}

/// The tile description, if it is present as one.
pub open spec fn spec_tile_description(s: Entries) -> Option<TileDescription> {
    match lookup(s, "tiles"@) {
        Some(AttributeValue::TileDescription(t)) => Some(t),
        _ => None,
    }
}

/// The preview image, if it is present as one.
pub open spec fn spec_preview_image(s: Entries) -> Option<PreviewImage> {
    match lookup(s, "preview"@) {
        Some(AttributeValue::Preview(p)) => Some(p),
        _ => None,
    }
}

/// The entries with the value under `name` (which they hold) replaced.
pub open spec fn spec_set(s: Entries, name: Seq<char>, value: AttributeValue) -> Entries {
    s.update(index_of(s, name), (name, value))
}

/// The mandatory names are distinct, and `required_kind` gives each its kind.
pub proof fn lemma_required_kinds()
    ensures
        required_kind("displayWindow"@) == Some(0u8),
        required_kind("dataWindow"@) == Some(0u8),
        required_kind("pixelAspectRatio"@) == Some(4u8),
        required_kind("screenWindowCenter"@) == Some(2u8),
        required_kind("screenWindowWidth"@) == Some(4u8),
        required_kind("channels"@) == Some(10u8),
        required_kind("lineOrder"@) == Some(6u8),
        required_kind("compression"@) == Some(7u8),
{
    reveal_strlit("displayWindow");
    reveal_strlit("dataWindow");
    reveal_strlit("pixelAspectRatio");
    reveal_strlit("screenWindowCenter");
    reveal_strlit("screenWindowWidth");
    reveal_strlit("lineOrder");
    reveal_strlit("compression");
    reveal_strlit("channels");
    assert("displayWindow"@[0] == 'd' && "displayWindow"@[1] == 'i');
    assert("dataWindow"@[0] == 'd' && "dataWindow"@[1] == 'a');
    assert("pixelAspectRatio"@[0] == 'p');
    assert("screenWindowCenter"@[0] == 's' && "screenWindowCenter"@[12] == 'C');
    assert("screenWindowWidth"@[0] == 's' && "screenWindowWidth"@[12] == 'W');
    assert("channels"@[0] == 'c' && "channels"@[1] == 'h');
    assert("lineOrder"@[0] == 'l');
    assert("compression"@[0] == 'c' && "compression"@[1] == 'o');
}

/// Every name other than `name` holds in `t` what it holds in `s`.
pub open spec fn same_elsewhere(s: Entries, t: Entries, name: Seq<char>) -> bool {
    forall|m: Seq<char>| m != name ==> #[trigger] lookup(t, m) == lookup(s, m)
}

/// The names of the entries, in order.
pub open spec fn names_of(s: Entries) -> Seq<Seq<char>> {
    s.map_values(|e: (Seq<char>, AttributeValue)| e.0)
}

/// The mandatory names, in the order in which a new header holds them.
pub open spec fn standard_names() -> Seq<Seq<char>> {
    seq![
        "displayWindow"@,
        "dataWindow"@,
        "pixelAspectRatio"@,
        "screenWindowCenter"@,
        "screenWindowWidth"@,
        "lineOrder"@,
        "compression"@,
        "channels"@,
    ]
}

/// The default settings: aspect ratio 1, screen window centered at the
/// origin with width 1, increasing line order, ZIP compression.
pub open spec fn has_default_settings(s: Entries) -> bool {
    &&& spec_pixel_aspect_ratio(s).bits == ONE_BITS
    &&& spec_screen_window_center(s).x.bits == 0
    &&& spec_screen_window_center(s).y.bits == 0
    &&& spec_screen_window_width(s).bits == ONE_BITS
    &&& spec_line_order(s) == LineOrder::IncreasingY
    &&& spec_compression(s) == Compression::Zip
}

/// The entries hold the default settings, whatever the windows, no
/// channels, and nothing else.
pub open spec fn is_default_except_windows(s: Entries) -> bool {
    &&& names_of(s) == standard_names()
    &&& has_default_settings(s)
    &&& spec_channels(s)@.len() == 0
}

/// Setting the dimensions to a positive `width` by `height` makes both
/// windows span `(0, 0)` to `(width - 1, height - 1)`.
pub proof fn lemma_dimension_derivation(s: Entries, width: i32, height: i32)
    requires
        is_header(s),
        width > 0,
        height > 0,
    ensures
        ({
            let b = AttributeValue::Box2i(spec_dimension_box(width, height));
            let t = spec_set(spec_set(s, "dataWindow"@, b), "displayWindow"@, b);
            &&& is_header(t)
            &&& spec_data_window(t).min.x == 0 && spec_data_window(t).min.y == 0
            &&& spec_data_window(t).max.x == width - 1 && spec_data_window(t).max.y == height - 1
            &&& spec_display_window(t).min.x == 0 && spec_display_window(t).min.y == 0
            &&& spec_display_window(t).max.x == width - 1 && spec_display_window(t).max.y == height - 1
            &&& spec_data_window(t).spec_width() == width && spec_data_window(t).spec_height() == height
        }),
{
    lemma_required_kinds();
    let b = AttributeValue::Box2i(spec_dimension_box(width, height));
    let t1 = spec_set(s, "dataWindow"@, b);
    lemma_set_same_type(s, "dataWindow"@, b);
    lemma_set_same_type(t1, "displayWindow"@, b);
}

/// Validation depends on the attributes alone: two headers with the same
/// attributes get the same verdict under the same limits and flags.
pub proof fn lemma_validation_deterministic(
    a: Header,
    b: Header,
    limits: Limits,
    is_tiled: bool,
    is_multi_part: bool,
)
    requires
        a.entries() == b.entries(),
    ensures
        first_violation(a.entries(), limits, is_tiled, is_multi_part) == first_violation(
            b.entries(),
            limits,
            is_tiled,
            is_multi_part,
        ),
{
}

/// The default settings pass validation of a scanline single-part image
/// whose 64 by 64 windows fit the limits, once the channel list is valid;
/// with no channels, as in the default header itself, the only complaint is
/// the empty channel list.
pub proof fn lemma_default_header_valid(s: Entries, limits: Limits)
    requires
        has_default_settings(s),
        spec_display_window(s) == spec_dimension_box(64, 64),
        spec_data_window(s) == spec_dimension_box(64, 64),
        limits.max_image_width <= 0 || limits.max_image_width >= 64,
        limits.max_image_height <= 0 || limits.max_image_height >= 64,
    ensures
        channels_violation(spec_channels(s)@) is None ==> first_violation(s, limits, false, false) is None,
        spec_channels(s)@.len() == 0 ==> first_violation(s, limits, false, false) == Some(Violation::NoChannels),
{
}

/// The optional standard names are valid and not mandatory.
proof fn lemma_optional_names()
    ensures
        spec_is_valid_name("name"@) && required_kind("name"@) is None,
        spec_is_valid_name("type"@) && required_kind("type"@) is None,
        spec_is_valid_name("view"@) && required_kind("view"@) is None,
{
    reveal_strlit("name");
    reveal_strlit("type");
    reveal_strlit("view");
    lemma_required_kinds();
    assert("name"@ =~= seq!['n', 'a', 'm', 'e']);
    assert("type"@ =~= seq!['t', 'y', 'p', 'e']);
    assert("view"@ =~= seq!['v', 'i', 'e', 'w']);
    reveal_strlit("displayWindow");
    reveal_strlit("dataWindow");
    reveal_strlit("pixelAspectRatio");
    reveal_strlit("screenWindowCenter");
    reveal_strlit("screenWindowWidth");
    reveal_strlit("lineOrder");
    reveal_strlit("compression");
    reveal_strlit("channels");
}

/// The names of the image kinds hold no NUL character.
proof fn lemma_image_type_names_have_no_nul(s: Seq<char>)
    requires
        spec_image_type_named(s) is Some,
    ensures
        spec_has_no_nul(s),
{
}

/// Every mandatory attribute is present with its type, name by name.
pub open spec fn mandatory_present(s: Entries) -> bool {
    &&& has_kind(s, "displayWindow"@, 0)
    &&& has_kind(s, "dataWindow"@, 0)
    &&& has_kind(s, "pixelAspectRatio"@, 4)
    &&& has_kind(s, "screenWindowCenter"@, 2)
    &&& has_kind(s, "screenWindowWidth"@, 4)
    &&& has_kind(s, "channels"@, 10)
    &&& has_kind(s, "lineOrder"@, 6)
    &&& has_kind(s, "compression"@, 7)
}

proof fn lemma_mandatory_present(s: Entries)
    ensures
        mandatory_present(s) <==> forall|n: Seq<char>| #[trigger] required_kind(n) is Some ==> has_kind(
            s,
            n,
            required_kind(n).unwrap(),
        ),
{
    lemma_required_kinds();
}

/// What rebuilding a header from a list of attributes gives: the list itself
/// when it forms a header, else the error that says why not.
pub open spec fn spec_from_attributes(s: Entries) -> Result<Entries, Error> {
    match spec_from_entries(s) {
        Err(e) => Err(e),
        Ok(t) => if is_header(t) {
            Ok(t)
        } else {
            Err(Error::InvalidArgument)
        },
    }
}

/// Taking a header's attributes out as a list and rebuilding a header from
/// that list gives back the same attributes, in the same order.
pub proof fn lemma_attributes_round_trip(h: Header)
    requires
        h.wf(),
    ensures
        spec_from_attributes(h.entries()) == Ok::<Entries, Error>(h.entries()),
{
}

/// Whether the attribute of a mandatory name has its type.
fn has_required_kind(reg: &AttributeRegistry, name: &str, kind: u8) -> (r: bool)
    requires
        reg.wf(),
    ensures
        r == has_kind(reg@, name@, kind),
{
    match reg.find(name) {
        Some(v) => v.kind() == kind,
        None => false,
    }
}

/// Whether the name is that of a mandatory attribute.
pub fn is_mandatory_name(name: &str) -> (r: bool)
    ensures
        r == required_kind(name@) is Some,
{
    str_equal(name, "displayWindow") || str_equal(name, "dataWindow") || str_equal(name, "pixelAspectRatio")
        || str_equal(name, "screenWindowCenter") || str_equal(name, "screenWindowWidth") || str_equal(
        name,
        "channels",
    ) || str_equal(name, "lineOrder") || str_equal(name, "compression")
}

/// The box `[(0, 0), (width - 1, height - 1)]`.
pub open spec fn spec_dimension_box(width: i32, height: i32) -> Box2i {
    Box2i { min: V2i { x: 0, y: 0 }, max: V2i { x: (width - 1) as i32, y: (height - 1) as i32 } }
}

proof fn lemma_lookup_push(s: Entries, e: (Seq<char>, AttributeValue), n: Seq<char>)
    requires
        names_unique(s.push(e)),
        has_name(s, n),
    ensures
        lookup(s.push(e), n) == lookup(s, n),
{
    let k = index_of(s, n);
    lemma_index_of_unique(s.push(e), n, k);
}

proof fn lemma_lookup_update(s: Entries, i: int, e: (Seq<char>, AttributeValue), n: Seq<char>)
    requires
        names_unique(s),
        0 <= i < s.len(),
        s[i].0 == e.0,
        has_name(s, n),
    ensures
        names_unique(s.update(i, e)),
        lookup(s.update(i, e), n) == if n == e.0 {
            Some(e.1)
        } else {
            lookup(s, n)
        },
{
    let t = s.update(i, e);
    let k = index_of(s, n);
    lemma_index_of_unique(t, n, k);
}

proof fn lemma_lookup_remove(s: Entries, i: int, n: Seq<char>)
    requires
        names_unique(s),
        0 <= i < s.len(),
        s[i].0 != n,
        has_name(s, n),
    ensures
        names_unique(s.remove(i)),
        lookup(s.remove(i), n) == lookup(s, n),
{
    let t = s.remove(i);
    let k = index_of(s, n);
    let kk = if k < i { k } else { k - 1 };
    assert(t[kk] == s[k]);
    lemma_index_of_unique(t, n, kk);
}

/// After a successful insertion the name holds the new value and every other
/// name holds what it held before.
pub proof fn lemma_insert_lookup(s: Entries, name: Seq<char>, value: AttributeValue)
    requires
        names_unique(s),
        spec_insert(s, name, value) is Ok,
    ensures
        spec_insert(s, name, value) matches Ok(t) && names_unique(t) && lookup(t, name) == Some(value) && forall|m: Seq<char>|
            m != name ==> #[trigger] lookup(t, m) == lookup(s, m),
{
    let t = spec_insert(s, name, value)->Ok_0;
    if has_name(s, name) {
        let i = index_of(s, name);
        lemma_lookup_update(s, i, (name, value), name);
        assert forall|m: Seq<char>| m != name implies #[trigger] lookup(t, m) == lookup(s, m) by {
            if has_name(s, m) {
                lemma_lookup_update(s, i, (name, value), m);
            } else if has_name(t, m) {
                let k = choose|k: int| 0 <= k < t.len() && t[k].0 == m;
                assert(s[k].0 == m);
            }
        }
    } else {
        assert forall|a: int, b: int| 0 <= a < t.len() && 0 <= b < t.len() && a != b implies t[a].0 != t[b].0 by {
            if a == s.len() as int {
                assert(s[b].0 != name);
            } else if b == s.len() as int {
                assert(s[a].0 != name);
            }
        }
        lemma_index_of_unique(t, name, s.len() as int);
        assert forall|m: Seq<char>| m != name implies #[trigger] lookup(t, m) == lookup(s, m) by {
            if has_name(s, m) {
                lemma_lookup_push(s, (name, value), m);
            } else if has_name(t, m) {
                let k = choose|k: int| 0 <= k < t.len() && t[k].0 == m;
                assert(s[k].0 == m);
            }
        }
    }
}

/// What an insertion does: `t` and `r` are the entries and the result after
/// inserting `value` under `name` into `s`.
pub open spec fn insert_outcome(
    s: Entries,
    t: Entries,
    r: Result<(), Error>,
    name: Seq<char>,
    value: AttributeValue,
) -> bool {
    match spec_insert(s, name, value) {
        Ok(u) => r is Ok && t == u,
        Err(e) => r == Err::<(), Error>(e) && t == s,
    }
}

/// Replacing a value by one of the same type keeps a header's entries a
/// header, and changes nothing else.
pub proof fn lemma_set_same_type(s: Entries, name: Seq<char>, value: AttributeValue)
    requires
        is_header(s),
        lookup(s, name) matches Some(w) && w.spec_same_type(value),
    ensures
        is_header(spec_set(s, name, value)),
        lookup(spec_set(s, name, value), name) == Some(value),
        same_elsewhere(s, spec_set(s, name, value), name),
        spec_set(s, name, value).len() == s.len(),
        names_of(spec_set(s, name, value)) == names_of(s),
{
    let i = index_of(s, name);
    assert(names_of(spec_set(s, name, value)) =~= names_of(s));
    assert(names_valid(s) && spec_is_valid_name(s[i].0));
    lemma_insert_keeps_header(s, name, value);
    lemma_insert_lookup(s, name, value);
}

/// Inserting a name a second time with a value of the same type replaces the
/// value in place: the entries keep their number and the name stays unique.
/// With a value of another type the second insertion fails with
/// `TypeMismatch`, and the first value stays.
pub proof fn lemma_insert_twice(s: Entries, name: Seq<char>, first: AttributeValue, second: AttributeValue)
    requires
        names_unique(s),
        spec_insert(s, name, first) is Ok,
    ensures
        ({
            let t = spec_insert(s, name, first)->Ok_0;
            &&& first.spec_same_type(second) ==> (spec_insert(t, name, second) matches Ok(u) && u.len() == t.len()
                && names_unique(u) && lookup(u, name) == Some(second))
            &&& !first.spec_same_type(second) ==> spec_insert(t, name, second) == Err::<Entries, Error>(
                Error::TypeMismatch,
            ) && lookup(t, name) == Some(first)
        }),
{
    let t = spec_insert(s, name, first)->Ok_0;
    lemma_insert_lookup(s, name, first);
    if first.spec_same_type(second) {
        lemma_insert_lookup(t, name, second);
    }
}

/// Inserting into a header's entries keeps them a header.
proof fn lemma_insert_keeps_header(s: Entries, name: Seq<char>, value: AttributeValue)
    requires
        is_header(s),
    ensures
        spec_insert(s, name, value) matches Ok(t) ==> is_header(t),
{
    if let Ok(t) = spec_insert(s, name, value) {
        if has_name(s, name) {
            let i = index_of(s, name);
            assert forall|n: Seq<char>| #[trigger] required_kind(n) is Some implies has_kind(t, n, required_kind(n).unwrap()) by {
                lemma_lookup_update(s, i, (name, value), n);
            }
            assert forall|j: int| 0 <= j < t.len() implies spec_is_valid_name(#[trigger] t[j].0) by {
                assert(s[j].0 == t[j].0);
            }
        } else {
            assert forall|a: int, b: int| 0 <= a < t.len() && 0 <= b < t.len() && a != b implies t[a].0 != t[b].0 by {
                if a == s.len() as int {
                    assert(s[b].0 != name);
                } else if b == s.len() as int {
                    assert(s[a].0 != name);
                }
            }
            assert forall|n: Seq<char>| #[trigger] required_kind(n) is Some implies has_kind(t, n, required_kind(n).unwrap()) by {
                lemma_lookup_push(s, (name, value), n);
            }
            assert forall|j: int| 0 <= j < t.len() implies spec_is_valid_name(#[trigger] t[j].0) by {
                if j < s.len() {
                    assert(s[j].0 == t[j].0);
                }
            }
        }
    }
}

/// Removing a name that is not mandatory keeps a header's entries a header.
proof fn lemma_erase_keeps_header(s: Entries, name: Seq<char>)
    requires
        is_header(s),
        required_kind(name) is None,
    ensures
        is_header(spec_erase(s, name)),
{
    if has_name(s, name) {
        let i = index_of(s, name);
        let t = s.remove(i);
        assert forall|n: Seq<char>| #[trigger] required_kind(n) is Some implies has_kind(t, n, required_kind(n).unwrap()) by {
            lemma_lookup_remove(s, i, n);
        }
        assert forall|j: int| 0 <= j < t.len() implies spec_is_valid_name(#[trigger] t[j].0) by {
            if j < i {
                assert(s[j].0 == t[j].0);
            } else {
                assert(s[j + 1].0 == t[j].0);
            }
        }
    }
}

/// The header of one image part: an ordered registry of named, typed
/// attributes that always holds the mandatory ones.
#[derive(Clone, Debug)]
pub struct Header {
    attributes: AttributeRegistry,
    reads_nothing: bool,
}

impl Header {
    /// The attributes in insertion order.
    pub closed spec fn entries(&self) -> Entries {
        self.attributes@
    }

    pub open spec fn wf(&self) -> bool {
        is_header(self.entries())
    }

    /// A header with the given geometry, line order and compression, and an
    /// empty channel list.
    pub fn new(
        data_window: Box2i,
        display_window: Box2i,
        pixel_aspect_ratio: Float32Bits,
        screen_window_center: V2f,
        screen_window_width: Float32Bits,
        line_order: LineOrder,
        compression: Compression,
    ) -> (r: Result<Header, Error>)
        ensures
            r matches Ok(h) && h.wf() && names_of(h.entries()) == standard_names() && spec_display_window(h.entries()) == display_window
                && spec_data_window(h.entries()) == data_window && spec_pixel_aspect_ratio(h.entries())
                == pixel_aspect_ratio && spec_screen_window_center(h.entries()) == screen_window_center
                && spec_screen_window_width(h.entries()) == screen_window_width && spec_line_order(h.entries())
                == line_order && spec_compression(h.entries()) == compression && spec_channels(h.entries())@.len() == 0,
    {
        proof {
            reveal_strlit("displayWindow");
            reveal_strlit("dataWindow");
            reveal_strlit("pixelAspectRatio");
            reveal_strlit("screenWindowCenter");
            reveal_strlit("screenWindowWidth");
            reveal_strlit("lineOrder");
            reveal_strlit("compression");
            reveal_strlit("channels");
        }
        let mut reg = AttributeRegistry::new();
        let ghost s0 = reg@;
        let _ = reg.insert("displayWindow", AttributeValue::Box2i(display_window));
        let ghost s1 = reg@;
        assert(!has_name(s0, "dataWindow"@));
        let _ = reg.insert("dataWindow", AttributeValue::Box2i(data_window));
        let ghost s2 = reg@;
        assert(!has_name(s1, "pixelAspectRatio"@));
        let _ = reg.insert("pixelAspectRatio", AttributeValue::Float(pixel_aspect_ratio));
        let ghost s3 = reg@;
        assert(!has_name(s2, "screenWindowCenter"@));
        let _ = reg.insert("screenWindowCenter", AttributeValue::V2f(screen_window_center));
        let ghost s4 = reg@;
        assert(!has_name(s3, "screenWindowWidth"@));
        let _ = reg.insert("screenWindowWidth", AttributeValue::Float(screen_window_width));
        let ghost s5 = reg@;
        assert(!has_name(s4, "lineOrder"@));
        let _ = reg.insert("lineOrder", AttributeValue::LineOrder(line_order));
        let ghost s6 = reg@;
        assert(!has_name(s5, "compression"@));
        let _ = reg.insert("compression", AttributeValue::Compression(compression));
        let ghost s7 = reg@;
        assert(!has_name(s6, "channels"@));
        let _ = reg.insert("channels", AttributeValue::Channels(ChannelList::new()));
        let ghost s = reg@;
        proof {
            assert(s.len() == 8);
            lemma_index_of_unique(s, "displayWindow"@, 0);
            lemma_index_of_unique(s, "dataWindow"@, 1);
            lemma_index_of_unique(s, "pixelAspectRatio"@, 2);
            lemma_index_of_unique(s, "screenWindowCenter"@, 3);
            lemma_index_of_unique(s, "screenWindowWidth"@, 4);
            lemma_index_of_unique(s, "lineOrder"@, 5);
            lemma_index_of_unique(s, "compression"@, 6);
            lemma_index_of_unique(s, "channels"@, 7);
            assert(names_of(s) =~= standard_names());
        }
        Ok(Header { attributes: reg, reads_nothing: false })
    }

    /// The value stored under a name that the header holds.
    fn value_of(&self, name: &str) -> (r: &AttributeValue)
        requires
            self.wf(),
            has_name(self.entries(), name@),
        ensures
            lookup(self.entries(), name@) == Some(*r),
    {
        match self.attributes.find(name) {
            Some(v) => v,
            None => vstd::pervasive::unreached(),
        }
    }

    /// The display window: the extent of the displayable image.
    pub fn display_window(&self) -> (r: &Box2i)
        requires
            self.wf(),
        ensures
            *r == spec_display_window(self.entries()),
    {
        proof { lemma_required_kinds(); }
        match self.value_of("displayWindow") {
            AttributeValue::Box2i(b) => b,
            _ => vstd::pervasive::unreached(),
        }
    }

    /// The display window, for mutation in place (no validation).
    pub fn display_window_mut(&mut self) -> (r: &mut Box2i)
        requires
            old(self).wf(),
        ensures
            *r == spec_display_window(old(self).entries()),
            final(self).entries() == spec_set(old(self).entries(), "displayWindow"@, AttributeValue::Box2i(*final(r))),
            final(self).wf(),
    {
        proof {
            lemma_required_kinds();
            assert forall|x: Box2i| #[trigger] is_header(spec_set(self.entries(), "displayWindow"@, AttributeValue::Box2i(x))) by {
                lemma_set_same_type(self.entries(), "displayWindow"@, AttributeValue::Box2i(x));
            }
        }
        let i = match self.attributes.find_index("displayWindow") {
            Some(i) => i,
            None => vstd::pervasive::unreached(),
        };
        match self.attributes.value_mut(i) {
            AttributeValue::Box2i(b) => b,
            _ => vstd::pervasive::unreached(),
        }
    }

    /// Builds a header of `width` by `height` pixels: both windows are
    /// `[(0, 0), (width - 1, height - 1)]`.
    pub fn with_dimensions(
        width: i32,
        height: i32,
        pixel_aspect_ratio: Float32Bits,
        screen_window_center: V2f,
        screen_window_width: Float32Bits,
        line_order: LineOrder,
        compression: Compression,
    ) -> (r: Result<Header, Error>)
        requires
            width > i32::MIN,
            height > i32::MIN,
        ensures
            r matches Ok(h) && h.wf() && names_of(h.entries()) == standard_names() && spec_display_window(h.entries()) == spec_dimension_box(
                width,
                height,
            ) && spec_data_window(h.entries()) == spec_dimension_box(width, height) && spec_pixel_aspect_ratio(h.entries())
                == pixel_aspect_ratio && spec_screen_window_center(h.entries()) == screen_window_center
                && spec_screen_window_width(h.entries()) == screen_window_width && spec_line_order(h.entries())
                == line_order && spec_compression(h.entries()) == compression && spec_channels(h.entries())@.len() == 0,
    {
        let b = Box2i::new(0, 0, width - 1, height - 1);
        Header::new(b, b, pixel_aspect_ratio, screen_window_center, screen_window_width, line_order, compression)
    }

    /// The default header with its dimensions replaced by `width` by `height`.
    pub fn from_dimensions(width: i32, height: i32) -> (r: Header)
        requires
            width > i32::MIN,
            height > i32::MIN,
        ensures
            r.wf(),
            is_default_except_windows(r.entries()),
            spec_display_window(r.entries()) == spec_dimension_box(width, height),
            spec_data_window(r.entries()) == spec_dimension_box(width, height),
    {
        let mut header = Header::default();
        let ghost h0 = header;
        header.set_dimensions(width, height);
        proof {
            lemma_required_kinds();
            let ghost t = header.entries();
            assert(lookup(t, "pixelAspectRatio"@) == lookup(h0.entries(), "pixelAspectRatio"@));
            assert(lookup(t, "screenWindowCenter"@) == lookup(h0.entries(), "screenWindowCenter"@));
            assert(lookup(t, "screenWindowWidth"@) == lookup(h0.entries(), "screenWindowWidth"@));
            assert(lookup(t, "lineOrder"@) == lookup(h0.entries(), "lineOrder"@));
            assert(lookup(t, "compression"@) == lookup(h0.entries(), "compression"@));
            assert(lookup(t, "channels"@) == lookup(h0.entries(), "channels"@));
        }
        header
    }

    /// Whether the header was marked as one from which no pixels are read.
    pub fn reads_nothing(&self) -> (r: bool)
        ensures
            r == self.spec_reads_nothing(),
    {
        self.reads_nothing
    }

    pub closed spec fn spec_reads_nothing(&self) -> bool {
        self.reads_nothing
    }

    /// The data window: the region for which pixel data exist.
    pub fn data_window(&self) -> (r: &Box2i)
        requires
            self.wf(),
        ensures
            *r == spec_data_window(self.entries()),
    {
        proof { lemma_required_kinds(); }
        match self.value_of("dataWindow") {
            AttributeValue::Box2i(b) => b,
            _ => vstd::pervasive::unreached(),
        }
    }

    /// The data window, for mutation in place (no validation).
    pub fn data_window_mut(&mut self) -> (r: &mut Box2i)
        requires
            old(self).wf(),
        ensures
            *r == spec_data_window(old(self).entries()),
            final(self).entries() == spec_set(old(self).entries(), "dataWindow"@, AttributeValue::Box2i(*final(r))),
            final(self).wf(),
    {
        proof {
            lemma_required_kinds();
            assert forall|x: Box2i| #[trigger] is_header(spec_set(self.entries(), "dataWindow"@, AttributeValue::Box2i(x))) by {
                lemma_set_same_type(self.entries(), "dataWindow"@, AttributeValue::Box2i(x));
            }
        }
        let i = match self.attributes.find_index("dataWindow") {
            Some(i) => i,
            None => vstd::pervasive::unreached(),
        };
        match self.attributes.value_mut(i) {
            AttributeValue::Box2i(b) => b,
            _ => vstd::pervasive::unreached(),
        }
    }

    /// Replaces the value of a mandatory attribute by one of its kind.
    fn set_standard(&mut self, name: &str, value: AttributeValue)
        requires
            old(self).wf(),
            required_kind(name@) == Some(value.spec_kind()),
            value.spec_kind() != 11,
        ensures
            final(self).wf(),
            final(self).entries() == spec_set(old(self).entries(), name@, value),
            lookup(final(self).entries(), name@) == Some(value),
            final(self).entries().len() == old(self).entries().len(),
            names_of(final(self).entries()) == names_of(old(self).entries()),
            same_elsewhere(old(self).entries(), final(self).entries(), name@),
    {
        proof {
            assert(required_kind(name@) is Some);
            lemma_insert_keeps_header(self.entries(), name@, value);
            lemma_insert_lookup(self.entries(), name@, value);
            lemma_set_same_type(self.entries(), name@, value);
        }
        let _ = self.attributes.insert(name, value);
    }

    /// Sets both windows to `[(0, 0), (width - 1, height - 1)]`. Positive
    /// sizes are expected; others give empty windows, which `sanity_check`
    /// rejects.
    pub fn set_dimensions(&mut self, width: i32, height: i32)
        requires
            old(self).wf(),
            width > i32::MIN,
            height > i32::MIN,
        ensures
            final(self).wf(),
            final(self).entries() == spec_set(
                spec_set(old(self).entries(), "dataWindow"@, AttributeValue::Box2i(spec_dimension_box(width, height))),
                "displayWindow"@,
                AttributeValue::Box2i(spec_dimension_box(width, height)),
            ),
            spec_data_window(final(self).entries()) == spec_dimension_box(width, height),
            spec_display_window(final(self).entries()) == spec_dimension_box(width, height),
            final(self).entries().len() == old(self).entries().len(),
            names_of(final(self).entries()) == names_of(old(self).entries()),
            forall|m: Seq<char>|
                m != "dataWindow"@ && m != "displayWindow"@ ==> #[trigger] lookup(final(self).entries(), m) == lookup(
                    old(self).entries(),
                    m,
                ),
    {
        proof { lemma_required_kinds(); }
        let b = Box2i::new(0, 0, width - 1, height - 1);
        let ghost s0 = self.entries();
        self.set_standard("dataWindow", AttributeValue::Box2i(b));
        let ghost s1 = self.entries();
        self.set_standard("displayWindow", AttributeValue::Box2i(b));
    }

    /// The ratio of a pixel's width to its height.
    pub fn pixel_aspect_ratio(&self) -> (r: Float32Bits)
        requires
            self.wf(),
        ensures
            r == spec_pixel_aspect_ratio(self.entries()),
    {
        proof { lemma_required_kinds(); }
        match self.value_of("pixelAspectRatio") {
            AttributeValue::Float(f) => *f,
            _ => vstd::pervasive::unreached(),
        }
    }

    pub fn set_pixel_aspect_ratio(&mut self, par: Float32Bits)
        requires
            old(self).wf(),
        ensures
            final(self).wf(),
            final(self).entries() == spec_set(old(self).entries(), "pixelAspectRatio"@, AttributeValue::Float(par)),
    {
        proof { lemma_required_kinds(); }
        self.set_standard("pixelAspectRatio", AttributeValue::Float(par));
    }

    /// The center of the screen window.
    pub fn screen_window_center(&self) -> (r: &V2f)
        requires
            self.wf(),
        ensures
            *r == spec_screen_window_center(self.entries()),
    {
        proof { lemma_required_kinds(); }
        match self.value_of("screenWindowCenter") {
            AttributeValue::V2f(v) => v,
            _ => vstd::pervasive::unreached(),
        }
    }

    /// The center of the screen window, for mutation in place.
    #[verifier::spinoff_prover]
    pub fn screen_window_center_mut(&mut self) -> (r: &mut V2f)
        requires
            old(self).wf(),
        ensures
            *r == spec_screen_window_center(old(self).entries()),
            final(self).entries() == spec_set(old(self).entries(), "screenWindowCenter"@, AttributeValue::V2f(*final(r))),
            final(self).wf(),
    {
        proof {
            lemma_required_kinds();
            assert forall|x: V2f| #[trigger] is_header(spec_set(self.entries(), "screenWindowCenter"@, AttributeValue::V2f(x))) by {
                lemma_set_same_type(self.entries(), "screenWindowCenter"@, AttributeValue::V2f(x));
            }
        }
        let i = match self.attributes.find_index("screenWindowCenter") {
            Some(i) => i,
            None => vstd::pervasive::unreached(),
        };
        match self.attributes.value_mut(i) {
            AttributeValue::V2f(v) => v,
            _ => vstd::pervasive::unreached(),
        }
    }

    /// The width of the screen window.
    pub fn screen_window_width(&self) -> (r: &Float32Bits)
        requires
            self.wf(),
        ensures
            *r == spec_screen_window_width(self.entries()),
    {
        proof { lemma_required_kinds(); }
        match self.value_of("screenWindowWidth") {
            AttributeValue::Float(f) => f,
            _ => vstd::pervasive::unreached(),
        }
    }

    /// The width of the screen window, for mutation in place.
    pub fn screen_window_width_mut(&mut self) -> (r: &mut Float32Bits)
        requires
            old(self).wf(),
        ensures
            *r == spec_screen_window_width(old(self).entries()),
            final(self).entries() == spec_set(old(self).entries(), "screenWindowWidth"@, AttributeValue::Float(*final(r))),
            final(self).wf(),
    {
        proof {
            lemma_required_kinds();
            assert forall|x: Float32Bits| #[trigger] is_header(spec_set(self.entries(), "screenWindowWidth"@, AttributeValue::Float(x))) by {
                lemma_set_same_type(self.entries(), "screenWindowWidth"@, AttributeValue::Float(x));
            }
        }
        let i = match self.attributes.find_index("screenWindowWidth") {
            Some(i) => i,
            None => vstd::pervasive::unreached(),
        };
        match self.attributes.value_mut(i) {
            AttributeValue::Float(f) => f,
            _ => vstd::pervasive::unreached(),
        }
    }

    /// The channel list.
    pub fn channels(&self) -> (r: &ChannelList)
        requires
            self.wf(),
        ensures
            *r == spec_channels(self.entries()),
    {
        proof { lemma_required_kinds(); }
        match self.value_of("channels") {
            AttributeValue::Channels(c) => c,
            _ => vstd::pervasive::unreached(),
        }
    }

    /// The channel list, for mutation in place.
    pub fn channels_mut(&mut self) -> (r: &mut ChannelList)
        requires
            old(self).wf(),
        ensures
            *r == spec_channels(old(self).entries()),
            final(self).entries() == spec_set(old(self).entries(), "channels"@, AttributeValue::Channels(*final(r))),
            final(self).wf(),
    {
        proof {
            lemma_required_kinds();
            assert forall|x: ChannelList| #[trigger] is_header(spec_set(self.entries(), "channels"@, AttributeValue::Channels(x))) by {
                lemma_set_same_type(self.entries(), "channels"@, AttributeValue::Channels(x));
            }
        }
        let i = match self.attributes.find_index("channels") {
            Some(i) => i,
            None => vstd::pervasive::unreached(),
        };
        match self.attributes.value_mut(i) {
            AttributeValue::Channels(c) => c,
            _ => vstd::pervasive::unreached(),
        }
    }

    /// The order in which scanlines are stored.
    pub fn line_order(&self) -> (r: LineOrder)
        requires
            self.wf(),
        ensures
            r == spec_line_order(self.entries()),
    {
        proof { lemma_required_kinds(); }
        match self.value_of("lineOrder") {
            AttributeValue::LineOrder(l) => *l,
            _ => vstd::pervasive::unreached(),
        }
    }

    pub fn set_line_order(&mut self, lo: LineOrder)
        requires
            old(self).wf(),
        ensures
            final(self).wf(),
            final(self).entries() == spec_set(old(self).entries(), "lineOrder"@, AttributeValue::LineOrder(lo)),
    {
        proof { lemma_required_kinds(); }
        self.set_standard("lineOrder", AttributeValue::LineOrder(lo));
    }

    /// The compression scheme of the pixel data.
    pub fn compression(&self) -> (r: Compression)
        requires
            self.wf(),
        ensures
            r == spec_compression(self.entries()),
    {
        proof { lemma_required_kinds(); }
        match self.value_of("compression") {
            AttributeValue::Compression(c) => *c,
            _ => vstd::pervasive::unreached(),
        }
    }

    pub fn set_compression(&mut self, cmp: Compression)
        requires
            old(self).wf(),
        ensures
            final(self).wf(),
            final(self).entries() == spec_set(old(self).entries(), "compression"@, AttributeValue::Compression(cmp)),
    {
        proof { lemma_required_kinds(); }
        self.set_standard("compression", AttributeValue::Compression(cmp));
    }

    /// Validates the header against the size limits: `Ok` when no invariant
    /// is broken, else the first broken one in the order of
    /// `first_violation`. Nothing is changed.
    pub fn sanity_check(&self, limits: &Limits, is_tiled: bool, is_multi_part: bool) -> (r: Result<(), Error>)
        requires
            self.wf(),
        ensures
            match first_violation(self.entries(), *limits, is_tiled, is_multi_part) {
                None => r is Ok,
                Some(v) => r == Err::<(), Error>(Error::ValidationFailed(v)),
            },
    {
        match self.find_violation(limits, is_tiled, is_multi_part) {
            None => Ok(()),
            Some(v) => Err(Error::ValidationFailed(v)),
        }
    }

    /// The first broken invariant, if any.
    pub fn find_violation(&self, limits: &Limits, is_tiled: bool, is_multi_part: bool) -> (r: Option<Violation>)
        requires
            self.wf(),
        ensures
            r == first_violation(self.entries(), *limits, is_tiled, is_multi_part),
    {
        let display = self.display_window();
        let data = self.data_window();
        if display.is_empty() {
            return Some(Violation::DisplayWindowEmpty);
        }
        if data.is_empty() {
            return Some(Violation::DataWindowEmpty);
        }
        if exceeds_limit(data.width(), limits.max_image_width) || exceeds_limit(
            data.height(),
            limits.max_image_height,
        ) {
            return Some(Violation::DataWindowTooLarge);
        }
        if !self.pixel_aspect_ratio().is_finite_positive() {
            return Some(Violation::PixelAspectRatioInvalid);
        }
        if !self.screen_window_width().is_finite_non_negative() {
            return Some(Violation::ScreenWindowWidthInvalid);
        }
        let channels = check_channels(self.channels());
        if channels.is_some() {
            return channels;
        }
        if is_tiled {
            let tiles = check_tiles(self.find_tile_description(), limits);
            if tiles.is_some() {
                return tiles;
            }
        }
        if is_multi_part {
            proof {
                reveal_strlit("name");
                reveal_strlit("type");
            }
            let parts = check_multi_part(self.find_text("name"), self.find_text("type"), is_tiled);
            if parts.is_some() {
                return parts;
            }
        }
        match self.line_order() {
            LineOrder::RandomY => if !is_tiled {
                return Some(Violation::RandomYRequiresTiles);
            },
            _ => {},
        }
        None
    }

    /// Sets the largest data window that validation accepts; zero or less
    /// means unlimited.
    pub fn set_max_image_size(limits: &mut Limits, max_width: i32, max_height: i32)
        ensures
            *final(limits) == (Limits { max_image_width: max_width, max_image_height: max_height, ..*old(limits) }),
    {
        limits.max_image_width = max_width;
        limits.max_image_height = max_height;
    }

    /// Sets the largest tile that validation accepts; zero or less means
    /// unlimited.
    pub fn set_max_tile_size(limits: &mut Limits, max_width: i32, max_height: i32)
        ensures
            *final(limits) == (Limits { max_tile_width: max_width, max_tile_height: max_height, ..*old(limits) }),
    {
        limits.max_tile_width = max_width;
        limits.max_tile_height = max_height;
    }

    /// The text stored under `name`, if it is present as text.
    fn find_text(&self, name: &str) -> (r: Option<&String>)
        requires
            self.wf(),
        ensures
            match r {
                Some(t) => spec_text(self.entries(), name@) == Some(t@),
                None => spec_text(self.entries(), name@) is None,
            },
    {
        match self.attributes.find(name) {
            Some(AttributeValue::Text(t)) => Some(t),
            _ => None,
        }
    }

    /// The integer stored under `name`, if it is present as an integer.
    fn find_int(&self, name: &str) -> (r: Option<i32>)
        requires
            self.wf(),
        ensures
            r == spec_int(self.entries(), name@),
    {
        match self.attributes.find(name) {
            Some(AttributeValue::Int(v)) => Some(*v),
            _ => None,
        }
    }

    /// The tile description, if present.
    fn find_tile_description(&self) -> (r: Option<&TileDescription>)
        requires
            self.wf(),
        ensures
            match r {
                Some(t) => spec_tile_description(self.entries()) == Some(*t),
                None => spec_tile_description(self.entries()) is None,
            },
    {
        match self.attributes.find("tiles") {
            Some(AttributeValue::TileDescription(t)) => Some(t),
            _ => None,
        }
    }

    /// The preview image, if present.
    fn find_preview_image(&self) -> (r: Option<&PreviewImage>)
        requires
            self.wf(),
        ensures
            match r {
                Some(p) => spec_preview_image(self.entries()) == Some(*p),
                None => spec_preview_image(self.entries()) is None,
            },
    {
        match self.attributes.find("preview") {
            Some(AttributeValue::Preview(p)) => Some(p),
            _ => None,
        }
    }

    /// Stores `text` as a text attribute under `key`, which is no mandatory
    /// name. Text holding a NUL character is refused.
    fn set_text(&mut self, key: &str, text: &str) -> (r: Result<(), Error>)
        requires
            old(self).wf(),
            spec_is_valid_name(key@),
            required_kind(key@) is None,
        ensures
            final(self).wf(),
            !spec_has_no_nul(text@) ==> r == Err::<(), Error>(Error::InvalidArgument) && final(self).entries() == old(self).entries(),
            spec_has_no_nul(text@) ==> exists|v: String|
                v@ == text@ && #[trigger] insert_outcome(old(self).entries(), final(self).entries(), r, key@, AttributeValue::Text(v)),
            r is Ok <==> spec_has_no_nul(text@) && !(lookup(old(self).entries(), key@) matches Some(w) && w.spec_kind() != 5),
            r is Ok ==> spec_text(final(self).entries(), key@) == Some(text@) && same_elsewhere(old(self).entries(), final(self).entries(), key@),
    {
        if !has_no_nul(text) {
            return Err(Error::InvalidArgument);
        }
        let v = text.to_owned();
        let ghost value = AttributeValue::Text(v);
        let ghost before = self.entries();
        proof {
            lemma_insert_keeps_header(self.entries(), key@, value);
            if spec_insert(self.entries(), key@, value) is Ok {
                lemma_insert_lookup(self.entries(), key@, value);
            }
        }
        let r = self.attributes.insert(key, AttributeValue::Text(v));
        assert(insert_outcome(before, self.entries(), r, key@, value));
        r
    }

    /// The name of this part. Present on multi-part files.
    pub fn name(&self) -> (r: String)
        requires
            self.wf(),
            spec_text(self.entries(), "name"@) is Some,
        ensures
            Some(r@) == spec_text(self.entries(), "name"@),
    {
        match self.find_text("name") {
            Some(t) => t.clone(),
            None => vstd::pervasive::unreached(),
        }
    }

    /// Whether the part has a name.
    pub fn has_name(&self) -> (r: bool)
        requires
            self.wf(),
        ensures
            r == spec_text(self.entries(), "name"@) is Some,
    {
        self.find_text("name").is_some()
    }

    /// Sets the name of this part.
    pub fn set_name(&mut self, name: &str) -> (r: Result<(), Error>)
        requires
            old(self).wf(),
        ensures
            final(self).wf(),
            !spec_has_no_nul(name@) ==> r == Err::<(), Error>(Error::InvalidArgument) && final(self).entries() == old(self).entries(),
            spec_has_no_nul(name@) ==> exists|v: String|
                v@ == name@ && #[trigger] insert_outcome(old(self).entries(), final(self).entries(), r, "name"@, AttributeValue::Text(v)),
            r is Ok <==> spec_has_no_nul(name@) && !(lookup(old(self).entries(), "name"@) matches Some(w) && w.spec_kind() != 5),
            r is Ok ==> spec_text(final(self).entries(), "name"@) == Some(name@) && same_elsewhere(old(self).entries(), final(self).entries(), "name"@),
    {
        proof { lemma_optional_names(); }
        self.set_text("name", name)
    }

    /// The type of this part, as its attribute text. Present on multi-part
    /// files.
    pub fn image_type(&self) -> (r: String)
        requires
            self.wf(),
            spec_text(self.entries(), "type"@) is Some,
        ensures
            Some(r@) == spec_text(self.entries(), "type"@),
    {
        match self.find_text("type") {
            Some(t) => t.clone(),
            None => vstd::pervasive::unreached(),
        }
    }

    /// Whether the part has a type.
    pub fn has_image_type(&self) -> (r: bool)
        requires
            self.wf(),
        ensures
            r == spec_text(self.entries(), "type"@) is Some,
    {
        self.find_text("type").is_some()
    }

    /// Sets the type of this part; the text must name one of the four kinds
    /// of `ImageType` exactly.
    pub fn set_image_type(&mut self, image_type: &str) -> (r: Result<(), Error>)
        requires
            old(self).wf(),
        ensures
            final(self).wf(),
            spec_image_type_named(image_type@) is None ==> r == Err::<(), Error>(Error::InvalidArgument)
                && final(self).entries() == old(self).entries(),
            spec_image_type_named(image_type@) is Some ==> exists|v: String|
                v@ == image_type@ && #[trigger] insert_outcome(old(self).entries(), final(self).entries(), r, "type"@, AttributeValue::Text(v)),
            r is Ok <==> spec_image_type_named(image_type@) is Some && !(lookup(old(self).entries(), "type"@) matches Some(w)
                && w.spec_kind() != 5),
            r is Ok ==> spec_text(final(self).entries(), "type"@) == Some(image_type@) && same_elsewhere(old(self).entries(), final(self).entries(), "type"@),
    {
        proof { lemma_optional_names(); }
        if image_type_named(image_type).is_none() {
            return Err(Error::InvalidArgument);
        }
        proof { lemma_image_type_names_have_no_nul(image_type@); }
        self.set_text("type", image_type)
    }

    /// The file-format version of this part.
    pub fn version(&self) -> (r: i32)
        requires
            self.wf(),
            spec_int(self.entries(), "version"@) is Some,
        ensures
            Some(r) == spec_int(self.entries(), "version"@),
    {
        match self.find_int("version") {
            Some(v) => v,
            None => vstd::pervasive::unreached(),
        }
    }

    pub fn set_version(&mut self, v: i32) -> (r: Result<(), Error>)
        requires
            old(self).wf(),
        ensures
            final(self).wf(),
            insert_outcome(old(self).entries(), final(self).entries(), r, "version"@, AttributeValue::Int(v)),
    {
        self.insert("version", AttributeValue::Int(v))
    }

    /// Whether the part has its version specified.
    pub fn has_version(&self) -> (r: bool)
        requires
            self.wf(),
        ensures
            r == spec_int(self.entries(), "version"@) is Some,
    {
        self.find_int("version").is_some()
    }

    /// Whether the part has its chunk count specified; a writer sets it.
    pub fn has_chunk_count(&self) -> (r: bool)
        requires
            self.wf(),
        ensures
            r == spec_int(self.entries(), "chunkCount"@) is Some,
    {
        self.find_int("chunkCount").is_some()
    }

    /// The number of chunks of this part.
    pub fn chunk_count(&self) -> (r: i32)
        requires
            self.wf(),
            spec_int(self.entries(), "chunkCount"@) is Some,
        ensures
            Some(r) == spec_int(self.entries(), "chunkCount"@),
    {
        match self.find_int("chunkCount") {
            Some(v) => v,
            None => vstd::pervasive::unreached(),
        }
    }

    /// The view of this part.
    pub fn view(&self) -> (r: String)
        requires
            self.wf(),
            spec_text(self.entries(), "view"@) is Some,
        ensures
            Some(r@) == spec_text(self.entries(), "view"@),
    {
        match self.find_text("view") {
            Some(t) => t.clone(),
            None => vstd::pervasive::unreached(),
        }
    }

    /// Sets the view of this part.
    pub fn set_view(&mut self, view: &str) -> (r: Result<(), Error>)
        requires
            old(self).wf(),
        ensures
            final(self).wf(),
            !spec_has_no_nul(view@) ==> r == Err::<(), Error>(Error::InvalidArgument) && final(self).entries() == old(self).entries(),
            spec_has_no_nul(view@) ==> exists|v: String|
                v@ == view@ && #[trigger] insert_outcome(old(self).entries(), final(self).entries(), r, "view"@, AttributeValue::Text(v)),
            r is Ok <==> spec_has_no_nul(view@) && !(lookup(old(self).entries(), "view"@) matches Some(w) && w.spec_kind() != 5),
            r is Ok ==> spec_text(final(self).entries(), "view"@) == Some(view@) && same_elsewhere(old(self).entries(), final(self).entries(), "view"@),
    {
        proof { lemma_optional_names(); }
        self.set_text("view", view)
    }

    /// Whether the part has a view.
    pub fn has_view(&self) -> (r: bool)
        requires
            self.wf(),
        ensures
            r == spec_text(self.entries(), "view"@) is Some,
    {
        self.find_text("view").is_some()
    }

    /// The tiling parameters, which tiled parts must have.
    pub fn tile_description(&self) -> (r: &TileDescription)
        requires
            self.wf(),
            spec_tile_description(self.entries()) is Some,
        ensures
            Some(*r) == spec_tile_description(self.entries()),
    {
        match self.find_tile_description() {
            Some(t) => t,
            None => vstd::pervasive::unreached(),
        }
    }

    pub fn set_tile_description(&mut self, td: TileDescription) -> (r: Result<(), Error>)
        requires
            old(self).wf(),
        ensures
            final(self).wf(),
            insert_outcome(old(self).entries(), final(self).entries(), r, "tiles"@, AttributeValue::TileDescription(td)),
    {
        self.insert("tiles", AttributeValue::TileDescription(td))
    }

    pub fn has_tile_description(&self) -> (r: bool)
        requires
            self.wf(),
        ensures
            r == spec_tile_description(self.entries()) is Some,
    {
        self.find_tile_description().is_some()
    }

    /// The preview image.
    pub fn preview_image(&self) -> (r: &PreviewImage)
        requires
            self.wf(),
            spec_preview_image(self.entries()) is Some,
        ensures
            Some(*r) == spec_preview_image(self.entries()),
    {
        match self.find_preview_image() {
            Some(p) => p,
            None => vstd::pervasive::unreached(),
        }
    }

    pub fn set_preview_image(&mut self, pi: PreviewImage) -> (r: Result<(), Error>)
        requires
            old(self).wf(),
        ensures
            final(self).wf(),
            insert_outcome(old(self).entries(), final(self).entries(), r, "preview"@, AttributeValue::Preview(pi)),
    {
        self.insert("preview", AttributeValue::Preview(pi))
    }

    pub fn has_preview_image(&self) -> (r: bool)
        requires
            self.wf(),
        ensures
            r == spec_preview_image(self.entries()) is Some,
    {
        self.find_preview_image().is_some()
    }

    /// Stores `value` under `name`. An existing attribute keeps its position
    /// and must have the same type; a new one goes last.
    pub fn insert(&mut self, name: &str, value: AttributeValue) -> (r: Result<(), Error>)
        requires
            old(self).wf(),
        ensures
            final(self).wf(),
            insert_outcome(old(self).entries(), final(self).entries(), r, name@, value),
    {
        proof { lemma_insert_keeps_header(self.entries(), name@, value); }
        self.attributes.insert(name, value)
    }

    /// Removes the attribute named `name`. An absent name is no error; a
    /// mandatory attribute cannot be removed.
    pub fn erase(&mut self, name: &str) -> (r: Result<(), Error>)
        requires
            old(self).wf(),
        ensures
            final(self).wf(),
            !spec_is_valid_name(name@) ==> r == Err::<(), Error>(Error::InvalidName) && final(self).entries() == old(self).entries(),
            spec_is_valid_name(name@) && required_kind(name@) is Some ==> r == Err::<(), Error>(
                Error::InvalidArgument,
            ) && final(self).entries() == old(self).entries(),
            spec_is_valid_name(name@) && required_kind(name@) is None ==> r is Ok && final(self).entries() == spec_erase(
                old(self).entries(),
                name@,
            ),
    {
        if !is_valid_name(name) {
            return Err(Error::InvalidName);
        }
        if is_mandatory_name(name) {
            return Err(Error::InvalidArgument);
        }
        proof { lemma_erase_keeps_header(self.entries(), name@); }
        self.attributes.erase(name)
    }

    /// The value stored under `name`, of whatever type.
    pub fn find(&self, name: &str) -> (r: Option<&AttributeValue>)
        requires
            self.wf(),
        ensures
            match r {
                Some(v) => lookup(self.entries(), name@) == Some(*v),
                None => lookup(self.entries(), name@) is None,
            },
    {
        self.attributes.find(name)
    }

    /// The box stored under `name`; `None` when the name is absent or holds
    /// another type.
    pub fn find_typed_attribute_box2i(&self, name: &str) -> (r: Option<&Box2i>)
        requires
            self.wf(),
        ensures
            match r {
                Some(b) => lookup(self.entries(), name@) == Some(AttributeValue::Box2i(*b)),
                None => !(lookup(self.entries(), name@) matches Some(AttributeValue::Box2i(_))),
            },
    {
        match self.attributes.find(name) {
            Some(AttributeValue::Box2i(b)) => Some(b),
            _ => None,
        }
    }

    /// The box stored under `name`, for mutation in place; `None` when the
    /// name is absent or holds another type.
    pub fn find_typed_attribute_box2i_mut(&mut self, name: &str) -> (r: Option<&mut Box2i>)
        requires
            old(self).wf(),
        ensures
            match r {
                Some(b) => lookup(old(self).entries(), name@) == Some(AttributeValue::Box2i(*b)) && final(self).entries() == spec_set(
                    old(self).entries(),
                    name@,
                    AttributeValue::Box2i(*final(b)),
                ) && final(self).wf(),
                None => !(lookup(old(self).entries(), name@) matches Some(AttributeValue::Box2i(_))) && final(self).entries() == old(self).entries(),
            },
    {
        let i = match self.attributes.find_index(name) {
            Some(i) => i,
            None => return None,
        };
        let is_box = match &self.attributes.get(i).value {
            AttributeValue::Box2i(_) => true,
            _ => false,
        };
        if !is_box {
            return None;
        }
        proof {
            assert forall|x: Box2i| #[trigger] is_header(spec_set(self.entries(), name@, AttributeValue::Box2i(x))) by {
                lemma_set_same_type(self.entries(), name@, AttributeValue::Box2i(x));
            }
        }
        match self.attributes.value_mut(i) {
            AttributeValue::Box2i(b) => Some(b),
            _ => vstd::pervasive::unreached(),
        }
    }

    /// The attributes as a list, in insertion order.
    pub fn into_attributes(self) -> (r: Vec<Attribute>)
        ensures
            r@.map_values(|a: Attribute| a@) == self.entries(),
    {
        self.attributes.into_entries()
    }

    /// A header holding `attributes` in their order. Fails with
    /// `InvalidName` when a name is invalid, and with `InvalidArgument` when
    /// two share a name or a mandatory attribute is missing or mistyped.
    pub fn from_attributes(attributes: Vec<Attribute>) -> (r: Result<Header, Error>)
        ensures
            match spec_from_attributes(attributes@.map_values(|a: Attribute| a@)) {
                Ok(s) => r matches Ok(h) && h.entries() == s && h.wf() && !h.spec_reads_nothing(),
                Err(e) => r matches Err(x) && x == e,
            },
    {
        let reg = match AttributeRegistry::from_entries(attributes) {
            Ok(reg) => reg,
            Err(e) => return Err(e),
        };
        proof {
            lemma_mandatory_present(reg@);
            lemma_required_kinds();
        }
        let present = has_required_kind(&reg, "displayWindow", 0) && has_required_kind(&reg, "dataWindow", 0)
            && has_required_kind(&reg, "pixelAspectRatio", 4) && has_required_kind(&reg, "screenWindowCenter", 2)
            && has_required_kind(&reg, "screenWindowWidth", 4) && has_required_kind(&reg, "channels", 10)
            && has_required_kind(&reg, "lineOrder", 6) && has_required_kind(&reg, "compression", 7);
        if !present {
            return Err(Error::InvalidArgument);
        }
        Ok(Header { attributes: reg, reads_nothing: false })
    }
}

impl Default for Header {
    /// A 64 by 64 header with the default settings of
    /// `is_default_except_windows`.
    fn default() -> (r: Header)
        ensures
            r.wf(),
            is_default_except_windows(r.entries()),
            spec_display_window(r.entries()) == spec_dimension_box(64, 64),
            spec_data_window(r.entries()) == spec_dimension_box(64, 64),
    {
        let zero = Float32Bits::zero();
        let one = Float32Bits::one();
        match Header::with_dimensions(
            64,
            64,
            one,
            V2f { x: zero, y: zero },
            one,
            LineOrder::IncreasingY,
            Compression::Zip,
        ) {
            Ok(h) => h,
            Err(_) => vstd::pervasive::unreached(),
        }
    }
}
} // verus!
