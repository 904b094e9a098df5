use vstd::prelude::*;
use crate::math::{Box2i, Float32Bits, V2f, V2i};
use crate::text::str_equal;
use crate::types::{ChannelList, Compression, LineOrder, PreviewImage, TileDescription};

verus! {

/// The payload of one attribute. Each variant is one attribute type;
/// `Opaque` carries the bytes of a type that the library does not interpret,
/// under that type's registered name.
#[derive(Clone, Debug)]
pub enum AttributeValue {
    Box2i(Box2i),
    V2i(V2i),
    V2f(V2f),
    Int(i32),
    Float(Float32Bits),
    Text(String),
    LineOrder(LineOrder),
    Compression(Compression),
    TileDescription(TileDescription),
    Preview(PreviewImage),
    Channels(ChannelList),
    Opaque { kind_name: String, bytes: Vec<u8> },
}

impl AttributeValue {
    /// Which variant the value is; opaque values are further told apart by
    /// their type name.
    pub open spec fn spec_kind(self) -> u8 {
        match self {
            AttributeValue::Box2i(_) => 0,
            AttributeValue::V2i(_) => 1,
            AttributeValue::V2f(_) => 2,
            AttributeValue::Int(_) => 3,
            AttributeValue::Float(_) => 4,
            AttributeValue::Text(_) => 5,
            AttributeValue::LineOrder(_) => 6,
            AttributeValue::Compression(_) => 7,
            AttributeValue::TileDescription(_) => 8,
            AttributeValue::Preview(_) => 9,
            AttributeValue::Channels(_) => 10,
            AttributeValue::Opaque { .. } => 11,
        }
    }

    /// Two values have the same attribute type.
    pub open spec fn spec_same_type(self, other: AttributeValue) -> bool {
        match (self, other) {
            (
                AttributeValue::Opaque { kind_name: a, .. },
                AttributeValue::Opaque { kind_name: b, .. },
            ) => a@ == b@,
            _ => self.spec_kind() == other.spec_kind(),
        }
    }

    pub fn kind(&self) -> (r: u8)
        ensures
            r == self.spec_kind(),
    {
        match self {
            AttributeValue::Box2i(_) => 0,
            AttributeValue::V2i(_) => 1,
            AttributeValue::V2f(_) => 2,
            AttributeValue::Int(_) => 3,
            AttributeValue::Float(_) => 4,
            AttributeValue::Text(_) => 5,
            AttributeValue::LineOrder(_) => 6,
            AttributeValue::Compression(_) => 7,
            AttributeValue::TileDescription(_) => 8,
            AttributeValue::Preview(_) => 9,
            AttributeValue::Channels(_) => 10,
            AttributeValue::Opaque { .. } => 11,
        }
    }

    pub fn same_type(&self, other: &AttributeValue) -> (r: bool)
        ensures
            r == self.spec_same_type(*other),
    {
        match (self, other) {
            (
                AttributeValue::Opaque { kind_name: a, .. },
                AttributeValue::Opaque { kind_name: b, .. },
            ) => str_equal(a.as_str(), b.as_str()),
            _ => self.kind() == other.kind(),
        }
    }
}

/// A named attribute.
#[derive(Clone, Debug)]
pub struct Attribute {
    pub name: String,
    pub value: AttributeValue,
}

impl Attribute {
    pub open spec fn view(&self) -> (Seq<char>, AttributeValue) {
        (self.name@, self.value)
    }
}

} // verus!
