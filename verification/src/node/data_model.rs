use vstd::prelude::*;

use crate::color::Color;

verus! {

/// The closed set of value kinds a socket can prefer.
#[derive(Copy, Clone, Debug, PartialEq, Eq, Structural)]
pub enum DataType {
    Integer,
    Float,
    String,
    Boolean,
}

/// The human-readable name of each data type.
pub open spec fn spec_type_name(t: DataType) -> Seq<char> {
    match t {
        DataType::Integer => "Integer"@,
        DataType::Float => "Float"@,
        DataType::String => "String"@,
        DataType::Boolean => "Boolean"@,
    }
}

/// The fixed display color of each data type, in thousandths per channel.
pub open spec fn spec_type_color(t: DataType) -> Color {
    match t {
        DataType::Integer => Color { r: 300, g: 860, b: 660, a: 1000 },
        DataType::Float => Color { r: 300, g: 780, b: 860, a: 1000 },
        DataType::String => Color { r: 920, g: 830, b: 360, a: 1000 },
        DataType::Boolean => Color { r: 570, g: 360, b: 920, a: 1000 },
    }
}

impl DataType {
    /// Returns the human-readable name for this data type.
    pub fn get_type_name(&self) -> (r: &'static str)
        ensures
            r@ == spec_type_name(*self),
    {
        match self {
            DataType::Integer => "Integer",
            DataType::Float => "Float",
            DataType::String => "String",
            DataType::Boolean => "Boolean",
        }
    }

    /// Returns the graphics color to represent this type.
    pub fn get_type_color(&self) -> (r: Color)
        ensures
            r == spec_type_color(*self),
    {
        match self {
            DataType::Integer => Color { r: 300, g: 860, b: 660, a: 1000 },
            DataType::Float => Color { r: 300, g: 780, b: 860, a: 1000 },
            DataType::String => Color { r: 920, g: 830, b: 360, a: 1000 },
            DataType::Boolean => Color { r: 570, g: 360, b: 920, a: 1000 },
        }
    }
}

} // verus!
