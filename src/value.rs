use vstd::prelude::*;

verus! {

/// A value found in a geo record, as handed across the library's boundary.
///
/// Coordinates are carried as the IEEE-754 bit pattern of the `f64` that the
/// database holds, so that the value is exact and can be turned back into the
/// float by whoever presents it.
#[derive(Debug, Clone)]
pub enum GeoValue {
    Str(String),
    FloatBits(u64),
    UInt(u32),
    Bool(bool),
}

/// The mathematical view of a [`GeoValue`].
pub enum ValueView {
    Str(Seq<char>),
    FloatBits(u64),
    UInt(u32),
    Bool(bool),
}

impl View for GeoValue {
    type V = ValueView;

    open spec fn view(&self) -> ValueView {
        match self {
            GeoValue::Str(s) => ValueView::Str(s@),
            GeoValue::FloatBits(b) => ValueView::FloatBits(*b),
            GeoValue::UInt(u) => ValueView::UInt(*u),
            GeoValue::Bool(b) => ValueView::Bool(*b),
        }
    }
}

/// The view of an optional value: `None` is the not-found outcome.
pub open spec fn found_view(r: Option<GeoValue>) -> Option<ValueView> {
    match r {
        Some(v) => Some(v@),
        None => None,
    }
}

/// The string value held by an optional record field.
pub open spec fn str_field(f: Option<String>) -> Option<ValueView> {
    match f {
        Some(s) => Some(ValueView::Str(s@)),
        None => None,
    }
}

pub open spec fn bool_field(f: Option<bool>) -> Option<ValueView> {
    match f {
        Some(b) => Some(ValueView::Bool(b)),
        None => None,
    }
}

pub open spec fn uint_field(f: Option<u32>) -> Option<ValueView> {
    match f {
        Some(u) => Some(ValueView::UInt(u)),
        None => None,
    }
}

pub open spec fn float_field(f: Option<u64>) -> Option<ValueView> {
    match f {
        Some(b) => Some(ValueView::FloatBits(b)),
        None => None,
    }
}

pub fn str_value(f: &Option<String>) -> (r: Option<GeoValue>)
    ensures
        found_view(r) == str_field(*f),
{
    match f {
        Some(s) => Some(GeoValue::Str(s.clone())),
        None => None,
    }
}

pub fn bool_value(f: Option<bool>) -> (r: Option<GeoValue>)
    ensures
        found_view(r) == bool_field(f),
{
    match f {
        Some(b) => Some(GeoValue::Bool(b)),
        None => None,
    }
}

pub fn uint_value(f: Option<u32>) -> (r: Option<GeoValue>)
    ensures
        found_view(r) == uint_field(f),
{
    match f {
        Some(u) => Some(GeoValue::UInt(u)),
        None => None,
    }
}

pub fn float_value(f: Option<u64>) -> (r: Option<GeoValue>)
    ensures
        found_view(r) == float_field(f),
{
    match f {
        Some(b) => Some(GeoValue::FloatBits(b)),
        None => None,
    }
}

} // verus!
