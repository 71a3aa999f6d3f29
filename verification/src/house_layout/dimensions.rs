//! Lengths and positions on a floor plan, in whole centimeters.
use vstd::prelude::*;

use crate::json::{
    spec_json_get, spec_json_peel, spec_json_views, JsonValue, JsonView, LayoutError,
};
use crate::json::{lemma_views_elems, spec_json_view};

verus! {

/// A length in whole centimeters.
#[derive(Debug, Clone, Copy, PartialEq, Eq, Structural)]
pub struct Centimeters(pub u16);

impl Centimeters {
    /// The sum of two lengths.
    pub fn add(self, rhs: Centimeters) -> (r: Centimeters)
        requires
            self.0 + rhs.0 <= u16::MAX,
        ensures
            r.0 == self.0 + rhs.0,
    {
        Centimeters(self.0 + rhs.0)
    }

    /// Grows this length by another.
    pub fn add_assign(&mut self, rhs: Centimeters)
        requires
            old(self).0 + rhs.0 <= u16::MAX,
        ensures
            final(self).0 == old(self).0 + rhs.0,
    {
        self.0 = self.0 + rhs.0;
    }

    /// The difference of two lengths.
    pub fn sub(self, rhs: Centimeters) -> (r: Centimeters)
        requires
            rhs.0 <= self.0,
        ensures
            r.0 == self.0 - rhs.0,
    {
        Centimeters(self.0 - rhs.0)
    }

    /// Shrinks this length by another.
    pub fn sub_assign(&mut self, rhs: Centimeters)
        requires
            rhs.0 <= old(self).0,
        ensures
            final(self).0 == old(self).0 - rhs.0,
    {
        self.0 = self.0 - rhs.0;
    }

    /// The JSON form of a length: its bare number.
    pub fn to_json(&self) -> (r: JsonValue)
        ensures
            r@ == JsonView::Number(self.0 as u64),
    {
        JsonValue::Number(self.0 as u64)
    }
}

impl From<u16> for Centimeters {
    fn from(value: u16) -> (r: Centimeters) {
        Centimeters(value)
    }
}

impl vstd::std_specs::convert::FromSpecImpl<u16> for Centimeters {
    open spec fn obeys_from_spec() -> bool {
        true
    }

    open spec fn from_spec(value: u16) -> Centimeters {
        Centimeters(value)
    }
}

/// The length a JSON number names: numbers beyond the largest length
/// saturate.
pub open spec fn spec_centimeters_of(n: u64) -> Centimeters {
    if n > u16::MAX as u64 {
        Centimeters(u16::MAX)
    } else {
        Centimeters(n as u16)
    }
}

/// The length a JSON number names, exactly as `spec_centimeters_of` says.
pub fn centimeters_of(n: u64) -> (r: Centimeters)
    ensures
        r == spec_centimeters_of(n),
{
    if n > u16::MAX as u64 {
        Centimeters(u16::MAX)
    } else {
        Centimeters(n as u16)
    }
}

/// A length as whole meters, borrowed from its exact measure.
#[derive(Debug)]
pub struct Meters<'a>(pub &'a Centimeters);

/// A point on a floor plan.
#[derive(Debug, Clone, Copy, PartialEq, Eq, Structural)]
pub struct Position {
    pub x: Centimeters,
    pub y: Centimeters,
}

/// The JSON form of a position: an object with an `x` and a `y` entry.
pub open spec fn spec_position_json(p: Position) -> JsonView {
    JsonView::Object(
        seq![
            JsonView::Entry { name: "x"@, value: Box::new(JsonView::Number(p.x.0 as u64)) },
            JsonView::Entry { name: "y"@, value: Box::new(JsonView::Number(p.y.0 as u64)) },
        ],
    )
}

/// What the position parser makes of a JSON value: both an `x` and a `y`
/// field must be present and hold numbers, which saturate to lengths.
pub open spec fn spec_parse_position(j: JsonView) -> Result<Position, LayoutError> {
    match spec_json_get(j, "x"@) {
        None => Err(LayoutError::MissingField),
        Some(xe) => match spec_json_get(j, "y"@) {
            None => Err(LayoutError::MissingField),
            Some(ye) => match spec_json_peel(xe) {
                JsonView::Number(nx) => match spec_json_peel(ye) {
                    JsonView::Number(ny) => Ok(
                        Position { x: spec_centimeters_of(nx), y: spec_centimeters_of(ny) },
                    ),
                    _ => Err(LayoutError::NumberExpected),
                },
                _ => Err(LayoutError::NumberExpected),
            },
        },
    }
}

impl Position {
    /// A position from its coordinates.
    pub fn new(x: Centimeters, y: Centimeters) -> (r: Self)
        ensures
            r.x == x,
            r.y == y,
    {
        Self { x, y }
    }

    /// The JSON form of the position, exactly as `spec_position_json`
    /// says.
    pub fn to_json(&self) -> (r: JsonValue)
        ensures
            r@ == spec_position_json(*self),
    {
        let mut items: Vec<JsonValue> = Vec::new();
        items.push(
            JsonValue::Entry {
                name: String::from_str("x"),
                value: Box::new(JsonValue::Number(self.x.0 as u64)),
            },
        );
        items.push(
            JsonValue::Entry {
                name: String::from_str("y"),
                value: Box::new(JsonValue::Number(self.y.0 as u64)),
            },
        );
        let ghost iv = items@;
        let r = JsonValue::Object(items);
        proof {
            let want = seq![
                JsonView::Entry { name: "x"@, value: Box::new(
                    JsonView::Number(self.x.0 as u64),
                ) },
                JsonView::Entry { name: "y"@, value: Box::new(
                    JsonView::Number(self.y.0 as u64),
                ) },
            ];
            reveal_with_fuel(spec_json_view, 3);
            assert(spec_json_view(iv[0]) == want[0]);
            assert(spec_json_view(iv[1]) == want[1]);
            lemma_views_elems(iv, want);
            assert(r@ == spec_position_json(*self));
        }
        r
    }

    /// Reads a position back from JSON, exactly as `spec_parse_position`
    /// says.
    pub fn try_from_json(value: &JsonValue) -> (r: Result<Position, LayoutError>)
        ensures
            r == spec_parse_position(value@),
    {
        let xe = match value.get("x") {
            Some(e) => e,
            None => {
                return Err(LayoutError::MissingField);
            },
        };
        let ye = match value.get("y") {
            Some(e) => e,
            None => {
                return Err(LayoutError::MissingField);
            },
        };
        let nx = match xe.peel() {
            JsonValue::Number(n) => *n,
            _ => {
                return Err(LayoutError::NumberExpected);
            },
        };
        let ny = match ye.peel() {
            JsonValue::Number(n) => *n,
            _ => {
                return Err(LayoutError::NumberExpected);
            },
        };
        Ok(Position { x: centimeters_of(nx), y: centimeters_of(ny) })
    }
}

} // verus!
