//! Walls and their doors: straight segments between two positions, with
//! optional connection points to neighbouring walls.
use vstd::prelude::*;

use crate::house_layout::dimensions::{
    spec_parse_position, spec_position_json, Position,
};
use crate::house_layout::Connection;
use crate::json::{
    json_array_field, lemma_json_views_index, lemma_json_views_len, lemma_views_elems,
    spec_json_array_field, spec_json_get, spec_json_peel, spec_json_view, spec_json_views,
    JsonValue, JsonView, LayoutError,
};

verus! {

/// A doorway in a wall, from one position to another.
#[derive(Debug, Clone, Copy, PartialEq, Eq, Structural)]
pub struct Door {
    pub position_start: Position,
    pub position_end: Position,
}

/// The JSON form of a door: an object with the two positions.
pub open spec fn spec_door_json(d: Door) -> JsonView {
    JsonView::Object(
        seq![
            JsonView::Entry {
                name: "position_start"@,
                value: Box::new(spec_position_json(d.position_start)),
            },
            JsonView::Entry {
                name: "position_end"@,
                value: Box::new(spec_position_json(d.position_end)),
            },
        ],
    )
}

/// What the door parser makes of a JSON value: both positions must be
/// present and read back as positions.
pub open spec fn spec_parse_door(j: JsonView) -> Result<Door, LayoutError> {
    match spec_json_get(j, "position_start"@) {
        None => Err(LayoutError::MissingField),
        Some(pse) => match spec_json_get(j, "position_end"@) {
            None => Err(LayoutError::MissingField),
            Some(pee) => match spec_parse_position(pse) {
                Err(e) => Err(e),
                Ok(ps) => match spec_parse_position(pee) {
                    Err(e) => Err(e),
                    Ok(pe) => Ok(Door { position_start: ps, position_end: pe }),
                },
            },
        },
    }
}

impl Door {
    /// A door from its two positions.
    pub fn new(position_start: Position, position_end: Position) -> (r: Self)
        ensures
            r.position_start == position_start,
            r.position_end == position_end,
    {
        Self { position_start, position_end }
    }

    /// The JSON form of the door, exactly as `spec_door_json` says.
    pub fn to_json(&self) -> (r: JsonValue)
        ensures
            r@ == spec_door_json(*self),
    {
        let mut items: Vec<JsonValue> = Vec::new();
        items.push(
            JsonValue::Entry {
                name: String::from_str("position_start"),
                value: Box::new(self.position_start.to_json()),
            },
        );
        items.push(
            JsonValue::Entry {
                name: String::from_str("position_end"),
                value: Box::new(self.position_end.to_json()),
            },
        );
        let ghost iv = items@;
        let r = JsonValue::Object(items);
        proof {
            reveal_with_fuel(spec_json_view, 2);
            let want = seq![
                JsonView::Entry {
                    name: "position_start"@,
                    value: Box::new(spec_position_json(self.position_start)),
                },
                JsonView::Entry {
                    name: "position_end"@,
                    value: Box::new(spec_position_json(self.position_end)),
                },
            ];
            assert(spec_json_view(iv[0]) == want[0]);
            assert(spec_json_view(iv[1]) == want[1]);
            lemma_views_elems(iv, want);
            assert(r@ == spec_door_json(*self));
        }
        r
    }

    /// Reads a door back from JSON, exactly as `spec_parse_door` says.
    pub fn try_from_json(value: &JsonValue) -> (r: Result<Door, LayoutError>)
        ensures
            r == spec_parse_door(value@),
    {
        let pse = match value.get("position_start") {
            Some(e) => e,
            None => {
                return Err(LayoutError::MissingField);
            },
        };
        let pee = match value.get("position_end") {
            Some(e) => e,
            None => {
                return Err(LayoutError::MissingField);
            },
        };
        let ps = match Position::try_from_json(pse) {
            Ok(p) => p,
            Err(e) => {
                return Err(e);
            },
        };
        let pe = match Position::try_from_json(pee) {
            Ok(p) => p,
            Err(e) => {
                return Err(e);
            },
        };
        Ok(Door { position_start: ps, position_end: pe })
    }
}

/// A wall: a segment between two positions, its connection points to the
/// neighbouring walls, and its doors, if any.
#[derive(Debug, Clone)]
pub struct Wall {
    pub position_start: Position,
    pub position_end: Position,
    pub connection_start: Option<Connection>,
    pub connection_end: Option<Connection>,
    pub doors: Option<Vec<Door>>,
}

/// The spec-level image of a wall.
#[verifier::ext_equal]
pub ghost struct WallView {
    pub position_start: Position,
    pub position_end: Position,
    pub connection_start: Option<Connection>,
    pub connection_end: Option<Connection>,
    pub doors: Option<Seq<Door>>,
}

impl View for Wall {
    type V = WallView;

    open spec fn view(&self) -> WallView {
        WallView {
            position_start: self.position_start,
            position_end: self.position_end,
            connection_start: self.connection_start,
            connection_end: self.connection_end,
            doors: match &self.doors {
                Some(ds) => Some(ds@),
                None => None,
            },
        }
    }
}

/// The JSON forms of a list of doors, in order.
pub open spec fn spec_doors_json(ds: Seq<Door>) -> Seq<JsonView>
    decreases ds.len(),
{
    if ds.len() == 0 {
        Seq::empty()
    } else {
        seq![spec_door_json(ds[0])] + spec_doors_json(ds.subrange(1, ds.len() as int))
    }
}

/// The JSON form of an optional connection point: the position, or null.
pub open spec fn spec_connection_json(c: Option<Connection>) -> JsonView {
    match c {
        Some(p) => spec_position_json(p),
        None => JsonView::Null,
    }
}

/// The JSON form of a wall: an object with the two positions, the two
/// connection points (null when absent), and the doors (an array, or null
/// when absent).
pub open spec fn spec_wall_json(w: WallView) -> JsonView {
    JsonView::Object(
        seq![
            JsonView::Entry {
                name: "position_start"@,
                value: Box::new(spec_position_json(w.position_start)),
            },
            JsonView::Entry {
                name: "position_end"@,
                value: Box::new(spec_position_json(w.position_end)),
            },
            JsonView::Entry {
                name: "connection_end"@,
                value: Box::new(spec_connection_json(w.connection_end)),
            },
            JsonView::Entry {
                name: "connection_start"@,
                value: Box::new(spec_connection_json(w.connection_start)),
            },
            JsonView::Entry {
                name: "doors"@,
                value: Box::new(
                    match w.doors {
                        Some(ds) => JsonView::Array(spec_doors_json(ds)),
                        None => JsonView::Null,
                    },
                ),
            },
        ],
    )
}

/// What reading an optional connection field yields: absent or null is no
/// connection; anything else must read back as a position.
pub open spec fn spec_parse_connection(j: JsonView, name: Seq<char>) -> Result<
    Option<Connection>,
    LayoutError,
> {
    match spec_json_get(j, name) {
        None => Ok(None),
        Some(e) => match spec_json_peel(e) {
            JsonView::Null => Ok(None),
            _ => match spec_parse_position(e) {
                Ok(p) => Ok(Some(p)),
                Err(e2) => Err(e2),
            },
        },
    }
}

/// What reading a list of doors yields: every element must read back as a
/// door.
pub open spec fn spec_parse_doors(items: Seq<JsonView>) -> Result<Seq<Door>, LayoutError>
    decreases items.len(),
{
    if items.len() == 0 {
        Ok(Seq::empty())
    } else {
        match spec_parse_door(items[0]) {
            Err(_) => Err(LayoutError::InvalidElement),
            Ok(d) => match spec_parse_doors(items.subrange(1, items.len() as int)) {
                Err(e) => Err(e),
                Ok(ds) => Ok(seq![d] + ds),
            },
        }
    }
}

/// What the wall parser makes of a JSON value: both positions must be
/// present and read back; connection points and doors are optional.
pub open spec fn spec_parse_wall(j: JsonView) -> Result<WallView, LayoutError> {
    match spec_json_get(j, "position_start"@) {
        None => Err(LayoutError::MissingField),
        Some(pse) => match spec_parse_position(pse) {
            Err(e) => Err(e),
            Ok(ps) => match spec_json_get(j, "position_end"@) {
                None => Err(LayoutError::MissingField),
                Some(pee) => match spec_parse_position(pee) {
                    Err(e) => Err(e),
                    Ok(pe) => match spec_parse_connection(j, "connection_start"@) {
                        Err(e) => Err(e),
                        Ok(cs) => match spec_parse_connection(j, "connection_end"@) {
                            Err(e) => Err(e),
                            Ok(ce) => match spec_json_array_field(j, "doors"@) {
                                Err(e) => Err(e),
                                Ok(None) => Ok(
                                    WallView {
                                        position_start: ps,
                                        position_end: pe,
                                        connection_start: cs,
                                        connection_end: ce,
                                        doors: None,
                                    },
                                ),
                                Ok(Some(items)) => match spec_parse_doors(items) {
                                    Err(e) => Err(e),
                                    Ok(ds) => Ok(
                                        WallView {
                                            position_start: ps,
                                            position_end: pe,
                                            connection_start: cs,
                                            connection_end: ce,
                                            doors: Some(ds),
                                        },
                                    ),
                                },
                            },
                        },
                    },
                },
            },
        },
    }
}

/// Reads an optional connection field, exactly as `spec_parse_connection`
/// says.
fn parse_connection(j: &JsonValue, name: &str) -> (r: Result<Option<Connection>, LayoutError>)
    ensures
        r == spec_parse_connection(j@, name@),
{
    match j.get(name) {
        None => Ok(None),
        Some(e) => match e.peel() {
            JsonValue::Null => Ok(None),
            _ => match Position::try_from_json(e) {
                Ok(p) => Ok(Some(p)),
                Err(e2) => Err(e2),
            },
        },
    }
}

/// Reads a list of doors, exactly as `spec_parse_doors` says.
fn parse_doors(items: &Vec<JsonValue>) -> (r: Result<Vec<Door>, LayoutError>)
    ensures
        match r {
            Ok(ds) => spec_parse_doors(spec_json_views(items@)) == Ok::<Seq<Door>, LayoutError>(
                ds@,
            ),
            Err(e) => spec_parse_doors(spec_json_views(items@)) == Err::<Seq<Door>, LayoutError>(
                e,
            ),
        },
{
    let ghost iv = spec_json_views(items@);
    proof {
        lemma_json_views_len(items@);
    }
    let mut out: Vec<Door> = Vec::new();
    let mut i: usize = 0;
    proof {
        assert(iv.subrange(0, iv.len() as int) =~= iv);
        match spec_parse_doors(iv) {
            Ok(xs) => {
                assert(out@ + xs =~~= xs);
            },
            Err(_) => {},
        }
    }
    while i < items.len()
        invariant
            i <= items@.len(),
            iv == spec_json_views(items@),
            iv.len() == items@.len(),
            spec_parse_doors(iv) == (match spec_parse_doors(iv.subrange(i as int, iv.len() as int)) {
                Ok(ds) => Ok::<Seq<Door>, LayoutError>(out@ + ds),
                Err(e) => Err::<Seq<Door>, LayoutError>(e),
            }),
        decreases items@.len() - i,
    {
        proof {
            lemma_json_views_index(items@, i as int);
        }
        let ghost before = iv.subrange(i as int, iv.len() as int);
        let d = match Door::try_from_json(&items[i]) {
            Ok(d) => d,
            Err(_) => {
                proof {
                    assert(before[0] == iv[i as int]);
                }
                return Err(LayoutError::InvalidElement);
            },
        };
        let ghost out0 = out@;
        out.push(d);
        i = i + 1;
        proof {
            assert(before[0] == iv[i - 1]);
            assert(before.subrange(1, before.len() as int) =~~= iv.subrange(
                i as int,
                iv.len() as int,
            ));
            let rest = iv.subrange(i as int, iv.len() as int);
            match spec_parse_doors(rest) {
                Ok(ds) => {
                    assert(out0 + (seq![d] + ds) =~= out@ + ds);
                },
                Err(_) => {},
            }
        }
    }
    proof {
        assert(iv.subrange(iv.len() as int, iv.len() as int) =~~= Seq::<JsonView>::empty());
        assert(out@ + Seq::<Door>::empty() =~= out@);
    }
    Ok(out)
}

impl Default for Wall {
    /// A degenerate wall at the origin, with no connections and no doors.
    fn default() -> (r: Self)
        ensures
            r@.position_start == (Position {
                x: crate::house_layout::dimensions::Centimeters(0),
                y: crate::house_layout::dimensions::Centimeters(0),
            }),
            r@.position_end == r@.position_start,
            r@.connection_start is None,
            r@.connection_end is None,
            r@.doors is None,
    {
        let origin = Position {
            x: crate::house_layout::dimensions::Centimeters(0),
            y: crate::house_layout::dimensions::Centimeters(0),
        };
        Wall {
            position_start: origin,
            position_end: origin,
            connection_start: None,
            connection_end: None,
            doors: None,
        }
    }
}

impl Wall {
    /// A wall from its parts.
    pub fn new(
        position_start: Position,
        position_end: Position,
        connection_start: Option<Connection>,
        connection_end: Option<Connection>,
        doors: Option<Vec<Door>>,
    ) -> (r: Self)
        ensures
            r@.position_start == position_start,
            r@.position_end == position_end,
            r@.connection_start == connection_start,
            r@.connection_end == connection_end,
            (match doors {
                Some(ds) => r@.doors matches Some(ds2) && ds2 == ds@,
                None => r@.doors is None,
            }),
    {
        Self { position_start, position_end, connection_start, connection_end, doors }
    }

    /// One wall between each pair of successive connection points, closing
    /// the loop from the last point back to the first; each wall records
    /// its two endpoints as its connections and has no doors.
    pub fn from_connections(connections: Vec<Connection>) -> (r: Vec<Wall>)
        ensures
            r@.len() == connections@.len(),
            forall|i: int|
                0 <= i < r@.len() ==> {
                    let w = #[trigger] r@[i]@;
                    &&& w.position_start == connections@[i]
                    &&& w.position_end == connections@[(i + 1) % (connections@.len() as int)]
                    &&& w.connection_start == Some(connections@[i])
                    &&& w.connection_end == Some(
                        connections@[(i + 1) % (connections@.len() as int)],
                    )
                    &&& w.doors is None
                },
    {
        let mut walls: Vec<Wall> = Vec::new();
        let n = connections.len();
        let mut idx: usize = 0;
        while idx < n
            invariant
                idx <= n,
                n == connections@.len(),
                walls@.len() == idx,
                forall|i: int|
                    0 <= i < idx ==> {
                        let w = #[trigger] walls@[i]@;
                        &&& w.position_start == connections@[i]
                        &&& w.position_end == connections@[(i + 1) % (n as int)]
                        &&& w.connection_start == Some(connections@[i])
                        &&& w.connection_end == Some(connections@[(i + 1) % (n as int)])
                        &&& w.doors is None
                    },
            decreases n - idx,
        {
            let here = connections[idx];
            let next = connections[(idx + 1) % n];
            walls.push(Wall::new(here, next, Some(here), Some(next), None));
            idx = idx + 1;
        }
        walls
    }

    /// The JSON form of the wall, exactly as `spec_wall_json` says.
    #[verifier::rlimit(60)]
    pub fn to_json(&self) -> (r: JsonValue)
        ensures
            r@ == spec_wall_json(self@),
    {
        let connection_end: JsonValue = match &self.connection_end {
            Some(c) => c.to_json(),
            None => JsonValue::Null,
        };
        proof {
            assert(connection_end@ == spec_connection_json(self@.connection_end));
        }
        let connection_start: JsonValue = match &self.connection_start {
            Some(c) => c.to_json(),
            None => JsonValue::Null,
        };
        proof {
            assert(connection_start@ == spec_connection_json(self@.connection_start));
        }
        let doors: JsonValue = match &self.doors {
            Some(ds) => {
                let mut arr: Vec<JsonValue> = Vec::new();
                let mut i: usize = 0;
                while i < ds.len()
                    invariant
                        i <= ds@.len(),
                        arr@.len() == i,
                        forall|j: int|
                            0 <= j < i ==> #[trigger] arr@[j]@ == spec_door_json(ds@[j]),
                    decreases ds@.len() - i,
                {
                    arr.push(ds[i].to_json());
                    i = i + 1;
                }
                let ghost av = arr@;
                let r = JsonValue::Array(arr);
                proof {
                    assert forall|j: int| 0 <= j < ds@.len() implies spec_json_view(
                        #[trigger] av[j],
                    ) == spec_door_json(ds@[j]) by {
                        assert(av[j]@ == spec_door_json(ds@[j]));
                    }
                    lemma_doors_json(ds@, av);
                    assert(r@ == JsonView::Array(spec_doors_json(ds@)));
                }
                r
            },
            None => JsonValue::Null,
        };
        proof {
            assert(doors@ == (match self@.doors {
                Some(ds) => JsonView::Array(spec_doors_json(ds)),
                None => JsonView::Null,
            }));
        }
        let mut items: Vec<JsonValue> = Vec::new();
        items.push(
            JsonValue::Entry {
                name: String::from_str("position_start"),
                value: Box::new(self.position_start.to_json()),
            },
        );
        items.push(
            JsonValue::Entry {
                name: String::from_str("position_end"),
                value: Box::new(self.position_end.to_json()),
            },
        );
        items.push(
            JsonValue::Entry {
                name: String::from_str("connection_end"),
                value: Box::new(connection_end),
            },
        );
        items.push(
            JsonValue::Entry {
                name: String::from_str("connection_start"),
                value: Box::new(connection_start),
            },
        );
        items.push(JsonValue::Entry { name: String::from_str("doors"), value: Box::new(doors) });
        let ghost iv = items@;
        let r = JsonValue::Object(items);
        proof {
            reveal_with_fuel(spec_json_view, 2);
            let want = spec_wall_json(self@)->Object_0;
            assert(want.len() == 5);
            assert(spec_json_view(iv[0]) == want[0]);
            assert(spec_json_view(iv[1]) == want[1]);
            assert(spec_json_view(iv[2]) == want[2]);
            assert(spec_json_view(iv[3]) == want[3]);
            assert(spec_json_view(iv[4]) == want[4]);
            lemma_views_elems(iv, want);
            assert(r@ == JsonView::Object(spec_json_views(iv)));
            assert(spec_json_views(iv) == want);
            assert(spec_wall_json(self@) is Object);
            assert(r@ == spec_wall_json(self@));
        }
        r
    }

    /// Reads a wall back from JSON, exactly as `spec_parse_wall` says.
    pub fn try_from_json(value: &JsonValue) -> (r: Result<Wall, LayoutError>)
        ensures
            match r {
                Ok(w) => spec_parse_wall(value@) == Ok::<WallView, LayoutError>(w@),
                Err(e) => spec_parse_wall(value@) == Err::<WallView, LayoutError>(e),
            },
    {
        let pse = match value.get("position_start") {
            Some(e) => e,
            None => {
                return Err(LayoutError::MissingField);
            },
        };
        let position_start = match Position::try_from_json(pse) {
            Ok(p) => p,
            Err(e) => {
                return Err(e);
            },
        };
        let pee = match value.get("position_end") {
            Some(e) => e,
            None => {
                return Err(LayoutError::MissingField);
            },
        };
        let position_end = match Position::try_from_json(pee) {
            Ok(p) => p,
            Err(e) => {
                return Err(e);
            },
        };
        let connection_start = match parse_connection(value, "connection_start") {
            Ok(c) => c,
            Err(e) => {
                return Err(e);
            },
        };
        let connection_end = match parse_connection(value, "connection_end") {
            Ok(c) => c,
            Err(e) => {
                return Err(e);
            },
        };
        let doors: Option<Vec<Door>> = match json_array_field(value, "doors") {
            Ok(None) => None,
            Ok(Some(items)) => match parse_doors(items) {
                Ok(ds) => Some(ds),
                Err(e) => {
                    return Err(e);
                },
            },
            Err(e) => {
                return Err(e);
            },
        };
        Ok(Wall { position_start, position_end, connection_start, connection_end, doors })
    }
}

/// A list of door images, elementwise, is the JSON form of the doors.
proof fn lemma_doors_json(ds: Seq<Door>, av: Seq<JsonValue>)
    requires
        av.len() == ds.len(),
        forall|j: int| 0 <= j < ds.len() ==> #[trigger] spec_json_view(av[j]) == spec_door_json(
            ds[j],
        ),
    ensures
        spec_json_views(av) == spec_doors_json(ds),
    decreases ds.len(),
{
    if ds.len() > 0 {
        let vt = ds.subrange(1, ds.len() as int);
        let at = av.subrange(1, av.len() as int);
        assert forall|j: int| 0 <= j < vt.len() implies spec_json_view(#[trigger] at[j])
            == spec_door_json(vt[j]) by {
            assert(at[j] == av[j + 1]);
            assert(vt[j] == ds[j + 1]);
            assert(spec_json_view(av[j + 1]) == spec_door_json(ds[j + 1]));
        }
        lemma_doors_json(vt, at);
        assert(spec_json_view(av[0]) == spec_door_json(ds[0]));
        assert(spec_json_views(av) =~= spec_doors_json(ds));
    } else {
        assert(spec_json_views(av) =~= spec_doors_json(ds));
    }
}

} // verus!
