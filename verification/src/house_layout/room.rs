//! Rooms: a set of walls, a ceiling height, and the gauges mounted in the
//! room as they appear in the layout JSON.
use vstd::prelude::*;

use crate::house_layout::dimensions::{centimeters_of, spec_centimeters_of, Centimeters};
use crate::house_layout::wall::{spec_parse_wall, spec_wall_json, Wall, WallView};
use crate::types::fire_alarm::{FireAlarm, FireAlarmState};
use crate::types::{Gauge, GaugeState};
use crate::json::{
    json_array_field, json_number_field, lemma_json_views_index, lemma_json_views_len,
    lemma_views_elems, spec_json_array_field, spec_json_get, spec_json_number_field,
    spec_json_peel, spec_json_view, spec_json_views, JsonValue, JsonView, LayoutError,
};

verus! {

/// A gauge as it appears in the layout JSON: its name and its current
/// state tag.
#[derive(Debug)]
pub struct GaugeJson {
    pub name: String,
    pub state_tag: u8,
}

/// The spec-level image of a gauge in the layout JSON.
#[verifier::ext_equal]
pub ghost struct GaugeJsonView {
    pub name: Seq<char>,
    pub state_tag: u8,
}

impl View for GaugeJson {
    type V = GaugeJsonView;

    open spec fn view(&self) -> GaugeJsonView {
        GaugeJsonView { name: self.name@, state_tag: self.state_tag }
    }
}

/// The JSON form of a gauge: an object with its name and its state tag.
pub open spec fn spec_gauge_json(g: GaugeJsonView) -> JsonView {
    JsonView::Object(
        seq![
            JsonView::Entry { name: "name"@, value: Box::new(JsonView::Text(g.name)) },
            JsonView::Entry { name: "state"@, value: Box::new(
                JsonView::Number(g.state_tag as u64),
            ) },
        ],
    )
}

/// What the gauge parser makes of a JSON value: a `name` text field and a
/// `state` number field must be present; tags beyond one byte saturate.
pub open spec fn spec_parse_gauge(j: JsonView) -> Result<GaugeJsonView, LayoutError> {
    match spec_json_get(j, "name"@) {
        None => Err(LayoutError::MissingField),
        Some(ne) => match spec_json_peel(ne) {
            JsonView::Text(name) => match spec_json_number_field(j, "state"@) {
                Err(e) => Err(e),
                Ok(None) => Err(LayoutError::MissingField),
                Ok(Some(n)) => Ok(
                    GaugeJsonView {
                        name,
                        state_tag: if n > 255 {
                            255u8
                        } else {
                            n as u8
                        },
                    },
                ),
            },
            _ => Err(LayoutError::TextExpected),
        },
    }
}

impl GaugeJson {
    /// A gauge from its name and state tag.
    pub fn new(name: &String, state_tag: u8) -> (r: Self)
        ensures
            r@.name == name@,
            r@.state_tag == state_tag,
    {
        GaugeJson { name: name.clone(), state_tag }
    }

    /// The JSON form of the gauge, exactly as `spec_gauge_json` says.
    pub fn to_json(&self) -> (r: JsonValue)
        ensures
            r@ == spec_gauge_json(self@),
    {
        let mut items: Vec<JsonValue> = Vec::new();
        items.push(
            JsonValue::Entry {
                name: String::from_str("name"),
                value: Box::new(JsonValue::Text(self.name.clone())),
            },
        );
        items.push(
            JsonValue::Entry {
                name: String::from_str("state"),
                value: Box::new(JsonValue::Number(self.state_tag as u64)),
            },
        );
        let ghost iv = items@;
        let r = JsonValue::Object(items);
        proof {
            reveal_with_fuel(spec_json_view, 3);
            let want = seq![
                JsonView::Entry { name: "name"@, value: Box::new(JsonView::Text(self@.name)) },
                JsonView::Entry { name: "state"@, value: Box::new(
                    JsonView::Number(self@.state_tag as u64),
                ) },
            ];
            assert(spec_json_view(iv[0]) == want[0]);
            assert(spec_json_view(iv[1]) == want[1]);
            lemma_views_elems(iv, want);
            assert(r@ == spec_gauge_json(self@));
        }
        r
    }

    /// Reads a gauge back from JSON, exactly as `spec_parse_gauge` says.
    pub fn try_from_json(value: &JsonValue) -> (r: Result<GaugeJson, LayoutError>)
        ensures
            match r {
                Ok(g) => spec_parse_gauge(value@) == Ok::<GaugeJsonView, LayoutError>(g@),
                Err(e) => spec_parse_gauge(value@) == Err::<GaugeJsonView, LayoutError>(e),
            },
    {
        let ne = match value.get("name") {
            Some(e) => e,
            None => {
                return Err(LayoutError::MissingField);
            },
        };
        let name = match ne.peel() {
            JsonValue::Text(s) => s.clone(),
            _ => {
                return Err(LayoutError::TextExpected);
            },
        };
        let tag = match json_number_field(value, "state") {
            Ok(Some(n)) => if n > 255 {
                255u8
            } else {
                n as u8
            },
            Ok(None) => {
                return Err(LayoutError::MissingField);
            },
            Err(e) => {
                return Err(e);
            },
        };
        Ok(GaugeJson { name, state_tag: tag })
    }
}

/// A room: its walls, its ceiling height, and its gauges.
#[derive(Debug)]
pub struct Room {
    pub walls: Vec<Wall>,
    pub height: Centimeters,
    pub gauges: Vec<GaugeJson>,
}

/// The spec-level image of a room.
#[verifier::ext_equal]
pub ghost struct RoomView {
    pub walls: Seq<WallView>,
    pub height: Centimeters,
    pub gauges: Seq<GaugeJsonView>,
}

impl View for Room {
    type V = RoomView;

    open spec fn view(&self) -> RoomView {
        RoomView {
            walls: Seq::new(self.walls@.len(), |i: int| self.walls@[i]@),
            height: self.height,
            gauges: Seq::new(self.gauges@.len(), |i: int| self.gauges@[i]@),
        }
    }
}

/// The JSON forms of a list of walls, in order.
pub open spec fn spec_walls_json(ws: Seq<WallView>) -> Seq<JsonView>
    decreases ws.len(),
{
    if ws.len() == 0 {
        Seq::empty()
    } else {
        seq![spec_wall_json(ws[0])] + spec_walls_json(ws.subrange(1, ws.len() as int))
    }
}

/// The JSON forms of a list of gauges, in order.
pub open spec fn spec_gauges_json(gs: Seq<GaugeJsonView>) -> Seq<JsonView>
    decreases gs.len(),
{
    if gs.len() == 0 {
        Seq::empty()
    } else {
        seq![spec_gauge_json(gs[0])] + spec_gauges_json(gs.subrange(1, gs.len() as int))
    }
}

/// The JSON form of a room: an object with its walls, its height, and its
/// gauges.
pub open spec fn spec_room_json(r: RoomView) -> JsonView {
    JsonView::Object(
        seq![
            JsonView::Entry { name: "walls"@, value: Box::new(
                JsonView::Array(spec_walls_json(r.walls)),
            ) },
            JsonView::Entry { name: "height"@, value: Box::new(
                JsonView::Number(r.height.0 as u64),
            ) },
            JsonView::Entry { name: "gauges"@, value: Box::new(
                JsonView::Array(spec_gauges_json(r.gauges)),
            ) },
        ],
    )
}

/// What reading a list of walls yields: every element must read back as a
/// wall.
pub open spec fn spec_parse_walls(items: Seq<JsonView>) -> Result<Seq<WallView>, LayoutError>
    decreases items.len(),
{
    if items.len() == 0 {
        Ok(Seq::empty())
    } else {
        match spec_parse_wall(items[0]) {
            Err(_) => Err(LayoutError::InvalidElement),
            Ok(w) => match spec_parse_walls(items.subrange(1, items.len() as int)) {
                Err(e) => Err(e),
                Ok(ws) => Ok(seq![w] + ws),
            },
        }
    }
}

/// What reading a list of gauges yields: every element must read back as
/// a gauge.
pub open spec fn spec_parse_gauges(items: Seq<JsonView>) -> Result<Seq<GaugeJsonView>, LayoutError>
    decreases items.len(),
{
    if items.len() == 0 {
        Ok(Seq::empty())
    } else {
        match spec_parse_gauge(items[0]) {
            Err(_) => Err(LayoutError::InvalidElement),
            Ok(g) => match spec_parse_gauges(items.subrange(1, items.len() as int)) {
                Err(e) => Err(e),
                Ok(gs) => Ok(seq![g] + gs),
            },
        }
    }
}

/// What the room parser makes of a JSON value: a numeric `height` field is
/// required; `walls` and `gauges` are optional arrays, empty when absent.
pub open spec fn spec_parse_room(j: JsonView) -> Result<RoomView, LayoutError> {
    match spec_json_number_field(j, "height"@) {
        Err(e) => Err(e),
        Ok(None) => Err(LayoutError::MissingField),
        Ok(Some(h)) => {
            let walls = match spec_json_array_field(j, "walls"@) {
                Err(e) => Err(e),
                Ok(None) => Ok(Seq::<WallView>::empty()),
                Ok(Some(items)) => spec_parse_walls(items),
            };
            match walls {
                Err(e) => Err(e),
                Ok(ws) => {
                    let gauges = match spec_json_array_field(j, "gauges"@) {
                        Err(e) => Err(e),
                        Ok(None) => Ok(Seq::<GaugeJsonView>::empty()),
                        Ok(Some(items)) => spec_parse_gauges(items),
                    };
                    match gauges {
                        Err(e) => Err(e),
                        Ok(gs) => Ok(
                            RoomView { walls: ws, height: spec_centimeters_of(h), gauges: gs },
                        ),
                    }
                },
            }
        },
    }
}

/// Reads a list of walls, exactly as `spec_parse_walls` says.
fn parse_walls(items: &Vec<JsonValue>) -> (r: Result<Vec<Wall>, LayoutError>)
    ensures
        match r {
            Ok(ws) => spec_parse_walls(spec_json_views(items@)) matches Ok(ws2) && ws2 == Seq::new(
                ws@.len(),
                |i: int| ws@[i]@,
            ),
            Err(e) => spec_parse_walls(spec_json_views(items@)) == Err::<Seq<WallView>, LayoutError>(
                e,
            ),
        },
{
    let ghost iv = spec_json_views(items@);
    proof {
        lemma_json_views_len(items@);
    }
    let mut out: Vec<Wall> = Vec::new();
    let mut i: usize = 0;
    proof {
        assert(iv.subrange(0, iv.len() as int) =~= iv);
        match spec_parse_walls(iv) {
            Ok(xs) => {
                assert(Seq::new(out@.len(), |k: int| out@[k]@) + xs =~~= xs);
            },
            Err(_) => {},
        }
    }
    while i < items.len()
        invariant
            i <= items@.len(),
            iv == spec_json_views(items@),
            iv.len() == items@.len(),
            out@.len() == i,
            spec_parse_walls(iv) == (match spec_parse_walls(
                iv.subrange(i as int, iv.len() as int),
            ) {
                Ok(ws) => Ok::<Seq<WallView>, LayoutError>(
                    Seq::new(out@.len(), |k: int| out@[k]@) + ws,
                ),
                Err(e) => Err::<Seq<WallView>, LayoutError>(e),
            }),
        decreases items@.len() - i,
    {
        proof {
            lemma_json_views_index(items@, i as int);
        }
        let ghost before = iv.subrange(i as int, iv.len() as int);
        let ghost out0 = Seq::new(out@.len(), |k: int| out@[k]@);
        let w = match Wall::try_from_json(&items[i]) {
            Ok(w) => w,
            Err(_) => {
                proof {
                    assert(before[0] == iv[i as int]);
                }
                return Err(LayoutError::InvalidElement);
            },
        };
        out.push(w);
        i = i + 1;
        proof {
            assert(before[0] == iv[i - 1]);
            assert(before.subrange(1, before.len() as int) =~~= iv.subrange(
                i as int,
                iv.len() as int,
            ));
            let rest = iv.subrange(i as int, iv.len() as int);
            match spec_parse_walls(rest) {
                Ok(ws) => {
                    assert(out0 + (seq![w@] + ws) =~~= Seq::new(out@.len(), |k: int| out@[k]@)
                        + ws);
                },
                Err(_) => {},
            }
        }
    }
    proof {
        assert(iv.subrange(iv.len() as int, iv.len() as int) =~~= Seq::<JsonView>::empty());
        assert(Seq::new(out@.len(), |k: int| out@[k]@) + Seq::<WallView>::empty() =~~= Seq::new(
            out@.len(),
            |k: int| out@[k]@,
        ));
    }
    Ok(out)
}

/// Reads a list of gauges, exactly as `spec_parse_gauges` says.
fn parse_gauges(items: &Vec<JsonValue>) -> (r: Result<Vec<GaugeJson>, LayoutError>)
    ensures
        match r {
            Ok(gs) => spec_parse_gauges(spec_json_views(items@)) matches Ok(gs2) && gs2
                == Seq::new(gs@.len(), |i: int| gs@[i]@),
            Err(e) => spec_parse_gauges(spec_json_views(items@)) == Err::<
                Seq<GaugeJsonView>,
                LayoutError,
            >(e),
        },
{
    let ghost iv = spec_json_views(items@);
    proof {
        lemma_json_views_len(items@);
    }
    let mut out: Vec<GaugeJson> = Vec::new();
    let mut i: usize = 0;
    proof {
        assert(iv.subrange(0, iv.len() as int) =~= iv);
        match spec_parse_gauges(iv) {
            Ok(xs) => {
                assert(Seq::new(out@.len(), |k: int| out@[k]@) + xs =~~= xs);
            },
            Err(_) => {},
        }
    }
    while i < items.len()
        invariant
            i <= items@.len(),
            iv == spec_json_views(items@),
            iv.len() == items@.len(),
            out@.len() == i,
            spec_parse_gauges(iv) == (match spec_parse_gauges(
                iv.subrange(i as int, iv.len() as int),
            ) {
                Ok(gs) => Ok::<Seq<GaugeJsonView>, LayoutError>(
                    Seq::new(out@.len(), |k: int| out@[k]@) + gs,
                ),
                Err(e) => Err::<Seq<GaugeJsonView>, LayoutError>(e),
            }),
        decreases items@.len() - i,
    {
        proof {
            lemma_json_views_index(items@, i as int);
        }
        let ghost before = iv.subrange(i as int, iv.len() as int);
        let ghost out0 = Seq::new(out@.len(), |k: int| out@[k]@);
        let g = match GaugeJson::try_from_json(&items[i]) {
            Ok(g) => g,
            Err(_) => {
                proof {
                    assert(before[0] == iv[i as int]);
                }
                return Err(LayoutError::InvalidElement);
            },
        };
        out.push(g);
        i = i + 1;
        proof {
            assert(before[0] == iv[i - 1]);
            assert(before.subrange(1, before.len() as int) =~~= iv.subrange(
                i as int,
                iv.len() as int,
            ));
            let rest = iv.subrange(i as int, iv.len() as int);
            match spec_parse_gauges(rest) {
                Ok(gs) => {
                    assert(out0 + (seq![g@] + gs) =~~= Seq::new(out@.len(), |k: int| out@[k]@)
                        + gs);
                },
                Err(_) => {},
            }
        }
    }
    proof {
        assert(iv.subrange(iv.len() as int, iv.len() as int) =~~= Seq::<JsonView>::empty());
        assert(Seq::new(out@.len(), |k: int| out@[k]@) + Seq::<GaugeJsonView>::empty() =~~=
            Seq::new(out@.len(), |k: int| out@[k]@));
    }
    Ok(out)
}

/// A list of wall images, elementwise, is the JSON form of the walls.
proof fn lemma_walls_json(ws: Seq<WallView>, av: Seq<JsonValue>)
    requires
        av.len() == ws.len(),
        forall|j: int| 0 <= j < ws.len() ==> #[trigger] spec_json_view(av[j]) == spec_wall_json(
            ws[j],
        ),
    ensures
        spec_json_views(av) == spec_walls_json(ws),
    decreases ws.len(),
{
    if ws.len() > 0 {
        let vt = ws.subrange(1, ws.len() as int);
        let at = av.subrange(1, av.len() as int);
        assert forall|j: int| 0 <= j < vt.len() implies spec_json_view(#[trigger] at[j])
            == spec_wall_json(vt[j]) by {
            assert(at[j] == av[j + 1]);
            assert(vt[j] == ws[j + 1]);
            assert(spec_json_view(av[j + 1]) == spec_wall_json(ws[j + 1]));
        }
        lemma_walls_json(vt, at);
        assert(spec_json_view(av[0]) == spec_wall_json(ws[0]));
        assert(spec_json_views(av) =~= spec_walls_json(ws));
    } else {
        assert(spec_json_views(av) =~= spec_walls_json(ws));
    }
}

/// A list of gauge images, elementwise, is the JSON form of the gauges.
proof fn lemma_gauges_json(gs: Seq<GaugeJsonView>, av: Seq<JsonValue>)
    requires
        av.len() == gs.len(),
        forall|j: int| 0 <= j < gs.len() ==> #[trigger] spec_json_view(av[j]) == spec_gauge_json(
            gs[j],
        ),
    ensures
        spec_json_views(av) == spec_gauges_json(gs),
    decreases gs.len(),
{
    if gs.len() > 0 {
        let vt = gs.subrange(1, gs.len() as int);
        let at = av.subrange(1, av.len() as int);
        assert forall|j: int| 0 <= j < vt.len() implies spec_json_view(#[trigger] at[j])
            == spec_gauge_json(vt[j]) by {
            assert(at[j] == av[j + 1]);
            assert(vt[j] == gs[j + 1]);
            assert(spec_json_view(av[j + 1]) == spec_gauge_json(gs[j + 1]));
        }
        lemma_gauges_json(vt, at);
        assert(spec_json_view(av[0]) == spec_gauge_json(gs[0]));
        assert(spec_json_views(av) =~= spec_gauges_json(gs));
    } else {
        assert(spec_json_views(av) =~= spec_gauges_json(gs));
    }
}

impl Default for Room {
    /// A bare room: one default wall, height zero, and one disabled test
    /// fire alarm.
    fn default() -> (r: Self)
        ensures
            r@.walls.len() == 1,
            r@.height.0 == 0,
            r@.gauges.len() == 1,
            r@.gauges[0].name == "Test"@,
            r@.gauges[0].state_tag == FireAlarmState::Disabled.wire_tag(),
    {
        let mut walls: Vec<Wall> = Vec::new();
        walls.push(Wall::default());
        let alarm = FireAlarm::new(String::from_str("Test"), FireAlarmState::Disabled);
        let mut gauges: Vec<GaugeJson> = Vec::new();
        let (tag, _) = alarm.serialize_state();
        gauges.push(GaugeJson::new(alarm.name(), tag));
        Room { walls, height: Centimeters(0), gauges }
    }
}

impl Room {
    /// A room from its parts.
    pub fn new(walls: Vec<Wall>, height: Centimeters, gauges: Vec<GaugeJson>) -> (r: Self)
        ensures
            r@.walls == Seq::new(walls@.len(), |i: int| walls@[i]@),
            r@.height == height,
            r@.gauges == Seq::new(gauges@.len(), |i: int| gauges@[i]@),
    {
        Self { walls, height, gauges }
    }

    /// The JSON form of the room, exactly as `spec_room_json` says.
    pub fn to_json(&self) -> (r: JsonValue)
        ensures
            r@ == spec_room_json(self@),
    {
        let mut warr: Vec<JsonValue> = Vec::new();
        let mut i: usize = 0;
        while i < self.walls.len()
            invariant
                i <= self.walls@.len(),
                warr@.len() == i,
                forall|j: int|
                    0 <= j < i ==> #[trigger] warr@[j]@ == spec_wall_json(self.walls@[j]@),
            decreases self.walls@.len() - i,
        {
            warr.push(self.walls[i].to_json());
            i = i + 1;
        }
        let ghost wav = warr@;
        let walls = JsonValue::Array(warr);
        proof {
            assert forall|j: int| 0 <= j < self@.walls.len() implies spec_json_view(
                #[trigger] wav[j],
            ) == spec_wall_json(self@.walls[j]) by {
                assert(self@.walls[j] == self.walls@[j]@);
                assert(wav[j]@ == spec_wall_json(self.walls@[j]@));
            }
            lemma_walls_json(self@.walls, wav);
            assert(walls@ == JsonView::Array(spec_walls_json(self@.walls)));
        }
        let mut garr: Vec<JsonValue> = Vec::new();
        let mut k: usize = 0;
        while k < self.gauges.len()
            invariant
                k <= self.gauges@.len(),
                garr@.len() == k,
                forall|j: int|
                    0 <= j < k ==> #[trigger] garr@[j]@ == spec_gauge_json(self.gauges@[j]@),
            decreases self.gauges@.len() - k,
        {
            garr.push(self.gauges[k].to_json());
            k = k + 1;
        }
        let ghost gav = garr@;
        let gauges = JsonValue::Array(garr);
        proof {
            assert forall|j: int| 0 <= j < self@.gauges.len() implies spec_json_view(
                #[trigger] gav[j],
            ) == spec_gauge_json(self@.gauges[j]) by {
                assert(self@.gauges[j] == self.gauges@[j]@);
                assert(gav[j]@ == spec_gauge_json(self.gauges@[j]@));
            }
            lemma_gauges_json(self@.gauges, gav);
            assert(gauges@ == JsonView::Array(spec_gauges_json(self@.gauges)));
        }
        let mut items: Vec<JsonValue> = Vec::new();
        items.push(JsonValue::Entry { name: String::from_str("walls"), value: Box::new(walls) });
        items.push(
            JsonValue::Entry {
                name: String::from_str("height"),
                value: Box::new(JsonValue::Number(self.height.0 as u64)),
            },
        );
        items.push(JsonValue::Entry { name: String::from_str("gauges"), value: Box::new(gauges) });
        let ghost iv = items@;
        let r = JsonValue::Object(items);
        proof {
            reveal_with_fuel(spec_json_view, 2);
            let want = seq![
                JsonView::Entry { name: "walls"@, value: Box::new(
                    JsonView::Array(spec_walls_json(self@.walls)),
                ) },
                JsonView::Entry { name: "height"@, value: Box::new(
                    JsonView::Number(self@.height.0 as u64),
                ) },
                JsonView::Entry { name: "gauges"@, value: Box::new(
                    JsonView::Array(spec_gauges_json(self@.gauges)),
                ) },
            ];
            assert(spec_json_view(iv[0]) == want[0]);
            assert(spec_json_view(iv[1]) == want[1]);
            assert(spec_json_view(iv[2]) == want[2]);
            lemma_views_elems(iv, want);
            assert(r@ == spec_room_json(self@));
        }
        r
    }

    /// Reads a room back from JSON, exactly as `spec_parse_room` says.
    pub fn try_from_json(value: &JsonValue) -> (r: Result<Room, LayoutError>)
        ensures
            match r {
                Ok(room) => spec_parse_room(value@) == Ok::<RoomView, LayoutError>(room@),
                Err(e) => spec_parse_room(value@) == Err::<RoomView, LayoutError>(e),
            },
    {
        let height = match json_number_field(value, "height") {
            Ok(Some(h)) => centimeters_of(h),
            Ok(None) => {
                return Err(LayoutError::MissingField);
            },
            Err(e) => {
                return Err(e);
            },
        };
        let walls: Vec<Wall> = match json_array_field(value, "walls") {
            Ok(None) => Vec::new(),
            Ok(Some(items)) => match parse_walls(items) {
                Ok(ws) => ws,
                Err(e) => {
                    return Err(e);
                },
            },
            Err(e) => {
                return Err(e);
            },
        };
        let gauges: Vec<GaugeJson> = match json_array_field(value, "gauges") {
            Ok(None) => Vec::new(),
            Ok(Some(items)) => match parse_gauges(items) {
                Ok(gs) => gs,
                Err(e) => {
                    return Err(e);
                },
            },
            Err(e) => {
                return Err(e);
            },
        };
        let room = Room { walls, height, gauges };
        proof {
            assert(spec_parse_room(value@) matches Ok(v) && v =~~= room@);
        }
        Ok(room)
    }
}

} // verus!
