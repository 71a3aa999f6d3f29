//! Floors: a numbered storey holding its rooms.
use vstd::prelude::*;

use crate::house_layout::room::{spec_room_json, Room, RoomView};
use crate::json::{
    lemma_views_elems, spec_json_view, spec_json_views, JsonValue, JsonView,
};

verus! {

/// One storey of a house: its rooms and its number.
#[derive(Debug)]
pub struct Floor {
    pub rooms: Vec<Room>,
    pub number: u8,
}

/// The spec-level image of a floor.
#[verifier::ext_equal]
pub ghost struct FloorView {
    pub rooms: Seq<RoomView>,
    pub number: u8,
}

impl View for Floor {
    type V = FloorView;

    open spec fn view(&self) -> FloorView {
        FloorView {
            rooms: Seq::new(self.rooms@.len(), |i: int| self.rooms@[i]@),
            number: self.number,
        }
    }
}

/// The JSON forms of a list of rooms, in order.
pub open spec fn spec_rooms_json(rs: Seq<RoomView>) -> Seq<JsonView>
    decreases rs.len(),
{
    if rs.len() == 0 {
        Seq::empty()
    } else {
        seq![spec_room_json(rs[0])] + spec_rooms_json(rs.subrange(1, rs.len() as int))
    }
}

/// The JSON form of a floor: an object with its rooms and its number.
pub open spec fn spec_floor_json(f: FloorView) -> JsonView {
    JsonView::Object(
        seq![
            JsonView::Entry { name: "rooms"@, value: Box::new(
                JsonView::Array(spec_rooms_json(f.rooms)),
            ) },
            JsonView::Entry { name: "number"@, value: Box::new(
                JsonView::Number(f.number as u64),
            ) },
        ],
    )
}

/// A list of room images, elementwise, is the JSON form of the rooms.
proof fn lemma_rooms_json(rs: Seq<RoomView>, av: Seq<JsonValue>)
    requires
        av.len() == rs.len(),
        forall|j: int| 0 <= j < rs.len() ==> #[trigger] spec_json_view(av[j]) == spec_room_json(
            rs[j],
        ),
    ensures
        spec_json_views(av) == spec_rooms_json(rs),
    decreases rs.len(),
{
    if rs.len() > 0 {
        let vt = rs.subrange(1, rs.len() as int);
        let at = av.subrange(1, av.len() as int);
        assert forall|j: int| 0 <= j < vt.len() implies spec_json_view(#[trigger] at[j])
            == spec_room_json(vt[j]) by {
            assert(at[j] == av[j + 1]);
            assert(vt[j] == rs[j + 1]);
            assert(spec_json_view(av[j + 1]) == spec_room_json(rs[j + 1]));
        }
        lemma_rooms_json(vt, at);
        assert(spec_json_view(av[0]) == spec_room_json(rs[0]));
        assert(spec_json_views(av) =~= spec_rooms_json(rs));
    } else {
        assert(spec_json_views(av) =~= spec_rooms_json(rs));
    }
}

impl Default for Floor {
    /// Floor zero, furnished with the default room.
    fn default() -> (r: Self)
        ensures
            r@.rooms.len() == 1,
            r@.number == 0,
    {
        let mut rooms: Vec<Room> = Vec::new();
        rooms.push(Room::default());
        Floor { rooms, number: 0 }
    }
}

impl Floor {
    /// A floor from its rooms and its number.
    pub fn new(rooms: Vec<Room>, number: u8) -> (r: Self)
        ensures
            r@.rooms == Seq::new(rooms@.len(), |i: int| rooms@[i]@),
            r@.number == number,
    {
        Self { rooms, number }
    }

    /// The JSON form of the floor, exactly as `spec_floor_json` says.
    pub fn to_json(&self) -> (r: JsonValue)
        ensures
            r@ == spec_floor_json(self@),
    {
        let mut rarr: Vec<JsonValue> = Vec::new();
        let mut i: usize = 0;
        while i < self.rooms.len()
            invariant
                i <= self.rooms@.len(),
                rarr@.len() == i,
                forall|j: int|
                    0 <= j < i ==> #[trigger] rarr@[j]@ == spec_room_json(self.rooms@[j]@),
            decreases self.rooms@.len() - i,
        {
            rarr.push(self.rooms[i].to_json());
            i = i + 1;
        }
        let ghost rav = rarr@;
        let rooms = JsonValue::Array(rarr);
        proof {
            assert forall|j: int| 0 <= j < self@.rooms.len() implies spec_json_view(
                #[trigger] rav[j],
            ) == spec_room_json(self@.rooms[j]) by {
                assert(self@.rooms[j] == self.rooms@[j]@);
                assert(rav[j]@ == spec_room_json(self.rooms@[j]@));
            }
            lemma_rooms_json(self@.rooms, rav);
            assert(rooms@ == JsonView::Array(spec_rooms_json(self@.rooms)));
        }
        let mut items: Vec<JsonValue> = Vec::new();
        items.push(JsonValue::Entry { name: String::from_str("rooms"), value: Box::new(rooms) });
        items.push(
            JsonValue::Entry {
                name: String::from_str("number"),
                value: Box::new(JsonValue::Number(self.number as u64)),
            },
        );
        let ghost iv = items@;
        let r = JsonValue::Object(items);
        proof {
            reveal_with_fuel(spec_json_view, 2);
            let want = seq![
                JsonView::Entry { name: "rooms"@, value: Box::new(
                    JsonView::Array(spec_rooms_json(self@.rooms)),
                ) },
                JsonView::Entry { name: "number"@, value: Box::new(
                    JsonView::Number(self@.number as u64),
                ) },
            ];
            assert(spec_json_view(iv[0]) == want[0]);
            assert(spec_json_view(iv[1]) == want[1]);
            lemma_views_elems(iv, want);
            assert(r@ == spec_floor_json(self@));
        }
        r
    }
}

} // verus!
