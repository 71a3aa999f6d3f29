//! The house: its floors, and the JSON form the layout service serves.
use vstd::prelude::*;

use crate::house_layout::floor::{spec_floor_json, Floor, FloorView};
use crate::json::{
    spec_json_view, spec_json_views, JsonValue, JsonView,
};

verus! {

/// A house: its floors, ground floor first.
#[derive(Debug)]
pub struct House {
    pub floors: Vec<Floor>,
}

/// The spec-level image of a house.
#[verifier::ext_equal]
pub ghost struct HouseView {
    pub floors: Seq<FloorView>,
}

impl View for House {
    type V = HouseView;

    open spec fn view(&self) -> HouseView {
        HouseView { floors: Seq::new(self.floors@.len(), |i: int| self.floors@[i]@) }
    }
}

/// The JSON forms of a list of floors, in order.
pub open spec fn spec_floors_json(fs: Seq<FloorView>) -> Seq<JsonView>
    decreases fs.len(),
{
    if fs.len() == 0 {
        Seq::empty()
    } else {
        seq![spec_floor_json(fs[0])] + spec_floors_json(fs.subrange(1, fs.len() as int))
    }
}

/// The JSON form of a house: a `floors` entry holding the floors.
pub open spec fn spec_house_json(h: HouseView) -> JsonView {
    JsonView::Entry { name: "floors"@, value: Box::new(
        JsonView::Array(spec_floors_json(h.floors)),
    ) }
}

/// A list of floor images, elementwise, is the JSON form of the floors.
proof fn lemma_floors_json(fs: Seq<FloorView>, av: Seq<JsonValue>)
    requires
        av.len() == fs.len(),
        forall|j: int| 0 <= j < fs.len() ==> #[trigger] spec_json_view(av[j]) == spec_floor_json(
            fs[j],
        ),
    ensures
        spec_json_views(av) == spec_floors_json(fs),
    decreases fs.len(),
{
    if fs.len() > 0 {
        let vt = fs.subrange(1, fs.len() as int);
        let at = av.subrange(1, av.len() as int);
        assert forall|j: int| 0 <= j < vt.len() implies spec_json_view(#[trigger] at[j])
            == spec_floor_json(vt[j]) by {
            assert(at[j] == av[j + 1]);
            assert(vt[j] == fs[j + 1]);
            assert(spec_json_view(av[j + 1]) == spec_floor_json(fs[j + 1]));
        }
        lemma_floors_json(vt, at);
        assert(spec_json_view(av[0]) == spec_floor_json(fs[0]));
        assert(spec_json_views(av) =~= spec_floors_json(fs));
    } else {
        assert(spec_json_views(av) =~= spec_floors_json(fs));
    }
}

impl Default for House {
    /// A house of one default floor.
    fn default() -> (r: Self)
        ensures
            r@.floors.len() == 1,
            r@.floors[0].number == 0,
    {
        let mut floors: Vec<Floor> = Vec::new();
        floors.push(Floor::default());
        House { floors }
    }
}

impl House {
    /// A house from its floors.
    pub fn new(floors: Vec<Floor>) -> (r: Self)
        ensures
            r@.floors == Seq::new(floors@.len(), |i: int| floors@[i]@),
    {
        Self { floors }
    }

    /// Adds one fresh floor on top, numbered with the count of floors
    /// below it and furnished with the default room.
    pub fn push_floor(&mut self)
        requires
            old(self).floors@.len() < u8::MAX,
        ensures
            final(self)@.floors.len() == old(self)@.floors.len() + 1,
            final(self)@.floors.subrange(0, old(self)@.floors.len() as int) == old(self)@.floors,
            final(self)@.floors.last().number == old(self).floors@.len() as u8,
            final(self)@.floors.last().rooms.len() == 1,
    {
        let number = self.floors.len() as u8;
        let base = Floor::default();
        let floor = Floor { rooms: base.rooms, number };
        self.floors.push(floor);
        proof {
            assert(self@.floors.subrange(0, old(self)@.floors.len() as int) =~~= old(self)@.floors);
        }
    }

    /// The floors.
    pub fn floors(&self) -> (r: &Vec<Floor>)
        ensures
            Seq::new(r@.len(), |i: int| r@[i]@) == self@.floors,
    {
        &self.floors
    }

    /// The JSON form of the house, exactly as `spec_house_json` says.
    pub fn to_json(&self) -> (r: JsonValue)
        ensures
            r@ == spec_house_json(self@),
    {
        let mut farr: Vec<JsonValue> = Vec::new();
        let mut i: usize = 0;
        while i < self.floors.len()
            invariant
                i <= self.floors@.len(),
                farr@.len() == i,
                forall|j: int|
                    0 <= j < i ==> #[trigger] farr@[j]@ == spec_floor_json(self.floors@[j]@),
            decreases self.floors@.len() - i,
        {
            farr.push(self.floors[i].to_json());
            i = i + 1;
        }
        let ghost fav = farr@;
        let r = JsonValue::Entry {
            name: String::from_str("floors"),
            value: Box::new(JsonValue::Array(farr)),
        };
        proof {
            reveal_with_fuel(spec_json_view, 2);
            assert forall|j: int| 0 <= j < self@.floors.len() implies spec_json_view(
                #[trigger] fav[j],
            ) == spec_floor_json(self@.floors[j]) by {
                assert(self@.floors[j] == self.floors@[j]@);
                assert(fav[j]@ == spec_floor_json(self.floors@[j]@));
            }
            lemma_floors_json(self@.floors, fav);
            assert(r@ == spec_house_json(self@));
        }
        r
    }
}

} // verus!
