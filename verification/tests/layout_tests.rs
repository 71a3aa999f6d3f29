use gauge::house_layout::dimensions::{Centimeters, Position};
use gauge::house_layout::floor::Floor;
use gauge::house_layout::house::House;
use gauge::house_layout::room::{GaugeJson, Room};
use gauge::house_layout::wall::{Door, Wall};
use gauge::json::{JsonValue, LayoutError};

fn pos(x: u16, y: u16) -> Position {
    Position::new(Centimeters(x), Centimeters(y))
}

fn walls_equal(a: &Wall, b: &Wall) -> bool {
    a.position_start == b.position_start && a.position_end == b.position_end
        && a.connection_start == b.connection_start && a.connection_end == b.connection_end
        && a.doors == b.doors
}

#[test]
fn some() {
    let first: Centimeters = Centimeters(5);
    let second: Centimeters = Centimeters(5);

    assert_eq!(first.add(second), Centimeters(10));
}

#[test]
fn connect_walls() {
    let connections: Vec<Position> = vec![pos(0, 0), pos(0, 10), pos(10, 10), pos(10, 0)];

    let walls = Wall::from_connections(connections);

    assert!(walls.len() == 4);
    assert_eq!(walls[0].position_start, pos(0, 0));
    assert_eq!(walls[0].position_end, pos(0, 10));
    assert_eq!(walls[3].position_start, pos(10, 0));
    assert_eq!(walls[3].position_end, pos(0, 0));
    assert_eq!(walls[2].connection_start, Some(pos(10, 10)));
    assert!(walls.iter().all(|w| w.doors.is_none()));
}

#[test]
fn lengths_add_and_subtract() {
    let mut len = Centimeters(30);
    len.add_assign(Centimeters(12));
    assert_eq!(len, Centimeters(42));
    len.sub_assign(Centimeters(2));
    assert_eq!(len, Centimeters(40));
    assert_eq!(Centimeters(40).sub(Centimeters(15)), Centimeters(25));
    assert_eq!(Centimeters::from(7u16), Centimeters(7));
}

#[test]
fn position_round_trips_through_json() {
    let p = pos(120, 7);
    let json = p.to_json();
    assert_eq!(Position::try_from_json(&json), Ok(p));
}

#[test]
fn position_requires_both_coordinates() {
    let only_x = JsonValue::Object(vec![JsonValue::Entry {
        name: "x".to_string(),
        value: Box::new(JsonValue::Number(4)),
    }]);
    assert_eq!(Position::try_from_json(&only_x), Err(LayoutError::MissingField));

    let bad_y = JsonValue::Object(vec![
        JsonValue::Entry { name: "x".to_string(), value: Box::new(JsonValue::Number(4)) },
        JsonValue::Entry { name: "y".to_string(), value: Box::new(JsonValue::Null) },
    ]);
    assert_eq!(Position::try_from_json(&bad_y), Err(LayoutError::NumberExpected));
}

#[test]
fn oversized_coordinates_saturate() {
    let big = JsonValue::Object(vec![
        JsonValue::Entry { name: "x".to_string(), value: Box::new(JsonValue::Number(70000)) },
        JsonValue::Entry { name: "y".to_string(), value: Box::new(JsonValue::Number(2)) },
    ]);
    assert_eq!(Position::try_from_json(&big), Ok(pos(u16::MAX, 2)));
}

#[test]
fn door_round_trips_through_json() {
    let d = Door::new(pos(0, 0), pos(0, 80));
    let json = d.to_json();
    assert_eq!(Door::try_from_json(&json), Ok(d));
}

#[test]
fn wall_round_trips_through_json() {
    let with_everything = Wall::new(
        pos(0, 0),
        pos(400, 0),
        Some(pos(0, 0)),
        Some(pos(400, 0)),
        Some(vec![Door::new(pos(100, 0), pos(180, 0))]),
    );
    let json = with_everything.to_json();
    let back = Wall::try_from_json(&json).unwrap();
    assert!(walls_equal(&with_everything, &back));

    let bare = Wall::new(pos(1, 2), pos(3, 4), None, None, None);
    let json = bare.to_json();
    let back = Wall::try_from_json(&json).unwrap();
    assert!(walls_equal(&bare, &back));
}

#[test]
fn room_round_trips_through_json() {
    let room = Room::new(
        vec![Wall::new(pos(0, 0), pos(0, 300), None, None, None)],
        Centimeters(260),
        vec![GaugeJson::new(&"Heat".to_string(), 1)],
    );
    let json = room.to_json();
    let back = Room::try_from_json(&json).unwrap();
    assert_eq!(back.height, Centimeters(260));
    assert_eq!(back.walls.len(), 1);
    assert!(walls_equal(&back.walls[0], &room.walls[0]));
    assert_eq!(back.gauges.len(), 1);
    assert_eq!(back.gauges[0].name, "Heat".to_string());
    assert_eq!(back.gauges[0].state_tag, 1);
}

#[test]
fn room_needs_a_height() {
    let empty = JsonValue::Object(Vec::new());
    assert!(matches!(Room::try_from_json(&empty), Err(LayoutError::MissingField)));

    let short = JsonValue::Object(vec![JsonValue::Entry {
        name: "height".to_string(),
        value: Box::new(JsonValue::Text("tall".to_string())),
    }]);
    assert!(matches!(Room::try_from_json(&short), Err(LayoutError::NumberExpected)));
}

#[test]
fn house_grows_floor_by_floor() {
    let mut house = House::default();
    assert_eq!(house.floors().len(), 1);
    house.push_floor();
    house.push_floor();
    assert_eq!(house.floors().len(), 3);
    assert_eq!(house.floors()[1].number, 1);
    assert_eq!(house.floors()[2].number, 2);

    let json = house.to_json();
    match &json {
        JsonValue::Entry { name, value } => {
            assert_eq!(name, &"floors".to_string());
            match &**value {
                JsonValue::Array(floors) => assert_eq!(floors.len(), 3),
                _ => panic!("the floors must be an array"),
            }
        },
        _ => panic!("a house serializes as a named entry"),
    }
}

#[test]
fn default_room_holds_a_test_alarm() {
    let room = Room::default();
    assert_eq!(room.gauges.len(), 1);
    assert_eq!(room.gauges[0].name, "Test".to_string());
    assert_eq!(room.gauges[0].state_tag, 0);
    assert_eq!(room.walls.len(), 1);
    assert_eq!(room.height, Centimeters(0));
}

#[test]
fn floor_serializes_its_rooms_and_number() {
    let floor = Floor::new(vec![Room::new(Vec::new(), Centimeters(250), Vec::new())], 2);
    let json = floor.to_json();
    match json.get("number") {
        Some(entry) => match entry.peel() {
            JsonValue::Number(n) => assert_eq!(*n, 2),
            _ => panic!("the number must be a number"),
        },
        None => panic!("a floor carries its number"),
    }
    match json.get("rooms") {
        Some(entry) => match entry.peel() {
            JsonValue::Array(rooms) => assert_eq!(rooms.len(), 1),
            _ => panic!("the rooms must be an array"),
        },
        None => panic!("a floor carries its rooms"),
    }
}
