use gauge::codec::{DecodeError, DeserializedGauge, EncodeError, SerializedGauge};
use gauge::helpers::{read_connection_frames, read_gauge_by_id, Gauges};
use gauge::types::fire_alarm::{FireAlarm, FireAlarmState};
use gauge::types::temperature_gauge::{TemperatureGauge, TemperatureGaugeState};
use gauge::types::Gauge;

fn decode_frame(bytes: Vec<u8>) -> Result<Gauges, DecodeError> {
    let envelope = DeserializedGauge::parse(SerializedGauge::from(bytes))?;
    read_gauge_by_id(envelope)
}

#[test]
fn serialize_and_deserialize() {
    let fire_alarm: FireAlarm = FireAlarm::new("Room".to_string(), FireAlarmState::Enabled);

    let serialized = fire_alarm.serialize().unwrap();

    let deserialized = FireAlarm::deserialize(serialized.into()).expect("Deserialization error");

    assert_eq!(fire_alarm, deserialized)
}

#[test]
fn temperature_gauge_serialize_and_deserialize() {
    let temp = TemperatureGauge::new(
        "Room".to_string(),
        TemperatureGaugeState::ReadingTemperature((36.6f32).to_bits()),
    );

    let serialized = temp.serialize().unwrap();

    let deserialized = TemperatureGauge::deserialize(serialized.into()).expect("Error deserializng");

    assert_eq!(temp, deserialized)
}

#[test]
fn round_trip_fire_alarm_all_states() {
    for state in [FireAlarmState::Disabled, FireAlarmState::Enabled, FireAlarmState::OnAlert] {
        let alarm = FireAlarm::new("Hall".to_string(), state);
        let bytes = alarm.serialize().unwrap();
        match decode_frame(bytes).unwrap() {
            Gauges::FireAlarm(g) => assert_eq!(g, alarm),
            _ => panic!("classified as the wrong kind"),
        }
    }
}

#[test]
fn round_trip_temperature_all_states() {
    let states = [
        TemperatureGaugeState::Disabled,
        TemperatureGaugeState::Enabled,
        TemperatureGaugeState::ReadingTemperature((21.5f32).to_bits()),
        TemperatureGaugeState::ReadingTemperature((-3.25f32).to_bits()),
        TemperatureGaugeState::ReadingTemperature(f32::NAN.to_bits()),
    ];
    for state in states {
        let sensor = TemperatureGauge::new("Attic".to_string(), state);
        let bytes = sensor.serialize().unwrap();
        match decode_frame(bytes).unwrap() {
            Gauges::TemperatureGauge(g) => assert_eq!(g, sensor),
            _ => panic!("classified as the wrong kind"),
        }
    }
}

#[test]
fn name_of_255_bytes_encodes_and_longer_is_rejected() {
    let fits = "a".repeat(255);
    let alarm = FireAlarm::new(fits.clone(), FireAlarmState::Enabled);
    let bytes = alarm.serialize().unwrap();
    match decode_frame(bytes).unwrap() {
        Gauges::FireAlarm(g) => assert_eq!(g.name, fits),
        _ => panic!("classified as the wrong kind"),
    }

    let too_long = FireAlarm::new("a".repeat(256), FireAlarmState::Enabled);
    assert_eq!(too_long.serialize().unwrap_err(), EncodeError::NameTooLong);

    // 128 two-byte characters take 256 bytes even though only 128 chars.
    let multibyte = TemperatureGauge::new(
        "\u{e9}".repeat(128),
        TemperatureGaugeState::Disabled,
    );
    assert_eq!(multibyte.serialize().unwrap_err(), EncodeError::NameTooLong);
}

#[test]
fn unknown_kind_passes_envelope_through() {
    let mut frame: Vec<u8> = Vec::new();
    let id = b"pressure_gauge";
    frame.push(id.len() as u8);
    frame.extend_from_slice(id);
    frame.push(5);
    frame.extend_from_slice(b"Porch");
    frame.push(1);
    frame.push(0xAB);
    match decode_frame(frame).unwrap() {
        Gauges::Unknown(envelope) => {
            assert_eq!(envelope.try_id(), id.to_vec());
            assert_eq!(envelope.try_name(), "Porch".to_string());
            assert_eq!(envelope.try_state(), vec![1, 0xAB]);
        },
        _ => panic!("a foreign kind must not be classified"),
    }
}

#[test]
fn truncation_is_rejected_at_every_boundary() {
    let alarm = FireAlarm::new("Kitchen".to_string(), FireAlarmState::OnAlert);
    let frame = alarm.serialize().unwrap();
    for k in 0..frame.len() {
        let cut = frame[..k].to_vec();
        assert_eq!(decode_frame(cut).unwrap_err(), DecodeError::TruncatedFrame, "cut at {k}");
    }

    let sensor = TemperatureGauge::new(
        "Den".to_string(),
        TemperatureGaugeState::ReadingTemperature((21.5f32).to_bits()),
    );
    let frame = sensor.serialize().unwrap();
    for k in 0..frame.len() {
        let cut = frame[..k].to_vec();
        assert_eq!(decode_frame(cut).unwrap_err(), DecodeError::TruncatedFrame, "cut at {k}");
    }
}

#[test]
fn unknown_state_tag_is_rejected() {
    let alarm = FireAlarm::new("Hall".to_string(), FireAlarmState::Disabled);
    let mut frame = alarm.serialize().unwrap();
    let last = frame.len() - 1;
    frame[last] = 7;
    assert_eq!(decode_frame(frame).unwrap_err(), DecodeError::UnknownStateTag);

    let sensor = TemperatureGauge::new("Den".to_string(), TemperatureGaugeState::Disabled);
    let mut frame = sensor.serialize().unwrap();
    let last = frame.len() - 1;
    frame[last] = 9;
    assert_eq!(decode_frame(frame).unwrap_err(), DecodeError::UnknownStateTag);
}

#[test]
fn invalid_name_bytes_are_rejected() {
    let mut frame: Vec<u8> = Vec::new();
    let id = b"fire_alarm";
    frame.push(id.len() as u8);
    frame.extend_from_slice(id);
    frame.push(1);
    frame.push(0xFF);
    frame.push(0);
    assert_eq!(decode_frame(frame).unwrap_err(), DecodeError::InvalidText);
}

#[test]
fn wrong_payload_size_is_rejected() {
    let mut frame: Vec<u8> = Vec::new();
    let id = b"temperature_gauge";
    frame.push(id.len() as u8);
    frame.extend_from_slice(id);
    frame.push(3);
    frame.extend_from_slice(b"Den");
    frame.push(2);
    frame.push(3);
    frame.extend_from_slice(&[1, 2, 3]);
    assert_eq!(decode_frame(frame).unwrap_err(), DecodeError::MalformedPayload);
}

#[test]
fn kitchen_fire_alarm_frame_is_byte_exact() {
    let alarm = FireAlarm::new("Kitchen".to_string(), FireAlarmState::OnAlert);
    let frame = alarm.serialize().unwrap();

    let mut expected: Vec<u8> = Vec::new();
    expected.push(10);
    expected.extend_from_slice(b"fire_alarm");
    expected.push(7);
    expected.extend_from_slice(b"Kitchen");
    expected.push(2);
    assert_eq!(frame, expected);

    match decode_frame(frame).unwrap() {
        Gauges::FireAlarm(g) => {
            assert_eq!(g.name, "Kitchen".to_string());
            assert_eq!(g.state, FireAlarmState::OnAlert);
        },
        _ => panic!("classified as the wrong kind"),
    }
}

#[test]
fn den_reading_round_trips_bit_exactly() {
    let sensor = TemperatureGauge::new(
        "Den".to_string(),
        TemperatureGaugeState::ReadingTemperature((21.5f32).to_bits()),
    );
    let frame = sensor.serialize().unwrap();
    match decode_frame(frame).unwrap() {
        Gauges::TemperatureGauge(g) => match g.state {
            TemperatureGaugeState::ReadingTemperature(bits) => {
                assert_eq!(bits, (21.5f32).to_bits());
                assert_eq!(f32::from_bits(bits), 21.5f32);
            },
            _ => panic!("the reading was lost"),
        },
        _ => panic!("classified as the wrong kind"),
    }
}

#[test]
fn two_connections_of_one_hundred_frames_each_decode_fully() {
    let first: Vec<Vec<u8>> = (0..100)
        .map(|i| {
            FireAlarm::new(format!("alarm-{i}"), FireAlarmState::Enabled).serialize().unwrap()
        })
        .collect();
    let second: Vec<Vec<u8>> = (0..100)
        .map(|i| {
            TemperatureGauge::new(
                format!("sensor-{i}"),
                TemperatureGaugeState::ReadingTemperature((i as f32).to_bits()),
            )
            .serialize()
            .unwrap()
        })
        .collect();

    let first_results =
        read_connection_frames(first.into_iter().map(SerializedGauge::from).collect());
    let second_results =
        read_connection_frames(second.into_iter().map(SerializedGauge::from).collect());

    assert_eq!(first_results.len(), 100);
    assert_eq!(second_results.len(), 100);
    for (i, outcome) in first_results.into_iter().enumerate() {
        match outcome.unwrap() {
            Gauges::FireAlarm(g) => assert_eq!(g.name, format!("alarm-{i}")),
            _ => panic!("frames of one connection were corrupted"),
        }
    }
    for (i, outcome) in second_results.into_iter().enumerate() {
        match outcome.unwrap() {
            Gauges::TemperatureGauge(g) => {
                assert_eq!(g.name, format!("sensor-{i}"));
                assert_eq!(
                    g.state,
                    TemperatureGaugeState::ReadingTemperature((i as f32).to_bits())
                );
            },
            _ => panic!("frames of one connection were corrupted"),
        }
    }
}

#[test]
fn accessors_and_setters_track_the_device() {
    let mut alarm = FireAlarm::new("Hall".to_string(), FireAlarmState::Disabled);
    assert_eq!(*alarm.state(), FireAlarmState::Disabled);
    assert_eq!(alarm.name().as_str(), "Hall");
    alarm.set_state(FireAlarmState::OnAlert);
    assert_eq!(*alarm.state(), FireAlarmState::OnAlert);
    alarm.set_name("Lobby".to_string());
    assert_eq!(alarm.name().as_str(), "Lobby");
    assert_eq!(FireAlarm::id(), b"fire_alarm".to_vec());
    assert_eq!(alarm.serialize_id(), b"fire_alarm".to_vec());
    assert_eq!(alarm.serialize_name(), b"Lobby".to_vec());
    assert_eq!(alarm.serialize_state(), (2, None));

    let mut sensor = TemperatureGauge::new("Den".to_string(), TemperatureGaugeState::Enabled);
    assert_eq!(*sensor.state(), TemperatureGaugeState::Enabled);
    assert_eq!(sensor.name().as_str(), "Den");
    sensor.set_state(TemperatureGaugeState::ReadingTemperature(0x41AC0000));
    assert_eq!(
        *sensor.state(),
        TemperatureGaugeState::ReadingTemperature((21.5f32).to_bits())
    );
    sensor.set_name("Loft".to_string());
    assert_eq!(sensor.name().as_str(), "Loft");
    assert_eq!(TemperatureGauge::id(), b"temperature_gauge".to_vec());
    assert_eq!(sensor.serialize_id(), b"temperature_gauge".to_vec());
    assert_eq!(sensor.serialize_state(), (2, Some(vec![0x41, 0xAC, 0x00, 0x00])));
}


#[test]
fn state_and_envelope_texts_describe_the_device() {
    assert_eq!(FireAlarmState::Disabled.as_text(), "Disabled");
    assert_eq!(FireAlarmState::OnAlert.as_text(), "On alert");

    let alarm = FireAlarm::new("Kitchen".to_string(), FireAlarmState::OnAlert);
    assert_eq!(alarm.summary_string(), "Kitchen catched fire".to_string());

    let frame = alarm.serialize().unwrap();
    let envelope = DeserializedGauge::parse(SerializedGauge::from(frame)).unwrap();
    assert_eq!(
        envelope.summary_string(),
        "Name: Kitchen,\nId: fire_alarm,\nState: 2,\nState message: None".to_string()
    );
}
