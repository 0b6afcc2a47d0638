use harmonium::{wire_round_trip, ChannelKind, Id, MessageKind, UserKind};

#[test]
fn identifier_serializes_as_plain_number() {
    let id = Id::<ChannelKind>::new(87689376);
    assert_eq!(id.to_wire(), "87689376");
    assert_eq!(Id::<UserKind>::new(0).to_wire(), "0");
    assert_eq!(Id::<MessageKind>::new(u64::MAX).to_wire(), "18446744073709551615");
}

#[test]
fn wire_form_matches_serde_json_output() {
    let id = Id::<ChannelKind>::new(7896);
    let direct: String = serde_json::to_string(&7896u64).unwrap();
    assert_eq!(id.to_wire(), direct);
}

#[test]
fn identifier_deserializes_from_plain_number() {
    let id = Id::<ChannelKind>::from_wire("41").unwrap();
    assert_eq!(id.into_u64(), 41);
    let large = Id::<MessageKind>::from_wire("18446744073709551615").unwrap();
    assert_eq!(large.into_u64(), u64::MAX);
}

#[test]
fn malformed_wire_values_are_rejected() {
    assert!(Id::<ChannelKind>::from_wire("").is_none());
    assert!(Id::<ChannelKind>::from_wire("not a number").is_none());
    assert!(Id::<ChannelKind>::from_wire("-3").is_none());
    assert!(Id::<ChannelKind>::from_wire("18446744073709551616").is_none());
}

#[test]
fn round_trip_preserves_value_across_kinds() {
    let original = Id::<ChannelKind>::new(876893766);
    let back: Id<ChannelKind> = wire_round_trip(original).unwrap();
    assert_eq!(back.into_u64(), 876893766);

    let crossed: Id<UserKind> = wire_round_trip(original).unwrap();
    assert_eq!(crossed.into_u64(), 876893766);

    for raw in [0u64, 1, 9, 10, 4242, u64::MAX] {
        let id = Id::<MessageKind>::new(raw);
        let back: Id<MessageKind> = wire_round_trip(id).unwrap();
        assert_eq!(back.into_u64(), raw);
    }
}

#[test]
fn conversions_preserve_raw_value() {
    let id: Id<ChannelKind> = Id::from(87689376u64);
    let raw: u64 = u64::from(id);
    assert_eq!(raw, 87689376);
    assert_eq!(Id::<ChannelKind>::new(5), Id::<ChannelKind>::from(5u64));
}
