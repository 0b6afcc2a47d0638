use harmonium::{
    Channel, ChannelKind, HarmoniumState, Id, Message, MessageKind, StoreError, UserKind,
};

fn channel(id: u64, name: &str) -> Channel {
    Channel::new(Id::<ChannelKind>::new(id), name.to_string())
}

fn message(id: u64, content: &str, channel_id: u64, author_id: u64) -> Message {
    Message::new(
        Id::<MessageKind>::new(id),
        content.to_string(),
        Id::<ChannelKind>::new(channel_id),
        Id::<UserKind>::new(author_id),
    )
}

#[test]
fn get_after_add_returns_equal_record() {
    let mut store = HarmoniumState::default();
    store.add_channel(channel(87689376, "a channel"));
    store.add_channel(channel(876893766, "another channel"));

    let got = store.get_channel(&Id::new(87689376)).unwrap();
    assert_eq!(got.id.into_u64(), 87689376);
    assert_eq!(got.name, "a channel");
    assert!(got.messages.is_empty());

    let other = store.get_channel(&Id::new(876893766)).unwrap();
    assert_eq!(other.name, "another channel");

    assert!(store.get_channel(&Id::new(8768937644)).is_none());
}

#[test]
fn add_channel_returns_notification_payload() {
    let mut store = HarmoniumState::default();
    let note = store.add_channel(channel(7, "news"));
    assert_eq!(note.id.into_u64(), 7);
    assert_eq!(note.name, "news");
    assert!(note.messages.is_empty());
}

#[test]
fn messages_appear_in_append_order() {
    let mut store = HarmoniumState::default();
    store.add_channel(channel(1, "general"));
    store.add_message(message(20, "first", 1, 5)).unwrap();
    store.add_message(message(21, "second", 1, 5)).unwrap();

    let got = store.get_channel(&Id::new(1)).unwrap();
    let raw: Vec<u64> = got.messages.iter().map(|m| m.into_u64()).collect();
    assert_eq!(raw, vec![20, 21]);

    let first = store.get_message(&Id::new(20)).unwrap();
    assert_eq!(first.content, "first");
    assert_eq!(first.channel_id.into_u64(), 1);
    assert_eq!(first.author_id.into_u64(), 5);
}

#[test]
fn add_message_to_unknown_channel_is_rejected() {
    let mut store = HarmoniumState::default();
    store.add_channel(channel(1, "general"));
    let r = store.add_message(message(30, "lost", 2, 5));
    assert_eq!(r, Err(StoreError::UnknownChannel));
    assert!(store.get_message(&Id::new(30)).is_none());
    assert!(store.get_channel(&Id::new(1)).unwrap().messages.is_empty());
}

#[test]
fn select_empty_channel_pushes_empty_message_list() {
    let mut store = HarmoniumState::default();
    store.add_channel(channel(3, "quiet"));
    let note = store.set_current_channel(Id::new(3)).unwrap();
    assert_eq!(note.channel.id.into_u64(), 3);
    assert!(note.messages.is_empty());
}

#[test]
fn select_pushes_one_resolved_record_per_message() {
    let mut store = HarmoniumState::default();
    store.add_channel(channel(1, "general"));
    for i in 100..103u64 {
        store.add_message(message(i, "hello", 1, 9)).unwrap();
    }
    let note = store.set_current_channel(Id::new(1)).unwrap();
    assert_eq!(note.messages.len(), 3);
    for (slot, want) in note.messages.iter().zip(100..103u64) {
        let m = slot.as_ref().unwrap();
        assert_eq!(m.id.into_u64(), want);
        assert_eq!(m.content, "hello");
    }
}

#[test]
fn select_unknown_channel_is_rejected() {
    let mut store = HarmoniumState::default();
    let r = store.set_current_channel(Id::new(77));
    assert!(matches!(r, Err(StoreError::UnknownChannel)));
}

#[test]
fn reselecting_same_channel_pushes_again() {
    let mut store = HarmoniumState::default();
    store.add_channel(channel(4, "repeat"));
    let first = store.set_current_channel(Id::new(4)).unwrap();
    let second = store.set_current_channel(Id::new(4)).unwrap();
    assert_eq!(first.channel.name, second.channel.name);
    assert_eq!(first.messages.len(), second.messages.len());
}

#[test]
fn readding_channel_overwrites_and_still_notifies() {
    let mut store = HarmoniumState::default();
    store.add_channel(channel(1, "old name"));
    let note = store.add_channel(channel(1, "new name"));
    assert_eq!(note.name, "new name");
    let got = store.get_channel(&Id::new(1)).unwrap();
    assert_eq!(got.name, "new name");
    assert!(got.messages.is_empty());
}

#[test]
fn unresolved_message_identifier_yields_empty_slot() {
    let mut store = HarmoniumState::default();
    let dangling = Channel {
        id: Id::<ChannelKind>::new(8),
        name: "dangling".to_string(),
        messages: vec![Id::new(999)],
    };
    store.add_channel(dangling);
    let note = store.set_current_channel(Id::new(8)).unwrap();
    assert_eq!(note.messages.len(), 1);
    assert!(note.messages[0].is_none());
}

#[test]
fn scenario_general_channel() {
    let mut store = HarmoniumState::default();
    store.add_channel(channel(1, "general"));

    let got = store.get_channel(&Id::new(1)).unwrap();
    assert_eq!(got.id.into_u64(), 1);
    assert_eq!(got.name, "general");
    assert!(got.messages.is_empty());

    store.add_message(message(10, "hi", 1, 5)).unwrap();
    let got = store.get_channel(&Id::new(1)).unwrap();
    let raw: Vec<u64> = got.messages.iter().map(|m| m.into_u64()).collect();
    assert_eq!(raw, vec![10]);

    let note = store.set_current_channel(Id::new(1)).unwrap();
    assert_eq!(note.channel.id.into_u64(), 1);
    assert_eq!(note.channel.name, "general");
    let raw: Vec<u64> = note.channel.messages.iter().map(|m| m.into_u64()).collect();
    assert_eq!(raw, vec![10]);
    assert_eq!(note.messages.len(), 1);
    let m = note.messages[0].as_ref().unwrap();
    assert_eq!(m.id.into_u64(), 10);
    assert_eq!(m.channel_id.into_u64(), 1);
    assert_eq!(m.author_id.into_u64(), 5);
    assert_eq!(m.content, "hi");
}
