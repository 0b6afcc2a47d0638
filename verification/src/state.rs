use std::collections::HashMap;
use vstd::prelude::*;

use crate::ids::Id;

verus! {

/// Marker for identifiers that name a user.
#[derive(Debug, Clone, Copy, PartialEq, Eq, Hash)]
pub struct UserKind;

/// Marker for identifiers that name a channel.
#[derive(Debug, Clone, Copy, PartialEq, Eq, Hash)]
pub struct ChannelKind;

/// Marker for identifiers that name a message.
#[derive(Debug, Clone, Copy, PartialEq, Eq, Hash)]
pub struct MessageKind;

/// A person who writes messages: identifier, display name, optional
/// avatar location.
#[derive(Debug)]
pub struct User {
    pub id: Id<UserKind>,
    pub name: String,
    pub image_url: Option<String>,
}

/// The mathematical value of a `User`.
#[verifier::ext_equal]
pub ghost struct UserView {
    pub id: u64,
    pub name: Seq<char>,
    pub image_url: Option<Seq<char>>,
}

impl View for User {
    type V = UserView;

    open spec fn view(&self) -> UserView {
        UserView {
            id: self.id@,
            name: self.name@,
            image_url: match self.image_url {
                Some(url) => Some(url@),
                None => None,
            },
        }
    }
}

/// One chat message: identifier, owning channel, author, text content.
/// Immutable once created.
#[derive(Debug)]
pub struct Message {
    pub id: Id<MessageKind>,
    pub channel_id: Id<ChannelKind>,
    pub author_id: Id<UserKind>,
    pub content: String,
}

/// The mathematical value of a `Message`.
#[verifier::ext_equal]
pub ghost struct MessageView {
    pub id: u64,
    pub channel_id: u64,
    pub author_id: u64,
    pub content: Seq<char>,
}

impl View for Message {
    type V = MessageView;

    open spec fn view(&self) -> MessageView {
        MessageView {
            id: self.id@,
            channel_id: self.channel_id@,
            author_id: self.author_id@,
            content: self.content@,
        }
    }
}

impl Message {
    /// Builds a message record from its parts.
    pub fn new(
        id: Id<MessageKind>,
        content: String,
        channel_id: Id<ChannelKind>,
        author_id: Id<UserKind>,
    ) -> (r: Self)
        ensures
            r@ == (MessageView { id: id@, channel_id: channel_id@, author_id: author_id@, content: content@ }),
    {
        Message { author_id, channel_id, content, id }
    }
}

impl Clone for Message {
    fn clone(&self) -> (r: Self)
        ensures
            r@ == self@,
    {
        Message {
            id: self.id,
            channel_id: self.channel_id,
            author_id: self.author_id,
            content: self.content.clone(),
        }
    }
}

/// A channel: identifier, name, and the identifiers of its messages in
/// insertion order, which is display order.
#[derive(Debug)]
pub struct Channel {
    pub id: Id<ChannelKind>,
    pub name: String,
    pub messages: Vec<Id<MessageKind>>,
}

/// The mathematical value of a `Channel`: its message list is the sequence
/// of raw message identifiers.
#[verifier::ext_equal]
pub ghost struct ChannelView {
    pub id: u64,
    pub name: Seq<char>,
    pub messages: Seq<u64>,
}

impl View for Channel {
    type V = ChannelView;

    open spec fn view(&self) -> ChannelView {
        ChannelView {
            id: self.id@,
            name: self.name@,
            messages: self.messages@.map_values(|m: Id<MessageKind>| m@),
        }
    }
}

impl Channel {
    /// Builds a channel record with an empty message list.
    pub fn new(id: Id<ChannelKind>, name: String) -> (r: Self)
        ensures
            r@ == (ChannelView { id: id@, name: name@, messages: Seq::empty() }),
    {
        let messages: Vec<Id<MessageKind>> = Vec::new();
        let r = Channel { id, name, messages };
        proof {
            assert(r@.messages =~= Seq::<u64>::empty());
        }
        r
    }
}

impl Clone for Channel {
    fn clone(&self) -> (r: Self)
        ensures
            r@ == self@,
    {
        let messages = self.messages.clone();
        proof {
            assert(messages@ =~= self.messages@);
        }
        Channel { id: self.id, name: self.name.clone(), messages }
    }
}

/// Why a store operation was rejected instead of performed.
#[derive(Debug, Clone, Copy, PartialEq, Eq)]
pub enum StoreError {
    /// The channel identifier named by the operation is not in the store.
    UnknownChannel,
}

/// The payload of a "current channel selected" notification: the selected
/// channel's record and its messages resolved in channel order. A message
/// identifier that resolves to no stored message yields an empty slot.
#[derive(Debug)]
pub struct ChannelSelected {
    pub channel: Channel,
    pub messages: Vec<Option<Message>>,
}

/// The mathematical value of a `ChannelSelected` payload.
#[verifier::ext_equal]
pub ghost struct ChannelSelectedView {
    pub channel: ChannelView,
    pub messages: Seq<Option<MessageView>>,
}

/// The mathematical value of an optional record: the view of what is
/// there, if anything is.
pub open spec fn opt_view<T: View>(o: Option<T>) -> Option<T::V> {
    match o {
        Some(x) => Some(x@),
        None => None,
    }
}

/// Spec-level lookup in an identifier-keyed mapping, as the store's
/// getters and the notification push answer it: the record stored under
/// the key, or nothing when the key is not in use.
pub open spec fn lookup<V>(m: Map<u64, V>, k: u64) -> Option<V> {
    if m.contains_key(k) {
        Some(m[k])
    } else {
        None
    }
}

impl View for ChannelSelected {
    type V = ChannelSelectedView;

    open spec fn view(&self) -> ChannelSelectedView {
        ChannelSelectedView {
            channel: self.channel@,
            messages: self.messages@.map_values(|m: Option<Message>| opt_view(m)),
        }
    }
}

/// The single in-memory holder of all entities and the selection cursor.
///
/// Identifiers are unique within their entity kind; inserting under an
/// identifier already in use overwrites the prior record.
pub struct HarmoniumState {
    current_channel: Option<Id<ChannelKind>>,
    users: HashMap<u64, User>,
    channels: HashMap<u64, Channel>,
    messages: HashMap<u64, Message>,
}

/// The mathematical value of the store: the selection cursor and the three
/// identifier-keyed mappings.
#[verifier::ext_equal]
pub ghost struct StoreView {
    pub current_channel: Option<u64>,
    pub users: Map<u64, UserView>,
    pub channels: Map<u64, ChannelView>,
    pub messages: Map<u64, MessageView>,
}

/// The store's selection invariant: the cursor, once set, names a channel
/// that is present in the channel mapping. An empty store satisfies it,
/// every operation preserves it, and selection establishes it outright,
/// since a channel identifier not in the store is rejected.
pub open spec fn cursor_valid(s: StoreView) -> bool {
    match s.current_channel {
        Some(k) => s.channels.contains_key(k),
        None => true,
    }
}

impl View for HarmoniumState {
    type V = StoreView;

    closed spec fn view(&self) -> StoreView {
        StoreView {
            current_channel: match self.current_channel {
                Some(id) => Some(id@),
                None => None,
            },
            users: self.users@.map_values(|u: User| u@),
            channels: self.channels@.map_values(|c: Channel| c@),
            messages: self.messages@.map_values(|m: Message| m@),
        }
    }
}

impl Default for HarmoniumState {
    /// An empty store: no entities, no channel selected.
    fn default() -> (s: Self)
        ensures
            s@.current_channel is None,
            s@.users == Map::<u64, UserView>::empty(),
            s@.channels == Map::<u64, ChannelView>::empty(),
            s@.messages == Map::<u64, MessageView>::empty(),
            cursor_valid(s@),
    {
        let s = HarmoniumState {
            current_channel: None,
            users: HashMap::new(),
            channels: HashMap::new(),
            messages: HashMap::new(),
        };
        proof {
            assert(s@.users =~= Map::<u64, UserView>::empty());
            assert(s@.channels =~= Map::<u64, ChannelView>::empty());
            assert(s@.messages =~= Map::<u64, MessageView>::empty());
        }
        s
    }
}

impl HarmoniumState {
    /// Inserts the channel under its identifier, overwriting any prior
    /// record with the same identifier (last write wins), and returns the
    /// "channel added" notification payload: a copy of the full record,
    /// produced unconditionally.
    pub fn add_channel(&mut self, channel: Channel) -> (note: Channel)
        ensures
            final(self)@.channels == old(self)@.channels.insert(channel@.id, channel@),
            final(self)@.users == old(self)@.users,
            final(self)@.messages == old(self)@.messages,
            final(self)@.current_channel == old(self)@.current_channel,
            note@ == channel@,
            cursor_valid(old(self)@) ==> cursor_valid(final(self)@),
    {
        let note = channel.clone();
        let key = channel.id.into_u64();
        let ghost cview = channel@;
        self.channels.insert(key, channel);
        proof {
            assert(final(self)@.channels =~= old(self)@.channels.insert(cview.id, cview));
        }
        note
    }

    /// Looks the identifier up in the channel mapping and returns a copy of
    /// the record, or nothing when the identifier is not in use.
    pub fn get_channel(&self, id: &Id<ChannelKind>) -> (r: Option<Channel>)
        ensures
            opt_view(r) == lookup(self@.channels, id@),
    {
        let key = id.into_u64();
        match self.channels.get(&key) {
            Some(c) => Some(c.clone()),
            None => None,
        }
    }

    /// Validates that the message's channel exists; if so, appends the
    /// message identifier to that channel's message list and inserts the
    /// message under its identifier. Otherwise rejects the message and
    /// leaves the store unchanged.
    pub fn add_message(&mut self, message: Message) -> (r: Result<(), StoreError>)
        ensures
            old(self)@.channels.contains_key(message@.channel_id) ==> ({
                let ch = old(self)@.channels[message@.channel_id];
                &&& r is Ok
                &&& final(self)@.channels == old(self)@.channels.insert(
                    message@.channel_id,
                    (ChannelView { messages: ch.messages.push(message@.id), ..ch }),
                )
                &&& final(self)@.messages == old(self)@.messages.insert(message@.id, message@)
                &&& final(self)@.users == old(self)@.users
                &&& final(self)@.current_channel == old(self)@.current_channel
            }),
            !old(self)@.channels.contains_key(message@.channel_id) ==> ({
                &&& r == Err::<(), StoreError>(StoreError::UnknownChannel)
                &&& final(self)@ == old(self)@
            }),
            cursor_valid(old(self)@) ==> cursor_valid(final(self)@),
    {
        let key = message.channel_id.into_u64();
        match self.channels.remove(&key) {
            None => {
                proof {
                    assert(final(self)@.channels =~= old(self)@.channels);
                    assert(final(self)@ =~= old(self)@);
                }
                Err(StoreError::UnknownChannel)
            },
            Some(mut channel) => {
                let ghost chview = channel@;
                channel.messages.push(message.id);
                proof {
                    assert(channel@.messages =~= chview.messages.push(message@.id));
                }
                let mkey = message.id.into_u64();
                let ghost mview = message@;
                self.channels.insert(key, channel);
                self.messages.insert(mkey, message);
                proof {
                    assert(final(self)@.channels =~= old(self)@.channels.insert(
                        mview.channel_id,
                        (ChannelView { messages: chview.messages.push(mview.id), ..chview }),
                    ));
                    assert(final(self)@.messages =~= old(self)@.messages.insert(mview.id, mview));
                }
                Ok(())
            },
        }
    }

    /// Looks the identifier up in the message mapping and returns a copy of
    /// the record, or nothing when the identifier is not in use.
    pub fn get_message(&self, id: &Id<MessageKind>) -> (r: Option<Message>)
        ensures
            opt_view(r) == lookup(self@.messages, id@),
    {
        let key = id.into_u64();
        match self.messages.get(&key) {
            Some(m) => Some(m.clone()),
            None => None,
        }
    }

    /// Selects the channel: records its identifier as the current channel
    /// and returns the notification payload bundling a copy of the channel
    /// record with its messages resolved in the stored order, one slot per
    /// stored message identifier. A channel identifier not in the store is
    /// rejected and leaves the store unchanged, so the cursor only ever
    /// names an existing channel.
    pub fn set_current_channel(&mut self, id: Id<ChannelKind>) -> (r: Result<
        ChannelSelected,
        StoreError,
    >)
        ensures
            (match r {
                Ok(note) => {
                    let ch = old(self)@.channels[id@];
                    &&& old(self)@.channels.contains_key(id@)
                    &&& final(self)@ == (StoreView { current_channel: Some(id@), ..old(self)@ })
                    &&& note@.channel == ch
                    &&& note@.messages.len() == ch.messages.len()
                    &&& forall|i: int|
                        0 <= i < ch.messages.len() ==> note@.messages[i] == lookup(
                            old(self)@.messages,
                            ch.messages[i],
                        )
                },
                Err(e) => {
                    &&& e == StoreError::UnknownChannel
                    &&& !old(self)@.channels.contains_key(id@)
                    &&& final(self)@ == old(self)@
                },
            }),
            r is Ok ==> cursor_valid(final(self)@),
            cursor_valid(old(self)@) ==> cursor_valid(final(self)@),
    {
        let key = id.into_u64();
        let channel: Channel = match self.channels.get(&key) {
            None => {
                return Err(StoreError::UnknownChannel);
            },
            Some(c) => c.clone(),
        };
        self.current_channel = Some(id);
        proof {
            assert(final(self)@ =~= (StoreView { current_channel: Some(id@), ..old(self)@ }));
        }
        let mut resolved: Vec<Option<Message>> = Vec::new();
        let mut i: usize = 0;
        let n: usize = channel.messages.len();
        while i < n
            invariant
                n == channel.messages.len(),
                i <= n,
                self@ == (StoreView { current_channel: Some(id@), ..old(self)@ }),
                channel@ == old(self)@.channels[id@],
                resolved@.len() == i,
                forall|j: int|
                    0 <= j < i ==> opt_view(resolved@[j]) == lookup(
                        old(self)@.messages,
                        channel@.messages[j],
                    ),
            decreases n - i,
        {
            let mid = channel.messages[i];
            let slot = self.get_message(&mid);
            resolved.push(slot);
            i += 1;
        }
        let note = ChannelSelected { channel, messages: resolved };
        proof {
            assert(forall|j: int|
                0 <= j < note@.messages.len() ==> note@.messages[j] == opt_view(
                    note.messages@[j],
                ));
        }
        Ok(note)
    }
}

} // verus!
