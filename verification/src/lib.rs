//! In-memory state store for a small chat client.
//!
//! The crate provides strongly typed numeric identifiers, the
//! `User` / `Channel` / `Message` records, and the store that owns them,
//! tracks the currently selected channel, and produces the notification
//! payloads that a presentation layer displays.

mod ids;
mod laws;
mod state;
mod wire;

pub use ids::Id;
pub use laws::{lemma_append_order, lemma_get_after_add, lemma_last_write_wins};
pub use state::{
    cursor_valid, Channel, ChannelKind, ChannelSelected, ChannelSelectedView, ChannelView, HarmoniumState,
    lookup, opt_view, Message, MessageKind, MessageView, StoreError, StoreView, User, UserKind,
    UserView,
};
pub use wire::{dec_digit, dec_rep, wire_round_trip};
