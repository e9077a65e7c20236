//! Conversational core of a sticker-pack chat bot: a per-user session state
//! machine, a byte codec for durable persistence, a sled-backed store with an
//! append-only pack index, and the dispatcher that turns inbound chat events
//! into state transitions and outbound actions.

pub mod codec;
pub mod dispatch;
pub mod state_machine;
pub mod store;
pub mod text;
