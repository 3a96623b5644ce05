//! A verified client core for a live-streaming danmaku (live-comment) push
//! channel: length-prefixed wire framing, a two-mode encrypted envelope codec,
//! the register/enter-room/heartbeat/ticket-rotation protocol machine, and the
//! decoders for the action/state/notify signal streams.

pub mod api;
pub mod client;
pub mod codec;
pub mod crypto;
pub mod errors;
pub mod globals;
pub mod messages;
pub mod shapes;
pub mod signals;
pub mod wire;
