//! Server-side engine of the bancho protocol.
//!
//! - `codec`: little-endian integers, ULEB128 varints, length-prefixed
//!   strings, integer lists and frame headers, with their round-trip laws.
//! - `reader` and `writer`: a cursor over inbound bytes and a frame builder.
//! - `constants`, `status`: packet ids, actions, modes, mods, privileges.
//! - `session`, `players`, `channel`, `server`: sessions, the registry of
//!   live sessions, chat channels, spectating and logout.
//! - `packets`, `handlers`, `dispatch`: outbound packets, the packet handlers,
//!   the dispatch table and the per-request loop.
//! - `login`, `events`, `text`: the login record and password cache, the
//!   control-plane events, and text helpers.
pub mod channel;
pub mod codec;
pub mod constants;
pub mod dispatch;
pub mod events;
pub mod handlers;
pub mod login;
pub mod packets;
pub mod players;
pub mod reader;
pub mod server;
pub mod session;
pub mod status;
pub mod text;
pub mod writer;
