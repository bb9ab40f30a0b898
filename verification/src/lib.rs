//! vhost-user, verified: the frontend's side of a device that an external backend
//! serves, and the framing of messages on its control channel.
//!
//! Nothing here touches a socket, a process or guest memory. Each operation that
//! needs them is a small state machine: it says what to do next, and the caller
//! does it and hands the outcome back. What is sent when, what is remembered, and
//! what every reply leads to is decided here, and stated in the contracts.
//!
//! * `handshake`, `start`, `stop` and `reset` are the operations of a
//!   `frontend::VhostUserFrontend`; `error` says how they fail,
//!   `operation_laws` what each of them does in bits and bytes, and
//!   `frontend_laws` what holds of them together.
//! * `socket` receives messages and `send` sends them; `win32` is how objects
//!   travel where sockets carry none; `wire_laws` is what stands on the wire,
//!   byte by byte, and `socket_laws` what holds of both ends of a connection.
//! * `virtiofsd` launches a backend.
//! * `device`, `protocol` and `le` hold the data that all of this is about.

pub mod device;
pub mod error;
pub mod frontend;
pub mod frontend_laws;
pub mod handshake;
pub mod le;
pub mod operation_laws;
pub mod protocol;
pub mod reset;
pub mod send;
pub mod socket;
pub mod socket_laws;
pub mod start;
pub mod stop;
pub mod virtiofsd;
pub mod win32;
pub mod wire_laws;
