//! Session and command orchestration layer of an interactive BMP test
//! speaker.  The library validates operator input, assembles per-peer
//! headers, parses raw hex payloads, keeps the diagnostic trace-tag
//! sequence, and turns each operator command into exactly one outbound
//! message (built by the `routes` encoding crate) ready to be written to
//! the monitoring station's connection.

pub mod codec;
pub mod header;
pub mod hex;
pub mod session;
pub mod trace;
pub mod update;
pub mod wire;
