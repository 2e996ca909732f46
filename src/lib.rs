//! Fetching one workshop item through a content-distribution client, and decoding its files:
//! the byte codec, the rules for encoded file names, the yes/no answer parser, the single-shot
//! notification that turns a client callback into one awaited event, and the state machine
//! that orders the requests of a run.
pub mod bridge;
pub mod codec;
pub mod confirm;
pub mod display;
pub mod files;
pub mod session;
pub mod text;
