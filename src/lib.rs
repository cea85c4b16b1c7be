//! Discovery handshake and audio relay of a desktop peer that receives a
//! live audio stream from a phone over UDP, with link-health monitoring.
pub mod discovery;
pub mod history;
pub mod protocol;
pub mod relay;
pub mod state;
