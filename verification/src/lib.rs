//! The message-semantics and session-protocol core of an instant-messaging
//! client: what a decoded message element means, and what the client does
//! next in each of its conversations with the server.
//!
//! The elements of a message are classified in `elem`, with the descriptors
//! that some of them carry read in `descriptor` over the wire format of
//! `wire`, and written as text in `display`. The conversations with the
//! server are the synchronisation of messages in `sync`, the upload and the
//! download of forwarded messages in `upload` and `download`, the sending of
//! a message in `receipt`, and the checks of `status` and `translate`.
//!
//! Nothing here sends or receives. Every operation takes plain values and
//! returns either a result or the next action for the caller to carry out,
//! and is told how the action ended.

pub mod descriptor;
pub mod display;
pub mod download;
pub mod elem;
pub mod error;
pub mod receipt;
pub mod status;
pub mod sync;
pub mod text;
pub mod translate;
pub mod upload;
pub mod wire;
