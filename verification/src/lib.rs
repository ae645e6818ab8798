//! The core of a single-page chat: the transcript, the send flow that drives
//! it, the input field's submit rule and the rendering of the transcript.
//!
//! Everything here works on plain values. The page around it (the reactive
//! cells, the DOM and the network call that produces a reply) hands values in
//! and takes values back.

pub mod conversation;
pub mod input;
pub mod lemmas;
pub mod message;
pub mod send_flow;
pub mod transcript;
