//! Client-side protocol engine for a cursor-resumable, binary-framed event
//! stream: frame decoding, typed dispatch, commit record resolution and the
//! fail-fast error taxonomy of a subscription session.

pub mod client;
pub mod frames;
pub mod subscriptions;
pub mod firehose;
