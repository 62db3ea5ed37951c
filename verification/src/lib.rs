//! Offline authentication of certified replies: a labeled hash tree, its
//! canonical digest, path lookup, signature verification against a fixed
//! trust anchor, and extraction of a request's status and reply.

pub mod bytes;
pub mod hash;
pub mod tree;
pub mod digest;
pub mod outside;
pub mod lookup;
pub mod timestamp;
pub mod root_key;
pub mod verify;
pub mod codec;
pub mod workflow;
pub mod request_status;
