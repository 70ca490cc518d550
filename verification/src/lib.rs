//! Runtime logic for one half of a split keyboard: a per-tick pipeline that
//! derives an indicator command from the current keyboard state, suppresses
//! redundant updates, and forwards changes to a local driver task and to a
//! remote peer over a byte-oriented link.

pub mod codec;
pub mod command;
pub mod gate;
pub mod hooks;
pub mod mapper;
pub mod misc;
pub mod sink;
