//! A minimal publish/subscribe messaging client core.
//!
//! Two small command-line demo programs share this logic: each either emits
//! one message to an AMQP broker or consumes messages from a bound queue,
//! selected by a single flag. The networking itself is delegated to an AMQP
//! client library; this crate holds everything the programs decide and
//! compute — argument dispatch, payload construction, message-line
//! formatting, UTF-8 decoding policy, and the per-event decisions of the
//! consume loops — with contracts stating the observable behaviour.

use vstd::prelude::*;

pub mod cli;
pub mod codec;
pub mod config;
pub mod consume;
pub mod lines;
pub mod decimal;
pub mod payload;
pub mod publish;

verus! {

} // verus!
