//! Mining coordinator for a proof-of-scan blockchain node.
//!
//! A candidate block is sealed by combining the block template's pre-hash
//! with a hash of an externally scanned object, deriving a work value from
//! the result, and checking that work against the network difficulty. This
//! crate holds the pieces of that loop that carry algorithmic content: the
//! FIFO queue of candidate objects, the hash-combination protocol, the
//! difficulty rule, and the coordinator state machine that drives them.

pub mod codec;
pub mod coordinator;
pub mod hashes;
pub mod pow;
pub mod queue;
