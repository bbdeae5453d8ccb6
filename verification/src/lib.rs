//! Block and batch production core of an L2 rollup sequencer node.
//!
//! The crate maintains the two-level block hierarchy (miniblocks nested
//! inside L1 batches), assembles the commitment metadata required to post a
//! batch to the base layer, resolves symbolic block references to concrete
//! sequence numbers, links miniblocks to the batch that will claim them, and
//! dispatches block execution to the VM implementation matching a protocol
//! version while normalizing its outputs.

pub mod hexutil;
pub mod types;
pub mod assembler;
pub mod resolver;
pub mod linker;
pub mod details;
pub mod glue;
