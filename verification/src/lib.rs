//! Export of a contiguous range of blockchain block headers.
//!
//! The library holds the verified core: the block-number range, the
//! range-fetch state machine that drives an external JSON-RPC client,
//! the normalizer that turns raw header data into output records, and
//! the JSON document builder that serializes the collected records.

pub mod cli;
pub mod config;
pub mod digits;
pub mod fetch;
pub mod json;
pub mod range;
pub mod record;
pub mod writer;
