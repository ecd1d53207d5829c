//! Per-block inflation engine: fixed-point rates, the yearly compounding
//! schedule, permanent stagnation and the block reward formula; also the
//! chain's currency ids and their DEX asset-id encoding.

pub mod perbill;
pub mod types;
pub mod currency;
pub mod inflation;
pub mod laws;
