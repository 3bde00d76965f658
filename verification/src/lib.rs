//! Helpers that the bounty benchmarks use to set up their scenarios:
//! membership handles derived from member indices, the balances handed to
//! funded accounts and bounties, and the block-by-block advance of the chain.

pub mod balance;
pub mod blocks;
pub mod handle;
