//! An Uniswap-like program for the Solana blockchain: the swap curves, the
//! fixed-point arithmetic they rest on, and the instruction and state formats.

pub mod error;
pub mod math;
pub mod packing;
pub mod curve;
pub mod instruction;
pub mod constraints;
pub mod pubkey;
pub mod state;
pub mod processor;
