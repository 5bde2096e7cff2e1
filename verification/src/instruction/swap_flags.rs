//! Constants defining the bit flags to use for the Swap flags field

use vstd::prelude::*;

verus! {

/// sets no flags
pub const NONE: u8 = 0x00;

/// sets whether a wsol output will be unwrapped or token account closed (if empty)
pub const CLOSE_OUTPUT: u8 = 0x01;

/// sets whether a token account input will be closed (if empty)
pub const CLOSE_INPUT: u8 = 0x02;

/// For routed swaps, swap 2 - sets whether a wsol output will be unwrapped or token account closed (if empty)
pub const CLOSE_OUTPUT_2: u8 = 0x04;

/// For routed swaps, swap 2 - sets whether a token account input will be closed (if empty)
pub const CLOSE_INPUT_2: u8 = 0x08;

/// The flags of a plain swap that sets none: close the output and the input.
pub open spec fn spec_default() -> u8 {
    0x03
}

/// The flags of a routed swap that sets none: close the input, and the
/// output and input of the second swap.
pub open spec fn spec_default_routed() -> u8 {
    0x0e
}

/// default value produces legacy behavior
pub fn default() -> (r: u8)
    ensures
        r == spec_default(),
        r == CLOSE_OUTPUT | CLOSE_INPUT,
{
    assert(0x01u8 | 0x02u8 == 0x03u8) by (bit_vector);
    CLOSE_OUTPUT | CLOSE_INPUT
}

/// default value produces legacy behavior
pub fn default_routed() -> (r: u8)
    ensures
        r == spec_default_routed(),
        r == CLOSE_INPUT | CLOSE_OUTPUT_2 | CLOSE_INPUT_2,
{
    assert(0x02u8 | 0x04u8 | 0x08u8 == 0x0eu8) by (bit_vector);
    CLOSE_INPUT | CLOSE_OUTPUT_2 | CLOSE_INPUT_2
}

} // verus!
