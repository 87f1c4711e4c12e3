//! The register catalog: which registers exist, how a selector byte picks
//! one, and the fixed response bytes each readable register emits.

use vstd::prelude::*;

verus! {

/// Selector byte that addresses the Measurement register.
pub const MEASUREMENT_SELECTOR: u8 = 0x66;

/// Selector byte that addresses the Product ID register.
pub const PRODUCT_ID_SELECTOR: u8 = 0xC8;

/// The register currently addressed by the bus controller.
///
/// `Uninitialized` is a valid, stable state meaning "no known register
/// selected"; it is not an error.
#[derive(Clone, Copy, Debug, PartialEq, Eq, Structural)]
pub enum Register {
    Measurement,
    ProductId,
    Uninitialized,
}

/// The fixed mapping from a selector byte to a register: 0x66 selects
/// Measurement, 0xC8 selects Product ID, every other byte selects none.
pub open spec fn spec_register_from(address: u8) -> Register {
    if address == MEASUREMENT_SELECTOR {
        Register::Measurement
    } else if address == PRODUCT_ID_SELECTOR {
        Register::ProductId
    } else {
        Register::Uninitialized
    }
}

impl Register {
    /// Resolves a selector byte to a register, total over all 256 byte values.
    pub fn from_address(address: u8) -> (register: Register)
        ensures
            register == spec_register_from(address),
    {
        match address {
            0x66 => Register::Measurement,
            0xC8 => Register::ProductId,
            _ => Register::Uninitialized,
        }
    }
}

/// The Product ID response: value-hi, value-lo, checksum.
pub open spec fn product_id_response() -> Seq<u8> {
    seq![0x08u8, 0x87u8, 0x5Bu8]
}

/// The Measurement response: temperature hi/lo/checksum, then humidity
/// hi/lo/checksum.
pub open spec fn measurement_response() -> Seq<u8> {
    seq![0x65u8, 0xD5u8, 0x52u8, 0x5Du8, 0xD1u8, 0x13u8]
}

/// The byte sequence a register answers with when read; the unselected
/// state answers with nothing.
pub open spec fn spec_response(register: Register) -> Seq<u8> {
    match register {
        Register::ProductId => product_id_response(),
        Register::Measurement => measurement_response(),
        Register::Uninitialized => Seq::empty(),
    }
}

/// Law: 0xC8 is the only selector byte that maps to Product ID, 0x66 the
/// only one that maps to Measurement, and every other byte maps to no
/// register at all.
pub proof fn lemma_selector_mapping(address: u8)
    ensures
        spec_register_from(address) == Register::ProductId <==> address == PRODUCT_ID_SELECTOR,
        spec_register_from(address) == Register::Measurement <==> address == MEASUREMENT_SELECTOR,
        spec_register_from(address) == Register::Uninitialized <==> (address != MEASUREMENT_SELECTOR
            && address != PRODUCT_ID_SELECTOR),
{
}

} // verus!
