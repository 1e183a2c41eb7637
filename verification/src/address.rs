//! The one type of the Soroban SDK that an escrow carries: the address of a
//! party. The library never looks inside an address; it hands addresses on.
//!
//! Nothing in this module is proved: each item states what the SDK does.

use vstd::prelude::*;
use soroban_sdk::Address;

verus! {

/// `soroban_sdk::Address`, the identity of an account or a contract.
#[verifier::external_type_specification]
#[verifier::external_body]
pub struct ExAddress(soroban_sdk::Address);

/// `Address::clone`, which the SDK derives: the copy is the same address.
pub assume_specification[ <soroban_sdk::Address as Clone>::clone ](who: &Address) -> (copy: Address)
    ensures
        copy == *who,
;

} // verus!
