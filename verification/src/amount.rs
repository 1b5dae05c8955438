//! Token identifiers and quantities, as the ledger exchanges them.

use vstd::prelude::*;

verus! {

/// The number that a big-endian string of base-256 digits denotes. The empty
/// string denotes zero, and leading zero digits do not change the number.
pub open spec fn be_value(digits: Seq<u8>) -> nat
    decreases digits.len(),
{
    if digits.len() == 0 {
        0
    } else {
        be_value(digits.drop_last()) * 256 + digits.last() as nat
    }
}

/// The name of a token kind on the ledger.
#[derive(Clone, Debug, PartialEq, Eq)]
pub struct TokenId {
    pub bytes: Vec<u8>,
}

impl View for TokenId {
    type V = Seq<u8>;

    open spec fn view(&self) -> Seq<u8> {
        self.bytes@
    }
}

/// An unbounded non-negative quantity of a token, held as big-endian
/// bytes. The proxy never computes with quantities: it hands them on.
#[derive(Clone, Debug, PartialEq, Eq)]
pub struct Amount {
    pub be_bytes: Vec<u8>,
}

impl View for Amount {
    type V = nat;

    open spec fn view(&self) -> nat {
        be_value(self.be_bytes@)
    }
}

/// A quantity of one token kind.
#[derive(Clone, Debug, PartialEq, Eq)]
pub struct Payment {
    pub token: TokenId,
    pub amount: Amount,
}

} // verus!
