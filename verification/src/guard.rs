//! The access checks that every restricted operation consults.

use vstd::prelude::*;
use crate::address::Address;
use crate::amount::Payment;

verus! {

/// What the hosting environment knows about one invocation: who calls, who
/// owns the deployed proxy, and the value that came attached to the call.
#[derive(Clone, Debug, PartialEq, Eq)]
pub struct Context {
    pub caller: Address,
    pub owner: Address,
    pub attached: Option<Payment>,
}

impl Context {
    /// The caller is the owner.
    pub open spec fn by_owner(&self) -> bool {
        self.caller == self.owner
    }

    /// The caller is the owner, or the account that `executor` designates.
    pub open spec fn by_owner_or(&self, executor: Option<Address>) -> bool {
        self.caller == self.owner || executor == Some(self.caller)
    }

    /// Tells whether the caller may use the owner-only operations.
    pub fn is_owner(&self) -> (r: bool)
        ensures
            r == self.by_owner(),
    {
        self.caller == self.owner
    }

    /// Tells whether the caller may trigger a swap, given the executor that
    /// is designated at the moment (if any).
    pub fn is_owner_or_executor(&self, executor: Option<Address>) -> (r: bool)
        ensures
            r == self.by_owner_or(executor),
    {
        if self.caller == self.owner {
            return true;
        }
        match executor {
            Some(e) => self.caller == e,
            None => false,
        }
    }
}

} // verus!
