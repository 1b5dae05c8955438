//! A model of the ledger that holds the proxy's funds.
//!
//! The proxy keeps no balances of its own. The environment's ledger does,
//! and settles each invocation as a whole: the attached value comes in, the
//! outbound action goes out, or, on an abort, nothing moves at all. This
//! module states that behaviour so that the custody guarantees can be
//! written down and proved.

use vstd::prelude::*;
use crate::amount::Payment;
use crate::contract::{Dispatch, Error, Transfer};

verus! {

/// The proxy's balance of each token kind. A kind that is absent has
/// balance zero.
pub struct Ledger {
    pub balances: Map<Seq<u8>, nat>,
}

impl Ledger {
    /// How much of `token` the proxy holds.
    pub open spec fn balance(self, token: Seq<u8>) -> nat {
        if self.balances.dom().contains(token) {
            self.balances[token]
        } else {
            0
        }
    }

    /// The ledger after `amount` of `token` came in.
    pub open spec fn credit(self, token: Seq<u8>, amount: nat) -> Ledger {
        Ledger { balances: self.balances.insert(token, self.balance(token) + amount) }
    }

    /// The ledger after `amount` of `token` went out, if the proxy holds
    /// that much.
    pub open spec fn debit(self, token: Seq<u8>, amount: nat) -> Result<Ledger, Error> {
        if amount <= self.balance(token) {
            Ok(Ledger { balances: self.balances.insert(token, (self.balance(token) - amount) as nat) })
        } else {
            Err(Error::InsufficientFunds)
        }
    }

    /// The ledger after the value attached to an invocation came in.
    pub open spec fn receive(self, attached: Option<Payment>) -> Ledger {
        match attached {
            Some(p) => self.credit(p.token@, p.amount@),
            None => self,
        }
    }

    /// Settles an invocation that did not abort by itself: the attached
    /// value comes in, then the outbound payment, if there is one, goes out.
    pub open spec fn settle(self, attached: Option<Payment>, outbound: Option<Payment>) -> Result<
        Ledger,
        Error,
    > {
        match outbound {
            Some(p) => self.receive(attached).debit(p.token@, p.amount@),
            None => Ok(self.receive(attached)),
        }
    }

    /// The ledger after an invocation. On an abort, by the proxy or by the
    /// ledger itself, it is the ledger from before.
    pub open spec fn after(self, attached: Option<Payment>, outcome: Result<Option<Payment>, Error>)
        -> Ledger {
        match outcome {
            Ok(outbound) => match self.settle(attached, outbound) {
                Ok(settled) => settled,
                Err(_) => self,
            },
            Err(_) => self,
        }
    }

    /// The ledger after a `deposit` with `attached`.
    pub open spec fn after_deposit(self, attached: Option<Payment>, outcome: Result<(), Error>)
        -> Ledger {
        self.after(
            attached,
            match outcome {
                Ok(_) => Ok(None),
                Err(e) => Err(e),
            },
        )
    }

    /// The ledger after a `withdraw` that answered `outcome`.
    pub open spec fn after_withdraw(
        self,
        attached: Option<Payment>,
        outcome: Result<Transfer, Error>,
    ) -> Ledger {
        self.after(
            attached,
            match outcome {
                Ok(t) => Ok(Some(t.payment)),
                Err(e) => Err(e),
            },
        )
    }

    /// The ledger after a `swap` that answered `outcome`. What the pool
    /// later does with the request is not part of it.
    pub open spec fn after_swap(self, attached: Option<Payment>, outcome: Result<Dispatch, Error>)
        -> Ledger {
        self.after(
            attached,
            match outcome {
                Ok(d) => Ok(Some(d.payment)),
                Err(e) => Err(e),
            },
        )
    }
}

} // verus!
