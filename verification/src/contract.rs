//! The proxy's persisted state and its operations.
//!
//! An operation never touches the ledger or another contract itself. It
//! checks the caller, updates the state it owns, and returns the one outbound
//! action (a transfer, or a dispatched swap) that the hosting environment is
//! to perform in the same atomic invocation. An `Err` means the invocation
//! aborts: the state is as before and nothing is to be performed.

use vstd::prelude::*;
use crate::address::Address;
use crate::amount::{Amount, Payment, TokenId};
use crate::guard::Context;
use crate::whitelist::Whitelist;

verus! {

/// Why an invocation aborts.
#[derive(Clone, Copy, Debug, PartialEq, Eq)]
pub enum Error {
    /// The caller fails the access check of the operation.
    Unauthorized,
    /// The swap target is not a member of the whitelist.
    NotWhitelisted,
    /// The ledger holds less than an outbound action would move. Only the
    /// ledger raises this, when it settles the action.
    InsufficientFunds,
}

impl Error {
    /// The text that an abort of an owner-only operation, or a refusal by
    /// the ledger, shows.
    pub open spec fn reason_text(self) -> Seq<char> {
        match self {
            Error::Unauthorized => "caller is not authorized"@,
            Error::NotWhitelisted => "target not whitelisted"@,
            Error::InsufficientFunds => "insufficient funds"@,
        }
    }

    /// The text that an abort of `swap` shows: a refused caller is told
    /// that it may not swap, a refused target that it is not whitelisted.
    pub open spec fn swap_reason_text(self) -> Seq<char> {
        match self {
            Error::Unauthorized => "unauthorized swap caller"@,
            Error::NotWhitelisted => "target not whitelisted"@,
            Error::InsufficientFunds => "insufficient funds"@,
        }
    }

    /// The human-readable reason to surface to the caller of any operation
    /// but `swap`.
    pub fn reason(&self) -> (r: &'static str)
        ensures
            r@ == self.reason_text(),
    {
        match self {
            Error::Unauthorized => "caller is not authorized",
            Error::NotWhitelisted => "target not whitelisted",
            Error::InsufficientFunds => "insufficient funds",
        }
    }

    /// The human-readable reason to surface to the caller of `swap`.
    pub fn swap_reason(&self) -> (r: &'static str)
        ensures
            r@ == self.swap_reason_text(),
    {
        match self {
            Error::Unauthorized => "unauthorized swap caller",
            Error::NotWhitelisted => "target not whitelisted",
            Error::InsufficientFunds => "insufficient funds",
        }
    }
}

/// An outbound transfer of custody funds to an account.
#[derive(Clone, Debug, PartialEq, Eq)]
pub struct Transfer {
    pub to: Address,
    pub payment: Payment,
}

/// An untracked swap request to a liquidity pool: `payment` travels with the
/// call, and the pool is asked for at least `min_output` of `output_token`.
/// The call is issued and forgotten. No result comes back and no callback
/// runs, so nothing may be concluded from it beyond that it was issued.
#[derive(Clone, Debug, PartialEq, Eq)]
pub struct Dispatch {
    pub target: Address,
    pub payment: Payment,
    pub output_token: TokenId,
    pub min_output: Amount,
}

/// What an owner-only operation answers to a caller.
pub open spec fn owner_only(ctx: Context) -> Result<(), Error> {
    if ctx.by_owner() {
        Ok(())
    } else {
        Err(Error::Unauthorized)
    }
}

/// What `withdraw` answers when the ledger reports `balance` of `token`: the
/// owner is sent all of it, anyone else is refused.
pub open spec fn withdraw_outcome(ctx: Context, token: TokenId, balance: Amount) -> Result<
    Transfer,
    Error,
> {
    if ctx.by_owner() {
        Ok(Transfer { to: ctx.owner, payment: Payment { token, amount: balance } })
    } else {
        Err(Error::Unauthorized)
    }
}

/// The persisted state as a mathematical value.
pub struct ProxyState {
    pub executor: Option<Address>,
    pub whitelist: Set<Address>,
}

impl ProxyState {
    /// The state at deployment: no executor, no trusted pool.
    pub open spec fn initial() -> ProxyState {
        ProxyState { executor: None, whitelist: Set::empty() }
    }

    /// The state after `address` was designated as the executor.
    pub open spec fn with_executor(self, address: Address) -> ProxyState {
        ProxyState { executor: Some(address), ..self }
    }

    /// The state after `pool` was added to the whitelist.
    pub open spec fn with_lp(self, pool: Address) -> ProxyState {
        ProxyState { whitelist: self.whitelist.insert(pool), ..self }
    }

    /// The state after `pool` was taken off the whitelist.
    pub open spec fn without_lp(self, pool: Address) -> ProxyState {
        ProxyState { whitelist: self.whitelist.remove(pool), ..self }
    }

    /// The caller may trigger a swap: it is the owner or the executor.
    pub open spec fn may_swap(self, ctx: Context) -> bool {
        ctx.by_owner_or(self.executor)
    }

    /// What `swap` answers: the caller is checked first, then the target,
    /// and only then is the request handed on, exactly as it came.
    pub open spec fn swap_outcome(
        self,
        ctx: Context,
        pool: Address,
        input_token: TokenId,
        output_token: TokenId,
        input_amount: Amount,
        output_amount: Amount,
    ) -> Result<Dispatch, Error> {
        if !self.may_swap(ctx) {
            Err(Error::Unauthorized)
        } else if !self.whitelist.contains(pool) {
            Err(Error::NotWhitelisted)
        } else {
            Ok(
                Dispatch {
                    target: pool,
                    payment: Payment { token: input_token, amount: input_amount },
                    output_token,
                    min_output: output_amount,
                },
            )
        }
    }
}

/// The state that the proxy persists between invocations: the designated
/// executor and the whitelist. The owner is not part of it; the environment
/// assigns the owner and names it in every [`Context`].
#[derive(Clone, Debug)]
pub struct YatbProxyContract {
    allowed_executor: Option<Address>,
    whitelisted_lp: Whitelist,
}

impl View for YatbProxyContract {
    type V = ProxyState;

    open spec fn view(&self) -> ProxyState {
        ProxyState { executor: self.executor(), whitelist: self.registry()@ }
    }
}

impl YatbProxyContract {
    /// The designated executor, if one was set.
    pub closed spec fn executor(&self) -> Option<Address> {
        self.allowed_executor
    }

    /// The whitelist as it is stored.
    pub closed spec fn registry(&self) -> Whitelist {
        self.whitelisted_lp
    }

    /// The stored whitelist holds no pool twice.
    pub open spec fn wf(&self) -> bool {
        self.registry().wf()
    }

    /// Deploys the proxy.
    pub fn init() -> (c: YatbProxyContract)
        ensures
            c.wf(),
            c@ == ProxyState::initial(),
    {
        YatbProxyContract { allowed_executor: None, whitelisted_lp: Whitelist::new() }
    }

    /// Rebuilds the state from what was persisted: the executor slot and
    /// the pools found in the whitelist slot. A pool that occurs more than
    /// once in `pools` is kept once.
    pub fn restore(executor: Option<Address>, pools: Vec<Address>) -> (c: YatbProxyContract)
        ensures
            c.wf(),
            c@.executor == executor,
            c@.whitelist == pools@.to_set(),
    {
        let mut whitelist = Whitelist::new();
        let mut i: usize = 0;
        while i < pools.len()
            invariant
                i <= pools@.len(),
                whitelist.wf(),
                whitelist@ == pools@.take(i as int).to_set(),
            decreases pools@.len() - i,
        {
            proof {
                pools@.take(i as int).lemma_push_to_set_commute(pools@[i as int]);
                assert(pools@.take(i as int).push(pools@[i as int]) =~= pools@.take(i + 1));
            }
            whitelist.add(pools[i]);
            i += 1;
        }
        proof {
            assert(pools@.take(pools@.len() as int) =~= pools@);
        }
        YatbProxyContract { allowed_executor: executor, whitelisted_lp: whitelist }
    }

    /// Runs when the code is replaced; the state carries over untouched.
    pub fn upgrade(&mut self)
        ensures
            *final(self) == *old(self),
    {
    }

    /// Designates `address` as the executor, whoever calls.
    pub fn set_allowed_executor(&mut self, address: Address)
        ensures
            final(self)@ == old(self)@.with_executor(address),
            final(self).registry() == old(self).registry(),
    {
        self.allowed_executor = Some(address);
    }

    /// Designates `address` as the executor if the caller is the owner.
    pub fn set_allowed_executor_checked(&mut self, ctx: &Context, address: Address) -> (r: Result<
        (),
        Error,
    >)
        ensures
            r == owner_only(*ctx),
            r is Ok ==> final(self)@ == old(self)@.with_executor(address),
            r is Ok ==> final(self).registry() == old(self).registry(),
            r is Err ==> *final(self) == *old(self),
    {
        if !ctx.is_owner() {
            return Err(Error::Unauthorized);
        }
        self.set_allowed_executor(address);
        Ok(())
    }

    /// The designated executor, if one was set.
    pub fn get_allowed_executor(&self) -> (r: Option<Address>)
        ensures
            r == self@.executor,
    {
        self.allowed_executor
    }

    /// The whitelist, for reading.
    pub fn whitelisted_lp(&self) -> (r: &Whitelist)
        ensures
            *r == self.registry(),
    {
        &self.whitelisted_lp
    }

    /// Owner only: makes `liquidity_pool` a trusted swap target.
    pub fn add_allowed_lp(&mut self, ctx: &Context, liquidity_pool: Address) -> (r: Result<
        (),
        Error,
    >)
        requires
            old(self).wf(),
        ensures
            final(self).wf(),
            r == owner_only(*ctx),
            r is Ok ==> final(self)@ == old(self)@.with_lp(liquidity_pool),
            r is Err ==> *final(self) == *old(self),
    {
        if !ctx.is_owner() {
            return Err(Error::Unauthorized);
        }
        self.whitelisted_lp.add(liquidity_pool);
        Ok(())
    }

    /// Owner only: `liquidity_pool` is no longer a trusted swap target. A
    /// pool that was not trusted is accepted too, and nothing changes.
    pub fn remove_allowed_lp(&mut self, ctx: &Context, liquidity_pool: Address) -> (r: Result<
        (),
        Error,
    >)
        requires
            old(self).wf(),
        ensures
            final(self).wf(),
            r == owner_only(*ctx),
            r is Ok ==> final(self)@ == old(self)@.without_lp(liquidity_pool),
            r is Err ==> *final(self) == *old(self),
    {
        if !ctx.is_owner() {
            return Err(Error::Unauthorized);
        }
        self.whitelisted_lp.remove(&liquidity_pool);
        Ok(())
    }

    /// Tells whether `liquidity_pool` is a trusted swap target.
    pub fn is_allowed_lp(&self, liquidity_pool: &Address) -> (r: bool)
        ensures
            r == self@.whitelist.contains(*liquidity_pool),
    {
        self.whitelisted_lp.contains(liquidity_pool)
    }

    /// Accepts whatever value is attached, from any caller. The ledger
    /// credits it to the proxy; the proxy keeps no record of the depositor,
    /// and only `withdraw` brings the value out again.
    pub fn deposit(&self, ctx: &Context) -> (r: Result<(), Error>)
        ensures
            r == Ok::<(), Error>(()),
    {
        Ok(())
    }

    /// Owner only: sends the owner the proxy's whole balance of `token`,
    /// which the ledger reports as `balance`. A balance of zero is sent like
    /// any other.
    pub fn withdraw(&self, ctx: &Context, token: TokenId, balance: Amount) -> (r: Result<
        Transfer,
        Error,
    >)
        ensures
            r == withdraw_outcome(*ctx, token, balance),
    {
        if !ctx.is_owner() {
            return Err(Error::Unauthorized);
        }
        Ok(Transfer { to: ctx.owner, payment: Payment { token, amount: balance } })
    }

    /// Owner or executor only: forwards a swap of `input_amount` of
    /// `input_token` for at least `output_amount` of `output_token` to
    /// `liquidity_pool`, which must be whitelisted. At most one request is
    /// issued, it is never retried, and its outcome is not observed. The
    /// reason to show for a refusal is the error's `swap_reason`.
    pub fn swap(
        &self,
        ctx: &Context,
        liquidity_pool: Address,
        input_token: TokenId,
        output_token: TokenId,
        input_amount: Amount,
        output_amount: Amount,
    ) -> (r: Result<Dispatch, Error>)
        ensures
            r == self@.swap_outcome(
                *ctx,
                liquidity_pool,
                input_token,
                output_token,
                input_amount,
                output_amount,
            ),
    {
        if !ctx.is_owner_or_executor(self.allowed_executor) {
            return Err(Error::Unauthorized);
        }
        if !self.whitelisted_lp.contains(&liquidity_pool) {
            return Err(Error::NotWhitelisted);
        }
        Ok(
            Dispatch {
                target: liquidity_pool,
                payment: Payment { token: input_token, amount: input_amount },
                output_token,
                min_output: output_amount,
            },
        )
    }
}

} // verus!
