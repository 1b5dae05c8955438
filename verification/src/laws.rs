//! What holds of the proxy across operations.

use vstd::prelude::*;
use crate::address::Address;
use crate::amount::{Amount, Payment, TokenId};
use crate::contract::{
    owner_only, withdraw_outcome, Dispatch, Error, ProxyState, Transfer, YatbProxyContract,
};
use crate::custody::Ledger;
use crate::guard::Context;

verus! {

/// A caller that is neither the owner nor the executor cannot swap: the
/// invocation aborts as unauthorized, whether or not the target is
/// whitelisted and whatever the amounts, the reason shown is "unauthorized
/// swap caller", and the ledger is as before. (`swap` borrows the state immutably, so the
/// whitelist and the executor cannot change either.)
pub proof fn law_stranger_cannot_swap(
    state: ProxyState,
    ledger: Ledger,
    ctx: Context,
    pool: Address,
    input_token: TokenId,
    output_token: TokenId,
    input_amount: Amount,
    output_amount: Amount,
)
    requires
        ctx.caller != ctx.owner,
        state.executor != Some(ctx.caller),
    ensures
        state.swap_outcome(ctx, pool, input_token, output_token, input_amount, output_amount)
            == Err::<Dispatch, Error>(Error::Unauthorized),
        state.swap_outcome(ctx, pool, input_token, output_token, input_amount, output_amount)
            matches Err(e) && e.swap_reason_text() == "unauthorized swap caller"@,
        ledger.after_swap(
            ctx.attached,
            state.swap_outcome(ctx, pool, input_token, output_token, input_amount, output_amount),
        ) == ledger,
{
}

/// An authorized caller cannot swap through a pool that is not whitelisted:
/// the invocation aborts, whatever the amounts, before any value leaves
/// custody, and the reason shown is "target not whitelisted".
pub proof fn law_unlisted_pool_gets_nothing(
    state: ProxyState,
    ledger: Ledger,
    ctx: Context,
    pool: Address,
    input_token: TokenId,
    output_token: TokenId,
    input_amount: Amount,
    output_amount: Amount,
)
    requires
        state.may_swap(ctx),
        !state.whitelist.contains(pool),
    ensures
        state.swap_outcome(ctx, pool, input_token, output_token, input_amount, output_amount)
            == Err::<Dispatch, Error>(Error::NotWhitelisted),
        state.swap_outcome(ctx, pool, input_token, output_token, input_amount, output_amount)
            matches Err(e) && e.swap_reason_text() == "target not whitelisted"@,
        ledger.after_swap(
            ctx.attached,
            state.swap_outcome(ctx, pool, input_token, output_token, input_amount, output_amount),
        ) == ledger,
{
}

/// An authorized caller's swap through a whitelisted pool is dispatched to
/// that pool with the request as it came, and if the proxy holds the input
/// it leaves custody in the same invocation.
pub proof fn law_listed_pool_is_served(
    state: ProxyState,
    ledger: Ledger,
    ctx: Context,
    pool: Address,
    input_token: TokenId,
    output_token: TokenId,
    input_amount: Amount,
    output_amount: Amount,
)
    requires
        state.may_swap(ctx),
        state.whitelist.contains(pool),
    ensures
        state.swap_outcome(ctx, pool, input_token, output_token, input_amount, output_amount)
            matches Ok(d) && d.target == pool && d.payment.token == input_token && d.payment.amount
            == input_amount && d.output_token == output_token && d.min_output == output_amount,
        input_amount@ <= ledger.receive(ctx.attached).balance(input_token@) ==> ledger.after_swap(
            ctx.attached,
            state.swap_outcome(ctx, pool, input_token, output_token, input_amount, output_amount),
        ).balance(input_token@) == ledger.receive(ctx.attached).balance(input_token@)
            - input_amount@,
{
}

/// A pool is whitelisted right after it was added and not whitelisted right
/// after it was removed, and adding it a second time changes nothing.
pub proof fn law_whitelist_membership(state: ProxyState, pool: Address)
    ensures
        state.with_lp(pool).whitelist.contains(pool),
        !state.without_lp(pool).whitelist.contains(pool),
        state.with_lp(pool).with_lp(pool) == state.with_lp(pool),
        state.with_lp(pool).executor == state.executor,
        state.without_lp(pool).executor == state.executor,
{
    assert(state.whitelist.insert(pool).insert(pool) =~= state.whitelist.insert(pool));
}

/// A whitelisted pool is stored exactly once, however often it was added.
pub proof fn law_listed_pool_is_stored_once(contract: YatbProxyContract, pool: Address)
    requires
        contract.wf(),
        contract@.whitelist.contains(pool),
    ensures
        contract.registry().entries().to_multiset().count(pool) == 1,
{
    contract.registry().entries().lemma_multiset_has_no_duplicates();
    contract.registry().entries().to_multiset_ensures();
}

/// Whoever is not the owner is refused by every owner-only operation, and
/// the ledger is as before.
pub proof fn law_owner_only(ledger: Ledger, ctx: Context, token: TokenId, balance: Amount)
    requires
        ctx.caller != ctx.owner,
    ensures
        owner_only(ctx) == Err::<(), Error>(Error::Unauthorized),
        withdraw_outcome(ctx, token, balance) == Err::<Transfer, Error>(Error::Unauthorized),
        ledger.after_withdraw(ctx.attached, withdraw_outcome(ctx, token, balance)) == ledger,
{
}

/// After a deposit, the owner's withdrawal of that token transfers what the
/// proxy held before plus the deposit, so exactly the deposit where it held
/// none; a second withdrawal right after transfers zero. `first_read` and
/// `second_read` are the balances that the ledger reports to the two
/// withdrawals.
pub proof fn law_deposit_then_withdraw(
    ledger: Ledger,
    deposit: Payment,
    ctx: Context,
    first_read: Amount,
    second_read: Amount,
)
    requires
        ctx.by_owner(),
        ctx.attached is None,
        first_read@ == ledger.after_deposit(Some(deposit), Ok(())).balance(deposit.token@),
        second_read@ == ledger.after_deposit(Some(deposit), Ok(())).after_withdraw(
            ctx.attached,
            withdraw_outcome(ctx, deposit.token, first_read),
        ).balance(deposit.token@),
    ensures
        withdraw_outcome(ctx, deposit.token, first_read) matches Ok(t) && t.to == ctx.owner
            && t.payment.token == deposit.token && t.payment.amount@ == ledger.balance(
            deposit.token@,
        ) + deposit.amount@ && (ledger.balance(deposit.token@) == 0 ==> t.payment.amount@
            == deposit.amount@),
        withdraw_outcome(ctx, deposit.token, second_read) matches Ok(t) && t.to == ctx.owner
            && t.payment.token == deposit.token && t.payment.amount@ == 0,
{
}

} // verus!
