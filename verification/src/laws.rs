use vstd::prelude::*;

use crate::errors::TokenError;
use crate::metadata::TokenMetadata;
use crate::token::{
    spec_balance, spec_transfer_outcome, transfer_fits, transfer_updates, BasicERC20Token,
};

verus! {

/// Initialization correctness: on a ledger with no balance entries,
/// writing the owner's initial balance leaves the owner holding the
/// whole supply and every other account holding zero.
pub proof fn lemma_initialize_fresh(
    pre: BasicERC20Token,
    post: BasicERC20Token,
    owner: u64,
    initial_supply: i128,
    other: u64,
)
    requires
        pre.spec_balances() == Map::<u64, i128>::empty(),
        post.spec_balances() == pre.spec_balances().insert(owner, initial_supply),
        other != owner,
    ensures
        post.spec_balance_of(owner) == initial_supply,
        post.spec_balance_of(other) == 0,
{
}

/// Conservation: a successful transfer between two distinct accounts
/// keeps the sum of their two balances, and touches no other entry.
pub proof fn lemma_transfer_conserves_pair(m: Map<u64, i128>, from: u64, to: u64, amount: i128)
    requires
        from != to,
        spec_balance(m, from) >= amount,
        transfer_fits(m, from, to, amount),
    ensures
        spec_balance(transfer_updates(m, from, to, amount), from) + spec_balance(
            transfer_updates(m, from, to, amount),
            to,
        ) == spec_balance(m, from) + spec_balance(m, to),
        forall|a: u64|
            a != from && a != to ==> spec_balance(transfer_updates(m, from, to, amount), a)
                == spec_balance(m, a),
{
}

/// A transfer from an account to itself is a net no-op: every balance,
/// the debited entry included, reads as it did before.
pub proof fn lemma_self_transfer_is_noop(m: Map<u64, i128>, from: u64, amount: i128)
    requires
        spec_balance(m, from) >= amount,
        transfer_fits(m, from, from, amount),
    ensures
        forall|a: u64|
            spec_balance(transfer_updates(m, from, from, amount), a) == spec_balance(m, a),
{
}

/// Non-negativity: starting from balances that are all nonnegative, a
/// successful transfer of a nonnegative amount leaves every balance
/// nonnegative. The two side conditions are needed: no operation
/// rejects a negative amount or a negative initial supply, and either
/// one can drive a balance below zero.
pub proof fn lemma_transfer_keeps_nonnegativity(
    m: Map<u64, i128>,
    from: u64,
    to: u64,
    amount: i128,
)
    requires
        forall|a: u64| spec_balance(m, a) >= 0,
        amount >= 0,
        spec_balance(m, from) >= amount,
        transfer_fits(m, from, to, amount),
    ensures
        forall|a: u64| spec_balance(transfer_updates(m, from, to, amount), a) >= 0,
{
    assert forall|a: u64| spec_balance(transfer_updates(m, from, to, amount), a) >= 0 by {
        assert(spec_balance(m, a) >= 0);
        assert(spec_balance(m, from) >= 0);
        assert(spec_balance(m, to) >= 0);
    }
}

/// Insufficiency aborts: whatever the authorization verdict, an amount
/// above the sender's balance never goes through, and with a valid
/// authorization the verdict is exactly `InsufficientBalance`. Together
/// with `transfer`'s guarantee that every `Err` leaves the balance map
/// unchanged, the failed call is a no-op.
pub proof fn lemma_insufficiency_aborts(
    m: Map<u64, i128>,
    from: u64,
    to: u64,
    amount: i128,
    from_authorized: bool,
)
    requires
        amount > spec_balance(m, from),
    ensures
        spec_transfer_outcome(m, from, to, amount, from_authorized) is Err,
        from_authorized ==> spec_transfer_outcome(m, from, to, amount, from_authorized) == Err::<
            (),
            TokenError,
        >(TokenError::InsufficientBalance),
{
}

/// Authorization gate: without a valid authorization for the sending
/// account the verdict is `Unauthorized`, regardless of sufficiency.
/// Together with `transfer`'s guarantee that every `Err` leaves the
/// balance map unchanged, the rejected call is a no-op.
pub proof fn lemma_unauthorized_aborts(m: Map<u64, i128>, from: u64, to: u64, amount: i128)
    ensures
        spec_transfer_outcome(m, from, to, amount, false) == Err::<(), TokenError>(
            TokenError::Unauthorized,
        ),
{
}

/// Metadata round-trip: a ledger whose metadata record holds a name,
/// symbol and decimal precision answers a metadata read with exactly
/// that record.
pub proof fn lemma_metadata_round_trip(
    t: BasicERC20Token,
    name: String,
    symbol: String,
    decimals: u32,
)
    requires
        t.spec_metadata() == Some((TokenMetadata { name, symbol, decimals })),
    ensures
        t.spec_get_metadata() == Ok::<TokenMetadata, TokenError>(
            (TokenMetadata { name, symbol, decimals }),
        ),
{
}

} // verus!
