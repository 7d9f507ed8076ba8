use vstd::prelude::*;

use crate::errors::TokenError;
use crate::metadata::TokenMetadata;

verus! {

broadcast use vstd::std_specs::hash::group_hash_axioms;

/// Balance of `account` under the balance map `m`: an account with no
/// entry holds zero (absence is default-on-read, never an error).
pub open spec fn spec_balance(m: Map<u64, i128>, account: u64) -> int {
    if m.contains_key(account) {
        m[account] as int
    } else {
        0
    }
}

/// What the transfer engine decides from the two balances it read, the
/// requested amount, and the verdict of the authorization gate.
///
/// The checks come in the order the engine makes them: authorization
/// first, then sufficiency, then the range of both updated balances
/// (checked-abort on overflow). On success the result carries the new
/// sender and receiver balances, in that order. A transfer from an
/// account to itself is a net no-op: the receiving entry is credited
/// from the already debited balance.
pub open spec fn spec_transfer_balances(
    sender_balance: i128,
    receiver_balance: i128,
    same_account: bool,
    amount: i128,
    from_authorized: bool,
) -> Result<(i128, i128), TokenError> {
    let new_sender: int = sender_balance - amount;
    let new_receiver: int = if same_account {
        sender_balance as int
    } else {
        receiver_balance + amount
    };
    if !from_authorized {
        Err(TokenError::Unauthorized)
    } else if sender_balance < amount {
        Err(TokenError::InsufficientBalance)
        // Past the sufficiency check the debited balance is nonnegative,
        // so only its upper bound can be broken.
    } else if new_sender > i128::MAX as int || new_receiver < i128::MIN as int || new_receiver
        > i128::MAX as int {
        Err(TokenError::BalanceOverflow)
    } else {
        Ok(((new_sender as i128, new_receiver as i128)))
    }
}

/// The transfer engine's one computing step, from plain balances to
/// plain balances, so that a host shell can read the two entries, run
/// this step, and write back whatever it returns.
///
/// `sender_balance` and `receiver_balance` are the stored balances of
/// the sending and receiving accounts; when the two accounts are the
/// same entry, `same_account` is true and both reads saw one value.
/// `from_authorized` is the authorization gate's verdict for the
/// sending account. On `Err` nothing is owed to storage; on `Ok` the
/// caller writes the sender's entry first, then the receiver's.
pub fn transfer_balances(
    sender_balance: i128,
    receiver_balance: i128,
    same_account: bool,
    amount: i128,
    from_authorized: bool,
) -> (r: Result<(i128, i128), TokenError>)
    requires
        same_account ==> receiver_balance == sender_balance,
    ensures
        r == spec_transfer_balances(
            sender_balance,
            receiver_balance,
            same_account,
            amount,
            from_authorized,
        ),
{
    if !from_authorized {
        return Err(TokenError::Unauthorized);
    }
    if sender_balance < amount {
        return Err(TokenError::InsufficientBalance);
    }
    let new_sender: i128 = match sender_balance.checked_sub(amount) {
        Some(v) => v,
        None => {
            return Err(TokenError::BalanceOverflow);
        },
    };
    let receiver_debited: i128 = if same_account {
        new_sender
    } else {
        receiver_balance
    };
    let new_receiver: i128 = match receiver_debited.checked_add(amount) {
        Some(v) => v,
        None => {
            return Err(TokenError::BalanceOverflow);
        },
    };
    Ok((new_sender, new_receiver))
}

/// The balance map after a successful transfer: the sender's entry is
/// debited first, then the receiver's entry is credited out of the map
/// that already carries the debit. When `from == to` the credited value
/// is therefore the original balance again: a net no-op.
pub open spec fn transfer_updates(
    m: Map<u64, i128>,
    from: u64,
    to: u64,
    amount: i128,
) -> Map<u64, i128> {
    let debited = m.insert(from, (spec_balance(m, from) - amount) as i128);
    debited.insert(to, (spec_balance(debited, to) + amount) as i128)
}

/// Whether both updated balances of a transfer stay inside the signed
/// 128-bit range, the sender's after the debit and the receiver's
/// after the credit.
pub open spec fn transfer_fits(m: Map<u64, i128>, from: u64, to: u64, amount: i128) -> bool {
    let sender_after: int = spec_balance(m, from) - amount;
    let debited = m.insert(from, sender_after as i128);
    let receiver_after: int = spec_balance(debited, to) + amount;
    &&& i128::MIN as int <= sender_after <= i128::MAX as int
    &&& i128::MIN as int <= receiver_after <= i128::MAX as int
}

/// Verdict of a transfer over the balance map `m`: the authorization
/// gate is consulted first, then sufficiency, then the range of both
/// updated balances; only when all three pass does the transfer go
/// through.
pub open spec fn spec_transfer_outcome(
    m: Map<u64, i128>,
    from: u64,
    to: u64,
    amount: i128,
    from_authorized: bool,
) -> Result<(), TokenError> {
    if !from_authorized {
        Err(TokenError::Unauthorized)
    } else if spec_balance(m, from) < amount {
        Err(TokenError::InsufficientBalance)
    } else if !transfer_fits(m, from, to, amount) {
        Err(TokenError::BalanceOverflow)
    } else {
        Ok(())
    }
}

/// The fungible-token ledger: one balance entry per account ever
/// credited or debited, the metadata record, and the total supply.
/// Accounts are opaque identities, carried here as 64-bit values.
pub struct BasicERC20Token {
    balances: std::collections::HashMap<u64, i128>,
    metadata: Option<TokenMetadata>,
    total_supply: i128,
}

impl BasicERC20Token {
    /// The balance map, one entry per account ever written.
    pub closed spec fn spec_balances(&self) -> Map<u64, i128> {
        self.balances@
    }

    /// The metadata record, `None` before any initialization.
    pub closed spec fn spec_metadata(&self) -> Option<TokenMetadata> {
        self.metadata
    }

    /// The recorded total supply; zero before any initialization.
    pub closed spec fn spec_total_supply(&self) -> i128 {
        self.total_supply
    }

    /// Whether some initialization has happened.
    pub open spec fn is_initialized(&self) -> bool {
        self.spec_metadata() is Some
    }

    /// Balance of `account` in this ledger.
    pub open spec fn spec_balance_of(&self, account: u64) -> int {
        spec_balance(self.spec_balances(), account)
    }

    /// A fresh ledger, as the host hands out storage before any call:
    /// no balance entries, no metadata, zero supply.
    pub fn new() -> (r: Self)
        ensures
            r.spec_balances() == Map::<u64, i128>::empty(),
            r.spec_metadata() == None::<TokenMetadata>,
            r.spec_total_supply() == 0,
    {
        BasicERC20Token {
            balances: std::collections::HashMap::new(),
            metadata: None,
            total_supply: 0,
        }
    }

    /// One-shot setup: writes the metadata record, the total supply,
    /// and the owner's initial balance. Nothing guards against a second
    /// call: invoking it again silently overwrites metadata and supply
    /// and resets the owner's balance, without touching balances
    /// already issued to other accounts. That hazard is kept as the
    /// behaviour of the ledger, not repaired here.
    pub fn initialize(
        &mut self,
        name: String,
        symbol: String,
        decimals: u32,
        initial_supply: i128,
        owner: u64,
    )
        ensures
            final(self).spec_metadata() == Some((TokenMetadata { name, symbol, decimals })),
            final(self).spec_total_supply() == initial_supply,
            final(self).spec_balances() == old(self).spec_balances().insert(owner, initial_supply),
    {
        self.metadata = Some(TokenMetadata { name, symbol, decimals });
        self.total_supply = initial_supply;
        self.balances.insert(owner, initial_supply);
    }

    /// Moves `amount` from `from` to `to`, gated by the host's
    /// authorization verdict for `from` and by the sender's balance.
    /// Any failure leaves every balance, the metadata and the supply
    /// exactly as they were; on success exactly the two entries named
    /// by `from` and `to` change, and a transfer from an account to
    /// itself is a net no-op. The amount is not checked for sign, so a
    /// negative amount moves value from `to` to `from`; a balance
    /// update that would leave the signed 128-bit range aborts the
    /// call (checked-abort, never wrap or saturate).
    pub fn transfer(&mut self, from: u64, to: u64, amount: i128, from_authorized: bool) -> (r:
        Result<(), TokenError>)
        ensures
            r == spec_transfer_outcome(
                old(self).spec_balances(),
                from,
                to,
                amount,
                from_authorized,
            ),
            r is Ok ==> final(self).spec_balances() == transfer_updates(
                old(self).spec_balances(),
                from,
                to,
                amount,
            ),
            r is Err ==> final(self).spec_balances() == old(self).spec_balances(),
            final(self).spec_metadata() == old(self).spec_metadata(),
            final(self).spec_total_supply() == old(self).spec_total_supply(),
    {
        let sender_balance: i128 = self.balance_of(from);
        let receiver_balance: i128 = self.balance_of(to);
        let same_account: bool = from == to;
        match transfer_balances(
            sender_balance,
            receiver_balance,
            same_account,
            amount,
            from_authorized,
        ) {
            Ok((new_sender, new_receiver)) => {
                self.balances.insert(from, new_sender);
                self.balances.insert(to, new_receiver);
                Ok(())
            },
            Err(e) => Err(e),
        }
    }

    /// Balance lookup: total, never fails, returns zero for an account
    /// with no entry.
    pub fn balance_of(&self, user: u64) -> (r: i128)
        ensures
            r as int == self.spec_balance_of(user),
    {
        match self.balances.get(&user) {
            Some(b) => *b,
            None => 0,
        }
    }

    /// What a metadata read returns: the record itself once some
    /// initialization has happened, and a fatal-to-the-call error
    /// before that, since no default record exists.
    pub open spec fn spec_get_metadata(&self) -> Result<TokenMetadata, TokenError> {
        match self.spec_metadata() {
            Some(m) => Ok(m),
            None => Err(TokenError::UninitializedMetadata),
        }
    }

    /// Reads the metadata record. Returns exactly the record written by
    /// the latest initialization, and `UninitializedMetadata` when none
    /// has happened yet.
    pub fn get_metadata(&self) -> (r: Result<TokenMetadata, TokenError>)
        ensures
            r == self.spec_get_metadata(),
            r is Ok <==> self.is_initialized(),
    {
        match &self.metadata {
            Some(m) => Ok(
                TokenMetadata {
                    name: m.name.clone(),
                    symbol: m.symbol.clone(),
                    decimals: m.decimals,
                },
            ),
            None => Err(TokenError::UninitializedMetadata),
        }
    }
}

} // verus!
