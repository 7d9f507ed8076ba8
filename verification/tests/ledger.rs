use token_ledger::errors::TokenError;
use token_ledger::token::{transfer_balances, BasicERC20Token};

fn fresh(initial_supply: i128, owner: u64) -> BasicERC20Token {
    let mut t = BasicERC20Token::new();
    t.initialize(
        String::from("TokenA"),
        String::from("TKA"),
        7,
        initial_supply,
        owner,
    );
    t
}

#[test]
fn init_gives_owner_the_whole_supply() {
    let mut t = BasicERC20Token::new();
    t.initialize(String::from("T"), String::from("TKA"), 7, 1000, 1);
    assert_eq!(t.balance_of(1), 1000);
    assert_eq!(t.balance_of(2), 0);
    assert_eq!(t.balance_of(u64::MAX), 0);
}

#[test]
fn balance_defaults_to_zero_before_init() {
    let t = BasicERC20Token::new();
    assert_eq!(t.balance_of(0), 0);
    assert_eq!(t.balance_of(42), 0);
}

#[test]
fn scenario_transfer_then_insufficient() {
    let owner: u64 = 1;
    let bob: u64 = 2;
    let mut t = fresh(1000, owner);
    assert_eq!(t.balance_of(owner), 1000);

    assert_eq!(t.transfer(owner, bob, 300, true), Ok(()));
    assert_eq!(t.balance_of(owner), 700);
    assert_eq!(t.balance_of(bob), 300);

    assert_eq!(
        t.transfer(owner, bob, 800, true),
        Err(TokenError::InsufficientBalance)
    );
    assert_eq!(t.balance_of(owner), 700);
    assert_eq!(t.balance_of(bob), 300);
}

#[test]
fn successful_transfer_conserves_the_pair_sum() {
    let mut t = fresh(1000, 1);
    t.transfer(1, 2, 250, true).unwrap();
    let before = t.balance_of(1) + t.balance_of(2);
    t.transfer(2, 1, 100, true).unwrap();
    assert_eq!(t.balance_of(1) + t.balance_of(2), before);
    assert_eq!(t.balance_of(1), 850);
    assert_eq!(t.balance_of(2), 150);
}

#[test]
fn insufficient_transfer_is_a_no_op() {
    let mut t = fresh(10, 1);
    assert_eq!(t.transfer(1, 2, 11, true), Err(TokenError::InsufficientBalance));
    assert_eq!(t.balance_of(1), 10);
    assert_eq!(t.balance_of(2), 0);
}

#[test]
fn unauthorized_transfer_is_a_no_op_even_when_sufficient() {
    let mut t = fresh(1000, 1);
    assert_eq!(t.transfer(1, 2, 300, false), Err(TokenError::Unauthorized));
    assert_eq!(t.balance_of(1), 1000);
    assert_eq!(t.balance_of(2), 0);
}

#[test]
fn metadata_round_trips_through_get() {
    let mut t = BasicERC20Token::new();
    t.initialize(String::from("TokenA"), String::from("TKA"), 7, 1000, 1);
    let m = t.get_metadata().unwrap();
    assert_eq!(m.name, "TokenA");
    assert_eq!(m.symbol, "TKA");
    assert_eq!(m.decimals, 7);
}

#[test]
fn metadata_read_before_init_fails() {
    let t = BasicERC20Token::new();
    assert_eq!(t.get_metadata(), Err(TokenError::UninitializedMetadata));
}

#[test]
fn reinitialize_overwrites_without_reconciling() {
    let mut t = fresh(1000, 1);
    t.transfer(1, 2, 300, true).unwrap();
    // The second initialization resets the owner's balance and the
    // metadata, but leaves already-issued balances untouched.
    t.initialize(String::from("TokenB"), String::from("TKB"), 2, 500, 1);
    assert_eq!(t.balance_of(1), 500);
    assert_eq!(t.balance_of(2), 300);
    let m = t.get_metadata().unwrap();
    assert_eq!(m.name, "TokenB");
    assert_eq!(m.symbol, "TKB");
    assert_eq!(m.decimals, 2);
}

#[test]
fn self_transfer_is_a_net_no_op() {
    let mut t = fresh(1000, 1);
    assert_eq!(t.transfer(1, 1, 400, true), Ok(()));
    assert_eq!(t.balance_of(1), 1000);
}

#[test]
fn negative_amount_moves_value_in_reverse() {
    // No sign check exists on the amount: a negative amount credits the
    // sender and debits the receiver.
    let mut t = fresh(1000, 1);
    t.transfer(1, 2, 300, true).unwrap();
    assert_eq!(t.transfer(2, 1, -200, true), Ok(()));
    assert_eq!(t.balance_of(2), 500);
    assert_eq!(t.balance_of(1), 500);
}

#[test]
fn sender_overflow_aborts_with_balance_overflow() {
    // Debiting a negative amount from a balance at the top of the range
    // would overflow; the call aborts and changes nothing.
    let mut t = fresh(i128::MAX, 1);
    assert_eq!(t.transfer(1, 2, -1, true), Err(TokenError::BalanceOverflow));
    assert_eq!(t.balance_of(1), i128::MAX);
    assert_eq!(t.balance_of(2), 0);
}

#[test]
fn receiver_overflow_aborts_with_balance_overflow() {
    let mut t = fresh(i128::MAX, 1);
    t.transfer(1, 2, i128::MAX, true).unwrap();
    // Re-initialization hands the owner a fresh supply while account 2
    // still holds the old one; crediting account 2 again overflows.
    t.initialize(String::from("TokenA"), String::from("TKA"), 7, 10, 1);
    assert_eq!(t.transfer(1, 2, 1, true), Err(TokenError::BalanceOverflow));
    assert_eq!(t.balance_of(1), 10);
    assert_eq!(t.balance_of(2), i128::MAX);
}

#[test]
fn amount_min_cannot_be_debited() {
    let mut t = fresh(0, 1);
    assert_eq!(t.transfer(1, 2, i128::MIN, true), Err(TokenError::BalanceOverflow));
    assert_eq!(t.balance_of(1), 0);
    assert_eq!(t.balance_of(2), 0);
}

#[test]
fn engine_step_computes_both_new_balances() {
    assert_eq!(transfer_balances(1000, 0, false, 300, true), Ok((700, 300)));
    assert_eq!(transfer_balances(1000, 50, false, 1000, true), Ok((0, 1050)));
}

#[test]
fn engine_step_checks_in_order() {
    // Authorization is checked before sufficiency.
    assert_eq!(
        transfer_balances(0, 0, false, 10, false),
        Err(TokenError::Unauthorized)
    );
    assert_eq!(
        transfer_balances(5, 0, false, 10, true),
        Err(TokenError::InsufficientBalance)
    );
    assert_eq!(
        transfer_balances(1, i128::MAX, false, 1, true),
        Err(TokenError::BalanceOverflow)
    );
}

#[test]
fn engine_step_self_transfer_returns_the_old_balance() {
    assert_eq!(transfer_balances(1000, 1000, true, 400, true), Ok((600, 1000)));
}
