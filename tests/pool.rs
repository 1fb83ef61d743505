use amm::contract::{AccountId, Continuation, Contract, LedgerCall, PromiseCall};
use amm::math::{compute_invariant, quote_swap, scale, unscale, AmmError, SwapQuote};

fn id(s: &str) -> AccountId {
    s.to_string()
}

fn pool(a: u128, b: u128) -> Contract {
    Contract::new(id("owner"), id("token_a"), id("token_b"), a, b)
}

/// A pool whose metadata has arrived with zero decimals for both tokens.
fn ready_pool(a: u128, b: u128) -> Contract {
    let mut c = pool(a, b);
    let me = id("amm");
    c.callback_get_info(&me, &me, &id("token_a"), ("A".to_string(), 0)).unwrap();
    c.callback_get_info(&me, &me, &id("token_b"), ("B".to_string(), 0)).unwrap();
    c
}

fn transfer(token: &str, sender: &str, receiver: &str, amount: u128, then: Option<Continuation>) -> PromiseCall {
    PromiseCall {
        token_id: id(token),
        call: LedgerCall::TransferFrom { sender: id(sender), receiver: id(receiver), amount },
        then,
    }
}

#[test]
fn new_pool_has_no_metadata_and_zero_ratio() {
    let c = pool(100, 200);
    assert_eq!(c.get_ratio(), 0);
    assert_eq!(
        c.get_info(),
        ((id("token_a"), String::new(), 100, 1), (id("token_b"), String::new(), 200, 1))
    );
}

#[test]
fn init_calls_fetch_register_and_deposit() {
    let c = pool(100, 200);
    let calls = c.init_calls(&id("amm"));
    assert_eq!(calls.len(), 6);
    assert_eq!(
        calls[0],
        PromiseCall {
            token_id: id("token_a"),
            call: LedgerCall::GetTokenContractMetaInfo,
            then: Some(Continuation::CallbackGetInfo { contract_id: id("token_a") }),
        }
    );
    assert_eq!(
        calls[1],
        PromiseCall {
            token_id: id("token_b"),
            call: LedgerCall::GetTokenContractMetaInfo,
            then: Some(Continuation::CallbackGetInfo { contract_id: id("token_b") }),
        }
    );
    assert_eq!(calls[2], PromiseCall { token_id: id("token_a"), call: LedgerCall::AccountRegister, then: None });
    assert_eq!(calls[3], PromiseCall { token_id: id("token_b"), call: LedgerCall::AccountRegister, then: None });
    assert_eq!(calls[4], transfer("token_a", "owner", "amm", 100, None));
    assert_eq!(calls[5], transfer("token_b", "owner", "amm", 200, None));
}

#[test]
fn metadata_fills_the_matching_token_and_sets_ratio() {
    let mut c = pool(100, 200);
    let me = id("amm");
    assert_eq!(c.callback_get_info(&me, &me, &id("token_b"), ("BBB".to_string(), 6)), Ok(()));
    assert_eq!(c.get_ratio(), 20_000);
    assert_eq!(
        c.get_info(),
        ((id("token_a"), String::new(), 100, 1), (id("token_b"), "BBB".to_string(), 200, 6))
    );
    assert_eq!(c.callback_get_info(&me, &me, &id("other"), ("X".to_string(), 9)), Ok(()));
    assert_eq!(c.get_info().0 .1, String::new());
    assert_eq!(c.get_info().1 .3, 6);
}

#[test]
fn metadata_from_a_stranger_is_refused() {
    let mut c = pool(100, 200);
    let r = c.callback_get_info(&id("mallory"), &id("amm"), &id("token_a"), ("A".to_string(), 3));
    assert_eq!(r, Err(AmmError::Unauthorized));
    assert_eq!(c.get_ratio(), 0);
    assert_eq!(c.get_info().0 .3, 1);
}

#[test]
fn metadata_with_overflowing_product_is_refused() {
    let mut c = pool(u128::MAX, 2);
    let me = id("amm");
    let r = c.callback_get_info(&me, &me, &id("token_a"), ("A".to_string(), 3));
    assert_eq!(r, Err(AmmError::Overflow));
    assert_eq!(c.get_ratio(), 0);
    assert_eq!(c.get_info().0 .1, String::new());
}

#[test]
fn concrete_swap_pins_truncation() {
    let mut c = ready_pool(1_000_000, 1_000_000);
    assert_eq!(c.get_ratio(), 1_000_000_000_000);
    let me = id("amm");
    let leg1 = c.swap_from_a(&id("alice"), &me, 100_000).unwrap();
    let deposit = Continuation::CallbackFtDeposit {
        a_vault_after: 1_100_000,
        b_vault_after: 909_090,
        contract_id: id("token_b"),
        receiver_id: id("alice"),
        amount: 90_910,
    };
    assert_eq!(leg1, transfer("token_a", "alice", "amm", 100_000, Some(deposit)));
    let leg2 = c.callback_ft_deposit(&me, &me, true, 1_100_000, 909_090, id("token_b"), id("alice"), 90_910).unwrap();
    let settle = Continuation::CallbackUpdateVaults { a_vault_after: 1_100_000, b_vault_after: 909_090 };
    assert_eq!(leg2, Some(transfer("token_b", "amm", "alice", 90_910, Some(settle))));
    assert_eq!(c.callback_update_vaults(&me, &me, true, 1_100_000, 909_090), Ok(()));
    assert_eq!(c.get_info().0 .2, 1_100_000);
    assert_eq!(c.get_info().1 .2, 909_090);
    assert_eq!(c.get_ratio(), 999_999_000_000);
    assert!(c.get_ratio() < 1_000_000_000_000);
}

#[test]
fn swap_from_b_mirrors_swap_from_a() {
    let c = ready_pool(1_000_000, 1_000_000);
    let leg1 = c.swap_from_b(&id("bob"), &id("amm"), 100_000).unwrap();
    let deposit = Continuation::CallbackFtDeposit {
        a_vault_after: 909_090,
        b_vault_after: 1_100_000,
        contract_id: id("token_a"),
        receiver_id: id("bob"),
        amount: 90_910,
    };
    assert_eq!(leg1, transfer("token_b", "bob", "amm", 100_000, Some(deposit)));
}

#[test]
fn swap_scales_by_decimals() {
    let c = pool(1_000, 1_000);
    // Before metadata the pool assumes one decimal and K is still zero.
    let leg1 = c.swap_from_a(&id("alice"), &id("amm"), 5).unwrap();
    let deposit = Continuation::CallbackFtDeposit {
        a_vault_after: 1_050,
        b_vault_after: 0,
        contract_id: id("token_b"),
        receiver_id: id("alice"),
        amount: 1_000,
    };
    assert_eq!(leg1, transfer("token_a", "alice", "amm", 50, Some(deposit)));
}

#[test]
fn swap_overflowing_scale_is_refused() {
    let c = ready_pool(1_000, 1_000);
    let me = id("amm");
    let mut c2 = pool(1_000, 1_000);
    c2.callback_get_info(&me, &me, &id("token_a"), ("A".to_string(), 30)).unwrap();
    assert_eq!(c2.swap_from_a(&id("alice"), &me, 1_000_000_000), Err(AmmError::Overflow));
    assert_eq!(c2.get_info().0 .2, 1_000);
    assert_eq!(c.swap_from_a(&id("alice"), &me, u128::MAX - 10), Err(AmmError::Overflow));
    assert_eq!(c.get_info().0 .2, 1_000);
    assert_eq!(c.get_ratio(), 1_000_000);
}

#[test]
fn swap_with_zero_everything_divides_by_zero() {
    let c = ready_pool(0, 0);
    assert_eq!(c.swap_from_a(&id("alice"), &id("amm"), 0), Err(AmmError::DivisionByZero));
}

#[test]
fn swap_beyond_the_destination_vault_lacks_liquidity() {
    let me = id("amm");
    let mut c = ready_pool(1_000, 1_000);
    // With B settled empty, K is zero and a swap quotes no payout.
    c.callback_update_vaults(&me, &me, true, 1_000, 0).unwrap();
    assert_eq!(c.get_ratio(), 0);
    assert_eq!(c.swap_from_a(&id("alice"), &me, 10), Ok(transfer(
        "token_a",
        "alice",
        "amm",
        10,
        Some(Continuation::CallbackFtDeposit {
            a_vault_after: 1_010,
            b_vault_after: 0,
            contract_id: id("token_b"),
            receiver_id: id("alice"),
            amount: 0,
        }),
    )));
    // A curve above the product of the vaults quotes more than the
    // destination vault holds.
    assert_eq!(quote_swap(1, 1, 1_000, 0, 1), Err(AmmError::InsufficientLiquidity));
}

#[test]
fn partial_failure_leaves_vaults_unsettled() {
    let me = id("amm");
    let mut c = ready_pool(1_000_000, 1_000_000);
    let leg1 = c.swap_from_a(&id("alice"), &me, 100_000).unwrap();
    // Leg one succeeded: its continuation issues leg two.
    let leg2 = match leg1.then {
        Some(Continuation::CallbackFtDeposit { a_vault_after, b_vault_after, contract_id, receiver_id, amount }) => {
            c.callback_ft_deposit(&me, &me, true, a_vault_after, b_vault_after, contract_id, receiver_id, amount)
                .unwrap()
                .unwrap()
        }
        _ => panic!("the first leg must continue with the second"),
    };
    // Leg two failed: settlement commits nothing and asks for nothing.
    let (a_after, b_after) = match leg2.then {
        Some(Continuation::CallbackUpdateVaults { a_vault_after, b_vault_after }) => (a_vault_after, b_vault_after),
        _ => panic!("the second leg must continue with settlement"),
    };
    assert_eq!(c.callback_update_vaults(&me, &me, false, a_after, b_after), Ok(()));
    assert_eq!(c.get_info().0 .2, 1_000_000);
    assert_eq!(c.get_info().1 .2, 1_000_000);
    assert_eq!(c.get_ratio(), 1_000_000_000_000);
}

#[test]
fn failed_first_leg_pays_nothing_out() {
    let me = id("amm");
    let c = ready_pool(1_000_000, 1_000_000);
    let r = c.callback_ft_deposit(&me, &me, false, 1_100_000, 909_090, id("token_b"), id("alice"), 90_910);
    assert_eq!(r, Ok(None));
    assert_eq!(c.get_info().1 .2, 1_000_000);
}

#[test]
fn metadata_in_either_order_agrees() {
    let me = id("amm");
    let mut x = pool(300, 700);
    let mut y = pool(300, 700);
    x.callback_get_info(&me, &me, &id("token_a"), ("AAA".to_string(), 6)).unwrap();
    x.callback_get_info(&me, &me, &id("token_b"), ("BBB".to_string(), 9)).unwrap();
    y.callback_get_info(&me, &me, &id("token_b"), ("BBB".to_string(), 9)).unwrap();
    y.callback_get_info(&me, &me, &id("token_a"), ("AAA".to_string(), 6)).unwrap();
    let expected = ((id("token_a"), "AAA".to_string(), 300, 6), (id("token_b"), "BBB".to_string(), 700, 9));
    assert_eq!(x.get_info(), expected);
    assert_eq!(y.get_info(), expected);
    assert_eq!(x.get_ratio(), 210_000);
    assert_eq!(y.get_ratio(), 210_000);
}

#[test]
fn continuations_refuse_strangers() {
    let me = id("amm");
    let mut c = ready_pool(1_000, 2_000);
    assert_eq!(
        c.callback_ft_deposit(&id("mallory"), &me, true, 1, 1, id("token_b"), id("mallory"), 500),
        Err(AmmError::Unauthorized)
    );
    assert_eq!(c.callback_update_vaults(&id("mallory"), &me, true, 1, 1), Err(AmmError::Unauthorized));
    assert_eq!(c.get_info().0 .2, 1_000);
    assert_eq!(c.get_info().1 .2, 2_000);
    assert_eq!(c.get_ratio(), 2_000_000);
}

#[test]
fn settlement_overflow_is_refused() {
    let me = id("amm");
    let mut c = ready_pool(1_000, 2_000);
    assert_eq!(c.callback_update_vaults(&me, &me, true, u128::MAX, 2), Err(AmmError::Overflow));
    assert_eq!(c.get_info().0 .2, 1_000);
    assert_eq!(c.get_ratio(), 2_000_000);
}

#[test]
fn owner_deposit_grows_one_vault() {
    let me = id("amm");
    let mut c = ready_pool(1_000, 2_000);
    let call = c.deposit_a_by_owner(&id("owner"), &me, 500).unwrap();
    let settle = Continuation::CallbackUpdateVaults { a_vault_after: 1_500, b_vault_after: 2_000 };
    assert_eq!(call, transfer("token_a", "owner", "amm", 500, Some(settle)));
    let call = c.deposit_b_by_owner(&id("owner"), &me, 7).unwrap();
    let settle = Continuation::CallbackUpdateVaults { a_vault_after: 1_000, b_vault_after: 2_007 };
    assert_eq!(call, transfer("token_b", "owner", "amm", 7, Some(settle)));
    c.callback_update_vaults(&me, &me, true, 1_500, 2_000).unwrap();
    assert_eq!(c.get_ratio(), 3_000_000);
}

#[test]
fn owner_deposit_refuses_others_and_overflow() {
    let me = id("amm");
    let c = pool(u128::MAX - 1, 2_000);
    assert_eq!(c.deposit_a_by_owner(&id("alice"), &me, 5), Err(AmmError::Unauthorized));
    assert_eq!(c.deposit_b_by_owner(&id("alice"), &me, 5), Err(AmmError::Unauthorized));
    assert_eq!(c.deposit_a_by_owner(&id("owner"), &me, 5), Err(AmmError::Overflow));
    assert_eq!(c.deposit_b_by_owner(&id("owner"), &me, u128::MAX), Err(AmmError::Overflow));
}

#[test]
fn scale_and_unscale() {
    assert_eq!(scale(12, 0), Ok(12));
    assert_eq!(scale(12, 6), Ok(12_000_000));
    assert_eq!(scale(3, 38), Ok(300_000_000_000_000_000_000_000_000_000_000_000_000));
    assert_eq!(scale(4, 38), Err(AmmError::Overflow));
    assert_eq!(scale(0, 39), Err(AmmError::Overflow));
    assert_eq!(unscale(12_000_000, 6), Ok(12));
    assert_eq!(unscale(12_345_678, 6), Ok(12));
    assert_eq!(unscale(5, 39), Err(AmmError::Overflow));
    assert_eq!(scale(unscale(7_000, 3).unwrap(), 3), Ok(7_000));
    assert_eq!(scale(unscale(7_500, 3).unwrap(), 3), Ok(7_000));
}

#[test]
fn invariant_is_checked_product() {
    assert_eq!(compute_invariant(1_100_000, 909_090), Ok(999_999_000_000));
    assert_eq!(compute_invariant(0, u128::MAX), Ok(0));
    assert_eq!(compute_invariant(u128::MAX, 2), Err(AmmError::Overflow));
}

#[test]
fn quote_is_monotone_and_under_the_curve() {
    let q = quote_swap(5_000, 3_000, 15_000_000, 0, 1).unwrap();
    assert_eq!(q, SwapQuote { in_amount: 1, source_after: 5_001, dest_after: 2_999, out_amount: 1 });
    assert!(q.source_after > 5_000 && q.dest_after < 3_000);
    assert!(q.source_after * q.dest_after <= 15_000_000);
    let exact = quote_swap(1_000, 1_000, 1_000_000, 0, 1_000).unwrap();
    assert_eq!(exact.source_after * exact.dest_after, 1_000_000);
    assert_eq!(exact.out_amount, 500);
}
