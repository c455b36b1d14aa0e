use lnwallet::liquidity::{
    decide, fee_buffer_sat, optimal_capacity_sat, plan_channel_open, send_amount_sat_from_msat,
    strict_min_capacity_sat, sum_channel_balances_msat, ChannelInfo, LiquidityAction,
    LiquidityDecision,
};

fn channel(balance_msat: u64) -> ChannelInfo {
    ChannelInfo {
        channel_id: vec![0u8; 32],
        balance_msat,
        channel_value_sat: 100_000,
        short_channel_id: Some(7),
        is_usable: true,
        is_public: true,
        counterparty_node_id: vec![2u8; 33],
    }
}

#[test]
fn tier_formulas_match_worked_example() {
    // For a 1000-satoshi payment: strictMin = ceil(1130) + 4000 = 5130,
    // optimal = 5130 + ceil(250) + 2000 = 7380, feeBuffer = ceil(10) + 2000 = 2010.
    assert_eq!(strict_min_capacity_sat(1000), 5130);
    assert_eq!(optimal_capacity_sat(1000), 7380);
    assert_eq!(fee_buffer_sat(1000), 2010);
}

#[test]
fn tier_formulas_round_up() {
    // 101 * 1.13 = 114.13, so the reserve tier rounds to 115.
    assert_eq!(strict_min_capacity_sat(101), 115 + 4000);
    // ceil(101 / 4) = 26, ceil(101 / 100) = 2.
    assert_eq!(optimal_capacity_sat(101), 115 + 4000 + 26 + 2000);
    assert_eq!(fee_buffer_sat(101), 2 + 2000);
    // Zero amount keeps only the fixed buffers.
    assert_eq!(strict_min_capacity_sat(0), 4000);
    assert_eq!(optimal_capacity_sat(0), 6000);
    assert_eq!(fee_buffer_sat(0), 2000);
}

#[test]
fn sufficient_channel_balance_means_no_action() {
    let d = decide(1000, 5_130_000, 0);
    assert_eq!(
        d,
        LiquidityDecision {
            open_needed: false,
            open_possible: false,
            target_capacity_sat: 0,
            use_all_available: false,
        }
    );
}

#[test]
fn rich_l1_balance_opens_at_optimal() {
    // Channel balance low, L1 balance 10000 > 7380 + 2010 = 9390.
    let d = decide(1000, 0, 10_000);
    assert_eq!(
        d,
        LiquidityDecision {
            open_needed: true,
            open_possible: true,
            target_capacity_sat: 7380,
            use_all_available: false,
        }
    );
}

#[test]
fn middling_l1_balance_opens_with_everything() {
    // 8000 lies between 5130 + 2010 = 7140 and 9390.
    let d = decide(1000, 0, 8_000);
    assert_eq!(
        d,
        LiquidityDecision {
            open_needed: true,
            open_possible: true,
            target_capacity_sat: 8_000,
            use_all_available: true,
        }
    );
}

#[test]
fn poor_l1_balance_blocks_the_payment() {
    // 5000 < 7140: a channel is required but cannot be funded.
    let d = decide(1000, 0, 5_000);
    assert_eq!(
        d,
        LiquidityDecision {
            open_needed: true,
            open_possible: false,
            target_capacity_sat: 7380,
            use_all_available: false,
        }
    );
}

#[test]
fn decision_boundaries_are_exact() {
    // One millisatoshi short of the strict minimum still opens.
    let d = decide(1000, 5_129_999, 10_000);
    assert!(d.open_needed);
    // Exactly optimal + feeBuffer is not enough for the optimal tier, but is
    // above strictMin + feeBuffer, so everything available is used.
    let d2 = decide(1000, 0, 9_390);
    assert_eq!(
        d2,
        LiquidityDecision {
            open_needed: true,
            open_possible: true,
            target_capacity_sat: 9_390,
            use_all_available: true,
        }
    );
    // Exactly strictMin + feeBuffer blocks.
    let d3 = decide(1000, 0, 7_140);
    assert_eq!(
        d3,
        LiquidityDecision {
            open_needed: true,
            open_possible: false,
            target_capacity_sat: 7380,
            use_all_available: false,
        }
    );
}

#[test]
fn msat_amount_converts_to_whole_sats() {
    assert_eq!(send_amount_sat_from_msat(1_000), 1);
    assert_eq!(send_amount_sat_from_msat(1_999), 1);
    assert_eq!(send_amount_sat_from_msat(999), 0);
    assert_eq!(send_amount_sat_from_msat(2_500_000), 2_500);
}

#[test]
fn channel_balances_sum_exactly() {
    let channels = vec![channel(1_000), channel(2_000), channel(500)];
    assert_eq!(sum_channel_balances_msat(&channels), Some(3_500));
    assert_eq!(sum_channel_balances_msat(&Vec::new()), Some(0));
}

#[test]
fn channel_balance_overflow_is_reported() {
    let channels = vec![channel(u64::MAX), channel(1)];
    assert!(sum_channel_balances_msat(&channels).is_none());
}

#[test]
fn plan_maps_decisions_to_actions() {
    let none_needed = decide(1000, 5_130_000, 0);
    assert_eq!(plan_channel_open(&none_needed, 0), LiquidityAction::Proceed);

    let open = decide(1000, 0, 10_000);
    assert_eq!(
        plan_channel_open(&open, 10_000),
        LiquidityAction::OpenThenPay { capacity_sat: 7380 }
    );

    let blocked = decide(1000, 0, 5_000);
    assert_eq!(
        plan_channel_open(&blocked, 5_000),
        LiquidityAction::Block { needed_sat: 7380, available_sat: 5_000 }
    );
}
