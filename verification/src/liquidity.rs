//! The channel-capacity sizing policy that gates outbound payments.
//!
//! Before a payment is attempted, the manager checks whether the existing
//! channels can carry it; if not, it sizes the channel that must be opened
//! first. The decision has three tiers built from policy constants: a strict
//! minimum (the payment plus a reserve margin plus a fixed buffer), an
//! optimal target with headroom beyond the immediate payment, and a fee
//! buffer reserved for the funding transaction. Liquidity insufficiency is a
//! first-class outcome, not an error: the caller must block the payment and
//! surface the shortfall.

use vstd::prelude::*;

verus! {

/// Reserve margin over the payment amount, in percent: models the channel
/// reserve the protocol withholds.
pub const RESERVE_MARGIN_PERCENT: u64 = 13;

/// Fixed buffer on top of the reserve margin, in satoshis.
pub const RESERVE_FIXED_BUFFER_SAT: u64 = 4000;

/// Divisor for the headroom tier: a quarter of the payment amount again.
pub const HEADROOM_DIVISOR: u64 = 4;

/// Fixed buffer on top of the headroom, in satoshis.
pub const HEADROOM_FIXED_BUFFER_SAT: u64 = 2000;

/// Margin reserved for funding-transaction fees, in percent.
pub const FEE_MARGIN_PERCENT: u64 = 1;

/// Fixed buffer on top of the fee margin, in satoshis.
pub const FEE_FIXED_BUFFER_SAT: u64 = 2000;

/// How long a caller must wait after requesting a channel open before the
/// gated payment is attempted, in milliseconds. Channel usability is
/// asynchronous relative to the open request; this fixed settling interval is
/// a deliberately simple backpressure mechanism, surfaced here so it can be
/// tuned.
pub const CHANNEL_SETTLE_WAIT_MS: u64 = 10000;

/// Largest payment amount, in satoshis, the capacity arithmetic accepts
/// without its intermediate products leaving the machine word. Far above the
/// largest amount a millisatoshi-denominated payment can encode.
pub const MAX_SEND_AMOUNT_SAT: u64 = 100_000_000_000_000_000;

/// `ceil(s * p / 100)` for a non-negative amount `s` and percentage `p`.
pub open spec fn spec_ceil_percent(s: int, p: int) -> int {
    (s * p + 99) / 100
}

/// Strict minimum capacity for a payment: the amount plus the reserve margin,
/// plus the fixed reserve buffer.
pub open spec fn spec_strict_min(s: int) -> int {
    spec_ceil_percent(s, 100 + RESERVE_MARGIN_PERCENT) + RESERVE_FIXED_BUFFER_SAT
}

/// Optimal capacity: the strict minimum plus a quarter of the amount again,
/// plus the fixed headroom buffer.
pub open spec fn spec_optimal(s: int) -> int {
    spec_strict_min(s) + (s + 3) / (HEADROOM_DIVISOR as int) + HEADROOM_FIXED_BUFFER_SAT
}

/// Fee buffer: one percent of the amount, rounded up, plus the fixed fee
/// buffer.
pub open spec fn spec_fee_buffer(s: int) -> int {
    spec_ceil_percent(s, FEE_MARGIN_PERCENT as int) + FEE_FIXED_BUFFER_SAT
}

/// Bounds on the three tiers when the amount respects the arithmetic bound:
/// everything the tier computations form stays inside the machine word.
proof fn lemma_tier_bounds(s: int)
    requires
        0 <= s <= MAX_SEND_AMOUNT_SAT,
    ensures
        0 <= s * 113 <= 11_300_000_000_000_000_000,
        0 <= spec_strict_min(s) <= 200_000_000_000_000_000,
        0 <= spec_optimal(s) <= 300_000_000_000_000_000,
        0 <= spec_fee_buffer(s) <= 2_000_000_000_000_000,
{
    vstd::arithmetic::mul::lemma_mul_nonnegative(s, 113);
    vstd::arithmetic::mul::lemma_mul_inequality(s, MAX_SEND_AMOUNT_SAT as int, 113);
    vstd::arithmetic::div_mod::lemma_div_is_ordered(0, s * 113 + 99, 100);
    vstd::arithmetic::div_mod::lemma_div_is_ordered(
        s * 113 + 99,
        11_300_000_000_000_000_099,
        100,
    );
    vstd::arithmetic::mul::lemma_mul_nonnegative(s, 1);
    vstd::arithmetic::mul::lemma_mul_inequality(s, MAX_SEND_AMOUNT_SAT as int, 1);
    vstd::arithmetic::div_mod::lemma_div_is_ordered(0, s * 1 + 99, 100);
    vstd::arithmetic::div_mod::lemma_div_is_ordered(s * 1 + 99, 100_000_000_000_000_099, 100);
    vstd::arithmetic::div_mod::lemma_div_is_ordered(0, s + 3, 4);
    vstd::arithmetic::div_mod::lemma_div_is_ordered(s + 3, 100_000_000_000_000_003, 4);
}

/// The payment amount in whole satoshis for a millisatoshi-denominated
/// payment. The result always satisfies the capacity arithmetic's bound.
pub fn send_amount_sat_from_msat(amount_msat: u64) -> (r: u64)
    ensures
        r == amount_msat / 1000,
        r <= MAX_SEND_AMOUNT_SAT,
{
    amount_msat / 1000
}

/// Computes the strict minimum capacity.
pub fn strict_min_capacity_sat(send_amount_sat: u64) -> (r: u64)
    requires
        send_amount_sat <= MAX_SEND_AMOUNT_SAT,
    ensures
        r as int == spec_strict_min(send_amount_sat as int),
{
    proof {
        lemma_tier_bounds(send_amount_sat as int);
    }
    (send_amount_sat * (100 + RESERVE_MARGIN_PERCENT) + 99) / 100 + RESERVE_FIXED_BUFFER_SAT
}

/// Computes the optimal capacity.
pub fn optimal_capacity_sat(send_amount_sat: u64) -> (r: u64)
    requires
        send_amount_sat <= MAX_SEND_AMOUNT_SAT,
    ensures
        r as int == spec_optimal(send_amount_sat as int),
{
    proof {
        lemma_tier_bounds(send_amount_sat as int);
    }
    strict_min_capacity_sat(send_amount_sat) + (send_amount_sat + 3) / HEADROOM_DIVISOR
        + HEADROOM_FIXED_BUFFER_SAT
}

/// Computes the fee buffer.
pub fn fee_buffer_sat(send_amount_sat: u64) -> (r: u64)
    requires
        send_amount_sat <= MAX_SEND_AMOUNT_SAT,
    ensures
        r as int == spec_fee_buffer(send_amount_sat as int),
{
    proof {
        lemma_tier_bounds(send_amount_sat as int);
    }
    (send_amount_sat * FEE_MARGIN_PERCENT + 99) / 100 + FEE_FIXED_BUFFER_SAT
}

/// What a pending payment requires of the channel set: computed fresh per
/// attempt, never persisted.
#[derive(Clone, Copy, PartialEq, Eq, Structural, Debug)]
pub struct LiquidityDecision {
    /// A new channel must be opened before the payment can succeed.
    pub open_needed: bool,
    /// The on-chain balance can fund the required open.
    pub open_possible: bool,
    /// Capacity to open at, in satoshis; the optimal target, or the whole
    /// available balance when only the strict minimum can be funded.
    pub target_capacity_sat: u64,
    /// The open should spend the entire available on-chain balance.
    pub use_all_available: bool,
}

/// Decides whether and how large a channel must be opened for a payment of
/// `send_amount_sat`, given the sum of existing channel balances (in
/// millisatoshis) and the on-chain balance (in satoshis).
///
/// The tiers, in order: existing channels suffice when their balance covers
/// the strict minimum; a balance above the optimal target plus fees opens at
/// the optimal target; a balance above only the strict minimum plus fees
/// opens with everything available; anything less blocks the payment.
pub fn decide(send_amount_sat: u64, channel_balance_sum_msat: u64, l1_balance_sat: u64) -> (r:
    LiquidityDecision)
    requires
        send_amount_sat <= MAX_SEND_AMOUNT_SAT,
    ensures
        ({
            let sm = spec_strict_min(send_amount_sat as int);
            let opt = spec_optimal(send_amount_sat as int);
            let fb = spec_fee_buffer(send_amount_sat as int);
            let cb = channel_balance_sum_msat as int / 1000;
            let l1 = l1_balance_sat as int;
            &&& r.open_needed == (cb < sm)
            &&& r.open_possible == (cb < sm && l1 > sm + fb)
            &&& (cb >= sm ==> r.target_capacity_sat == 0 && !r.use_all_available)
            &&& (cb < sm && l1 > opt + fb ==> r.target_capacity_sat as int == opt
                && !r.use_all_available)
            &&& (cb < sm && l1 <= opt + fb && l1 > sm + fb ==> r.target_capacity_sat
                == l1_balance_sat && r.use_all_available)
            &&& (cb < sm && l1 <= sm + fb ==> r.target_capacity_sat as int == opt
                && !r.use_all_available)
        }),
{
    proof {
        lemma_tier_bounds(send_amount_sat as int);
    }
    let strict_min = strict_min_capacity_sat(send_amount_sat);
    let optimal = optimal_capacity_sat(send_amount_sat);
    let fee_buffer = fee_buffer_sat(send_amount_sat);

    let channel_balance_sat = channel_balance_sum_msat / 1000;
    if channel_balance_sat >= strict_min {
        // Existing channels suffice; no action.
        return LiquidityDecision {
            open_needed: false,
            open_possible: false,
            target_capacity_sat: 0,
            use_all_available: false,
        };
    }
    if l1_balance_sat > optimal + fee_buffer {
        // Open at the optimal target.
        return LiquidityDecision {
            open_needed: true,
            open_possible: true,
            target_capacity_sat: optimal,
            use_all_available: false,
        };
    }
    if l1_balance_sat > strict_min + fee_buffer {
        // Enough for the strict minimum plus fees, but not for the optimal
        // target: open with everything available.
        return LiquidityDecision {
            open_needed: true,
            open_possible: true,
            target_capacity_sat: l1_balance_sat,
            use_all_available: true,
        };
    }
    // A channel is required but cannot be funded; the payment must be
    // blocked and reported, not attempted.
    LiquidityDecision {
        open_needed: true,
        open_possible: false,
        target_capacity_sat: optimal,
        use_all_available: false,
    }
}

/// One channel as the channel manager lists it.
pub struct ChannelInfo {
    /// The channel's identifier, 32 bytes.
    pub channel_id: Vec<u8>,
    /// Our balance in the channel, in millisatoshis.
    pub balance_msat: u64,
    /// The channel's total capacity, in satoshis.
    pub channel_value_sat: u64,
    /// Set once the funding transaction is buried.
    pub short_channel_id: Option<u64>,
    /// The channel can carry payments right now.
    pub is_usable: bool,
    /// The channel is announced to the network.
    pub is_public: bool,
    /// The counterparty's node id, 33 bytes.
    pub counterparty_node_id: Vec<u8>,
}

/// The exact sum, in millisatoshis, of the listed channels' balances.
pub open spec fn spec_sum_channel_msat(channels: Seq<ChannelInfo>) -> int
    decreases channels.len(),
{
    if channels.len() == 0 {
        0
    } else {
        channels[0].balance_msat + spec_sum_channel_msat(channels.drop_first())
    }
}

/// A sum of channel balances is never negative.
pub proof fn lemma_sum_channel_msat_nonneg(channels: Seq<ChannelInfo>)
    ensures
        spec_sum_channel_msat(channels) >= 0,
    decreases channels.len(),
{
    if channels.len() > 0 {
        lemma_sum_channel_msat_nonneg(channels.drop_first());
    }
}

/// Peeling one element off the front of a suffix.
proof fn lemma_sum_channel_msat_skip(channels: Seq<ChannelInfo>, i: int)
    requires
        0 <= i < channels.len(),
    ensures
        spec_sum_channel_msat(channels.skip(i)) == channels[i].balance_msat
            + spec_sum_channel_msat(channels.skip(i + 1)),
{
    assert(channels.skip(i).drop_first() =~= channels.skip(i + 1));
    assert(channels.skip(i).len() > 0);
}

/// Sums the listed channels' balances when the total fits the machine word;
/// `None` reports an overflowing total without computing a wrong one.
pub fn sum_channel_balances_msat(channels: &Vec<ChannelInfo>) -> (r: Option<u64>)
    ensures
        r is Some <==> spec_sum_channel_msat(channels@) <= u64::MAX,
        r matches Some(v) ==> v as int == spec_sum_channel_msat(channels@),
{
    let n = channels.len();
    let mut acc: u64 = 0;
    let mut i: usize = 0;
    proof {
        assert(channels@.skip(0) =~= channels@);
    }
    while i < n
        invariant
            n == channels@.len(),
            i <= n,
            acc + spec_sum_channel_msat(channels@.skip(i as int)) == spec_sum_channel_msat(
                channels@,
            ),
        decreases n - i,
    {
        proof {
            lemma_sum_channel_msat_skip(channels@, i as int);
            lemma_sum_channel_msat_nonneg(channels@.skip(i as int + 1));
        }
        let amount = channels[i].balance_msat;
        if amount > u64::MAX - acc {
            return None;
        }
        acc = acc + amount;
        i += 1;
    }
    proof {
        assert(channels@.skip(n as int) =~= Seq::<ChannelInfo>::empty());
    }
    Some(acc)
}

/// What the caller must do with a liquidity decision.
#[derive(Clone, Copy, PartialEq, Eq, Structural, Debug)]
pub enum LiquidityAction {
    /// Existing channels suffice; attempt the payment directly.
    Proceed,
    /// Request a channel open of the given capacity from the channel manager,
    /// wait `CHANNEL_SETTLE_WAIT_MS` for the channel to become usable, then
    /// attempt the payment.
    OpenThenPay { capacity_sat: u64 },
    /// The payment must not proceed: a channel is required but the on-chain
    /// balance cannot fund it. Both sides of the shortfall are surfaced so
    /// the operator can fund the wallet.
    Block { needed_sat: u64, available_sat: u64 },
}

/// Turns a liquidity decision into the caller's next step. A blocked payment
/// is surfaced with the computed target against the available balance — a
/// failure for the operator, never a silent retry.
pub fn plan_channel_open(decision: &LiquidityDecision, l1_balance_sat: u64) -> (r: LiquidityAction)
    ensures
        !decision.open_needed ==> r == LiquidityAction::Proceed,
        decision.open_needed && decision.open_possible ==> r == (LiquidityAction::OpenThenPay {
            capacity_sat: decision.target_capacity_sat,
        }),
        decision.open_needed && !decision.open_possible ==> r == (LiquidityAction::Block {
            needed_sat: decision.target_capacity_sat,
            available_sat: l1_balance_sat,
        }),
{
    if !decision.open_needed {
        LiquidityAction::Proceed
    } else if decision.open_possible {
        LiquidityAction::OpenThenPay { capacity_sat: decision.target_capacity_sat }
    } else {
        LiquidityAction::Block {
            needed_sat: decision.target_capacity_sat,
            available_sat: l1_balance_sat,
        }
    }
}

} // verus!
