use vstd::prelude::*;
use crate::strategy::{
    Reading, Strategy, generate_signals, lemma_flat_never_long, signals_of, strategy_named,
};

verus! {

/// What the backtest does at the close of one day.
#[derive(Clone, Copy, Debug, PartialEq, Eq, Structural)]
pub enum Trade {
    /// Convert all cash into shares (after commission).
    Buy,
    /// Convert all shares into cash (after commission).
    Sell,
    /// Keep the current position.
    Hold,
}

/// Whether shares are held after the trade of day `i`: the signal of the
/// day before governs the position of day `i`, and day 0 is all cash.
pub open spec fn holding_on(signals: Seq<bool>, i: int) -> bool {
    1 <= i && signals[i - 1]
}

/// The trade of day `i`: a buy when a long signal meets a flat position, a
/// sale when a flat signal meets held shares, nothing otherwise.
pub open spec fn trade_on(signals: Seq<bool>, i: int) -> Trade {
    if holding_on(signals, i) && !holding_on(signals, i - 1) {
        Trade::Buy
    } else if !holding_on(signals, i) && holding_on(signals, i - 1) {
        Trade::Sell
    } else {
        Trade::Hold
    }
}

/// The trades of every day over a signal series, executed with a one-day
/// lag from a position that starts in cash.
pub fn plan_trades(signals: &Vec<bool>) -> (trades: Vec<Trade>)
    ensures
        trades@.len() == signals@.len(),
        forall|i: int| 0 <= i < signals@.len() ==> #[trigger] trades@[i] == trade_on(signals@, i),
{
    let n = signals.len();
    let mut trades: Vec<Trade> = Vec::new();
    let mut holding = false;
    let mut i: usize = 0;
    while i < n
        invariant
            i <= n,
            n == signals@.len(),
            trades@.len() == i,
            holding == holding_on(signals@, i - 1),
            forall|j: int| 0 <= j < i ==> #[trigger] trades@[j] == trade_on(signals@, j),
        decreases n - i,
    {
        if i == 0 {
            trades.push(Trade::Hold);
        } else if signals[i - 1] {
            if holding {
                trades.push(Trade::Hold);
            } else {
                trades.push(Trade::Buy);
                holding = true;
            }
        } else {
            if holding {
                trades.push(Trade::Sell);
                holding = false;
            } else {
                trades.push(Trade::Hold);
            }
        }
        i = i + 1;
    }
    trades
}

/// The trades that a strategy makes over the daily readings of a price series.
pub fn backtest_trades(s: Strategy, readings: &Vec<Reading>) -> (trades: Vec<Trade>)
    ensures
        trades@.len() == readings@.len(),
        forall|i: int| 0 <= i < readings@.len() ==> #[trigger] trades@[i] == trade_on(signals_of(s, readings@), i),
{
    let signals = generate_signals(s, readings);
    plan_trades(&signals)
}

/// Day 0 never trades: the backtest starts all in cash and its first
/// equity is the initial capital.
pub proof fn lemma_first_day_holds(signals: Seq<bool>)
    ensures
        trade_on(signals, 0) == Trade::Hold,
        !holding_on(signals, 0),
{
}

/// A signal series that is never long makes no trade on any day and never
/// holds shares.
pub proof fn lemma_no_long_no_trade(signals: Seq<bool>)
    requires
        forall|i: int| 0 <= i < signals.len() ==> !(#[trigger] signals[i]),
    ensures
        forall|i: int| 0 <= i < signals.len() ==> #[trigger] trade_on(signals, i) == Trade::Hold,
        forall|i: int| 0 <= i <= signals.len() ==> !(#[trigger] holding_on(signals, i)),
{
    assert forall|i: int| 0 <= i < signals.len() implies #[trigger] trade_on(signals, i) == Trade::Hold by {
        if i >= 1 {
            assert(!signals[i - 1]);
        }
        if i >= 2 {
            assert(!signals[i - 2]);
        }
    }
    assert forall|i: int| 0 <= i <= signals.len() implies !(#[trigger] holding_on(signals, i)) by {
        if i >= 1 {
            assert(!signals[i - 1]);
        }
    }
}

/// A strategy name outside the supported set is permissive, not an error:
/// its backtest never trades, whatever the readings.
pub proof fn lemma_unknown_name_never_trades(name: Seq<char>, readings: Seq<Reading>)
    requires
        strategy_named(name) == Strategy::Flat,
    ensures
        forall|i: int|
            0 <= i < readings.len() ==> #[trigger] trade_on(signals_of(strategy_named(name), readings), i)
                == Trade::Hold,
{
    lemma_flat_never_long(readings);
    lemma_no_long_no_trade(signals_of(Strategy::Flat, readings));
}

/// Buys and sales alternate: a buy happens only from cash and a sale only
/// from shares, so between two buys there is always a sale.
pub proof fn lemma_buys_and_sales_alternate(signals: Seq<bool>, i: int, j: int)
    requires
        0 <= i < j < signals.len(),
        trade_on(signals, i) == Trade::Buy,
        trade_on(signals, j) == Trade::Buy,
    ensures
        exists|k: int| i < k < j && #[trigger] trade_on(signals, k) == Trade::Sell,
{
    // Shares are held after day i, and none just before the buy of day j.
    assert(!holding_on(signals, j - 1));
    assert(i < j - 1) by {
        if i == j - 1 {
            assert(holding_on(signals, i));
        }
    }
    lemma_cash_before_has_sale(signals, i, j - 1);
}

proof fn lemma_cash_before_has_sale(signals: Seq<bool>, i: int, k: int)
    requires
        0 <= i < k < signals.len(),
        holding_on(signals, i),
        !holding_on(signals, k),
    ensures
        exists|m: int| i < m <= k && #[trigger] trade_on(signals, m) == Trade::Sell,
    decreases k - i,
{
    if holding_on(signals, k - 1) {
        assert(trade_on(signals, k) == Trade::Sell);
    } else {
        lemma_cash_before_has_sale(signals, i, k - 1);
        let m = choose|m: int| i < m <= k - 1 && #[trigger] trade_on(signals, m) == Trade::Sell;
        assert(i < m <= k);
    }
}

} // verus!
