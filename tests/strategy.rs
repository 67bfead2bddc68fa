use stonks_engine::backtest::{backtest_trades, plan_trades, Trade};
use stonks_engine::indicators::{sma_slot, SmaSlot};
use stonks_engine::strategy::{generate_signals, Reading, RsiZone, Strategy};

fn reading(sma: bool, zone: RsiZone, macd: bool) -> Reading {
    Reading { sma_fast_above: sma, rsi_zone: zone, macd_above: macd }
}

fn sma(prices: &[f64], window: usize) -> Vec<f64> {
    (0..prices.len())
        .map(|i| match sma_slot(i, window) {
            SmaSlot::Raw => prices[i],
            SmaSlot::Mean { start } => prices[start..=i].iter().sum::<f64>() / window as f64,
        })
        .collect()
}

#[test]
fn names_select_strategies() {
    assert_eq!(Strategy::from_name("SMA_Crossover"), Strategy::SmaCrossover);
    assert_eq!(Strategy::from_name("RSI_Strategy"), Strategy::RsiStrategy);
    assert_eq!(Strategy::from_name("Macd_Strategy"), Strategy::MacdStrategy);
    assert_eq!(Strategy::from_name("MACD_Strategy"), Strategy::Flat);
    assert_eq!(Strategy::from_name("SMA_Crossover "), Strategy::Flat);
    assert_eq!(Strategy::from_name(""), Strategy::Flat);
}

#[test]
fn sma_crossover_scenario_on_eight_prices() {
    let prices = [100.0_f64, 102.0, 101.0, 105.0, 103.0, 108.0, 107.0, 110.0];
    let fast = sma(&prices, 20);
    let slow = sma(&prices, 50);
    assert_eq!(fast, prices.to_vec());
    assert_eq!(slow, prices.to_vec());
    let readings: Vec<Reading> = (0..prices.len())
        .map(|i| reading(fast[i] > slow[i], RsiZone::Neutral, false))
        .collect();
    let signals = generate_signals(Strategy::from_name("SMA_Crossover"), &readings);
    assert_eq!(signals, vec![false; 8]);
    let trades = backtest_trades(Strategy::SmaCrossover, &readings);
    assert_eq!(trades, vec![Trade::Hold; 8]);
}

#[test]
fn day_zero_is_flat_for_every_strategy() {
    let readings = vec![reading(true, RsiZone::Oversold, true); 3];
    for s in [Strategy::SmaCrossover, Strategy::RsiStrategy, Strategy::MacdStrategy] {
        assert_eq!(generate_signals(s, &readings), vec![false, true, true]);
    }
    assert_eq!(generate_signals(Strategy::Flat, &readings), vec![false, false, false]);
}

#[test]
fn rsi_strategy_holds_inside_the_band() {
    let zones = [
        RsiZone::Neutral,
        RsiZone::Neutral,
        RsiZone::Oversold,
        RsiZone::Neutral,
        RsiZone::Neutral,
        RsiZone::Overbought,
        RsiZone::Neutral,
        RsiZone::Oversold,
    ];
    let readings: Vec<Reading> = zones.iter().map(|z| reading(false, *z, false)).collect();
    let signals = generate_signals(Strategy::RsiStrategy, &readings);
    assert_eq!(signals, vec![false, false, true, true, true, false, false, true]);
}

#[test]
fn macd_strategy_follows_the_line() {
    let readings: Vec<Reading> = [true, false, true, true, false]
        .iter()
        .map(|m| reading(false, RsiZone::Neutral, *m))
        .collect();
    assert_eq!(
        generate_signals(Strategy::MacdStrategy, &readings),
        vec![false, false, true, true, false]
    );
}

#[test]
fn trades_lag_signals_by_one_day() {
    let signals = vec![true, true, false, false, true, false];
    let trades = plan_trades(&signals);
    assert_eq!(
        trades,
        vec![Trade::Hold, Trade::Buy, Trade::Hold, Trade::Sell, Trade::Hold, Trade::Buy]
    );
}

#[test]
fn no_long_signal_means_no_trade() {
    let trades = plan_trades(&vec![false; 10]);
    assert_eq!(trades, vec![Trade::Hold; 10]);
    assert_eq!(plan_trades(&Vec::new()), Vec::<Trade>::new());
}

#[test]
fn unknown_strategy_never_trades() {
    let readings = vec![reading(true, RsiZone::Oversold, true); 6];
    let trades = backtest_trades(Strategy::from_name("Buy_And_Hold"), &readings);
    assert_eq!(trades, vec![Trade::Hold; 6]);
}
