use stonks_engine::indicators::{
    ema_slot, rsi_slot, sma_slot, EmaSlot, RsiSlot, SmaSlot, RSI_WINDOW, SMA_FAST, SMA_SLOW,
};

#[test]
fn sma_warm_up_uses_raw_price() {
    for i in 0..19 {
        assert_eq!(sma_slot(i, SMA_FAST), SmaSlot::Raw);
    }
    assert_eq!(sma_slot(19, SMA_FAST), SmaSlot::Mean { start: 0 });
    assert_eq!(sma_slot(25, SMA_FAST), SmaSlot::Mean { start: 6 });
    assert_eq!(sma_slot(48, SMA_SLOW), SmaSlot::Raw);
    assert_eq!(sma_slot(49, SMA_SLOW), SmaSlot::Mean { start: 0 });
    assert_eq!(sma_slot(0, 1), SmaSlot::Mean { start: 0 });
}

#[test]
fn ema_slots_follow_the_window() {
    assert_eq!(ema_slot(11, 12, 3), EmaSlot::Zero);
    assert_eq!(ema_slot(30, 12, 10), EmaSlot::Raw);
    assert_eq!(ema_slot(30, 12, 11), EmaSlot::Seed);
    assert_eq!(ema_slot(30, 12, 12), EmaSlot::Recur);
    assert_eq!(ema_slot(12, 12, 11), EmaSlot::Seed);
}

#[test]
fn rsi_slots_follow_the_window() {
    assert_eq!(rsi_slot(14, RSI_WINDOW, 3), RsiSlot::Neutral);
    assert_eq!(rsi_slot(30, RSI_WINDOW, 13), RsiSlot::Neutral);
    assert_eq!(rsi_slot(30, RSI_WINDOW, 14), RsiSlot::Seed);
    assert_eq!(rsi_slot(30, RSI_WINDOW, 15), RsiSlot::Recur);
}

#[test]
fn wilder_rsi_stays_in_range_on_sample_series() {
    let prices: Vec<f64> = (0..60).map(|i| 100.0 + ((i * 37) % 11) as f64 - 5.0).collect();
    let w = RSI_WINDOW;
    let mut gain = 0.0_f64;
    let mut loss = 0.0_f64;
    for i in 0..prices.len() {
        let v = match rsi_slot(prices.len(), w, i) {
            RsiSlot::Neutral => 50.0,
            RsiSlot::Seed => {
                for j in 1..=w {
                    let d = prices[j] - prices[j - 1];
                    if d > 0.0 { gain += d } else { loss -= d }
                }
                gain /= w as f64;
                loss /= w as f64;
                if loss == 0.0 { 100.0 } else { 100.0 - 100.0 / (1.0 + gain / loss) }
            }
            RsiSlot::Recur => {
                let d = prices[i] - prices[i - 1];
                gain = (gain * (w as f64 - 1.0) + d.max(0.0)) / w as f64;
                loss = (loss * (w as f64 - 1.0) + (-d).max(0.0)) / w as f64;
                if loss == 0.0 { 100.0 } else { 100.0 - 100.0 / (1.0 + gain / loss) }
            }
        };
        assert!((0.0..=100.0).contains(&v));
    }
}
