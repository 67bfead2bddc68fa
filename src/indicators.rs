use vstd::prelude::*;

verus! {

/// Window of the fast simple moving average.
pub const SMA_FAST: usize = 20;
/// Window of the slow simple moving average.
pub const SMA_SLOW: usize = 50;
/// Window of Wilder's RSI.
pub const RSI_WINDOW: usize = 14;
/// Window of the fast EMA of the MACD line.
pub const MACD_FAST: usize = 12;
/// Window of the slow EMA of the MACD line.
pub const MACD_SLOW: usize = 26;
/// Window of the EMA that forms the MACD signal line.
pub const MACD_SIGNAL: usize = 9;

/// Where the SMA value at one index comes from.
#[derive(Clone, Copy, Debug, PartialEq, Eq, Structural)]
pub enum SmaSlot {
    /// Warm-up: the raw price at that index.
    Raw,
    /// The mean of the prices from `start` up to the index, both included.
    Mean { start: usize },
}

/// Where the EMA value at one index comes from.
#[derive(Clone, Copy, Debug, PartialEq, Eq, Structural)]
pub enum EmaSlot {
    /// The series is shorter than the window: zero.
    Zero,
    /// Warm-up: the raw value at that index.
    Raw,
    /// The mean of the first `window` values.
    Seed,
    /// `value * k + previous * (1 - k)`, with `k = 2 / (window + 1)`.
    Recur,
}

/// Where the RSI value at one index comes from.
#[derive(Clone, Copy, Debug, PartialEq, Eq, Structural)]
pub enum RsiSlot {
    /// Warm-up: the neutral value 50.
    Neutral,
    /// Average gain and loss seeded from the first `window` price changes.
    Seed,
    /// Wilder's smoothing of the previous averages with the change at that index.
    Recur,
}

pub open spec fn sma_slot_spec(i: int, window: int) -> SmaSlot {
    if i < window - 1 {
        SmaSlot::Raw
    } else {
        SmaSlot::Mean { start: (i + 1 - window) as usize }
    }
}

pub open spec fn ema_slot_spec(len: int, window: int, i: int) -> EmaSlot {
    if len < window {
        EmaSlot::Zero
    } else if i < window - 1 {
        EmaSlot::Raw
    } else if i == window - 1 {
        EmaSlot::Seed
    } else {
        EmaSlot::Recur
    }
}

pub open spec fn rsi_slot_spec(len: int, window: int, i: int) -> RsiSlot {
    if len <= window || i < window {
        RsiSlot::Neutral
    } else if i == window {
        RsiSlot::Seed
    } else {
        RsiSlot::Recur
    }
}

/// Source of the SMA value at index `i`: the raw price before index
/// `window - 1`, else the mean of the `window` prices ending at `i`.
pub fn sma_slot(i: usize, window: usize) -> (s: SmaSlot)
    requires
        window >= 1,
    ensures
        s == sma_slot_spec(i as int, window as int),
        i < window - 1 <==> s is Raw,
        s matches SmaSlot::Mean { start } ==> start + window == i + 1,
{
    if i < window - 1 {
        SmaSlot::Raw
    } else {
        SmaSlot::Mean { start: i - (window - 1) }
    }
}

/// Source of the EMA value at index `i` of a series of length `len`.
pub fn ema_slot(len: usize, window: usize, i: usize) -> (s: EmaSlot)
    requires
        window >= 1,
    ensures
        s == ema_slot_spec(len as int, window as int, i as int),
{
    if len < window {
        EmaSlot::Zero
    } else if i < window - 1 {
        EmaSlot::Raw
    } else if i == window - 1 {
        EmaSlot::Seed
    } else {
        EmaSlot::Recur
    }
}

/// Source of the RSI value at index `i` of a series of length `len`.
pub fn rsi_slot(len: usize, window: usize, i: usize) -> (s: RsiSlot)
    ensures
        s == rsi_slot_spec(len as int, window as int, i as int),
{
    if len <= window || i < window {
        RsiSlot::Neutral
    } else if i == window {
        RsiSlot::Seed
    } else {
        RsiSlot::Recur
    }
}

/// Below index 19 both SMAs take the raw price: the fast one's warm-up ends
/// at index 19 and the slow one's at index 49.
pub proof fn lemma_sma_warm_up(i: int)
    requires
        0 <= i < SMA_FAST - 1,
    ensures
        sma_slot_spec(i, SMA_FAST as int) is Raw,
        sma_slot_spec(i, SMA_SLOW as int) is Raw,
{
}

/// A recurring EMA value always has a defined predecessor: the seed sits at
/// index `window - 1` and every later index follows it.
pub proof fn lemma_ema_recur_follows(len: int, window: int, i: int)
    requires
        window >= 1,
        0 <= i < len,
        ema_slot_spec(len, window, i) is Recur,
    ensures
        i >= 1,
        ema_slot_spec(len, window, i - 1) is Seed || ema_slot_spec(len, window, i - 1) is Recur,
{
}

/// A recurring RSI value always has a defined predecessor pair of averages.
pub proof fn lemma_rsi_recur_follows(len: int, window: int, i: int)
    requires
        window >= 1,
        0 <= i < len,
        rsi_slot_spec(len, window, i) is Recur,
    ensures
        i >= 1,
        rsi_slot_spec(len, window, i - 1) is Seed || rsi_slot_spec(len, window, i - 1) is Recur,
{
}

} // verus!
