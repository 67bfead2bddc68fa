use vstd::prelude::*;

verus! {

/// The closed set of trading strategies; any other name means staying flat.
#[derive(Clone, Copy, Debug, PartialEq, Eq, Structural)]
pub enum Strategy {
    /// Long while the 20-day SMA is above the 50-day SMA.
    SmaCrossover,
    /// Long below RSI 30, flat above RSI 70, otherwise keep the previous signal.
    RsiStrategy,
    /// Long while the MACD line is above its signal line.
    MacdStrategy,
    /// Never long.
    Flat,
}

/// Where the RSI of a day stands against the bands 30 and 70.
#[derive(Clone, Copy, Debug, PartialEq, Eq, Structural)]
pub enum RsiZone {
    /// Strictly below 30.
    Oversold,
    /// From 30 to 70, both included.
    Neutral,
    /// Strictly above 70.
    Overbought,
}

/// What the strategies read from the indicators on one day.
#[derive(Clone, Copy, Debug, PartialEq, Eq, Structural)]
pub struct Reading {
    /// The 20-day SMA is strictly above the 50-day SMA.
    pub sma_fast_above: bool,
    /// Zone of the RSI.
    pub rsi_zone: RsiZone,
    /// The MACD line is strictly above its signal line.
    pub macd_above: bool,
}

/// The strategy that a name selects.
pub open spec fn strategy_named(name: Seq<char>) -> Strategy {
    if name == "SMA_Crossover"@ {
        Strategy::SmaCrossover
    } else if name == "RSI_Strategy"@ {
        Strategy::RsiStrategy
    } else if name == "Macd_Strategy"@ {
        Strategy::MacdStrategy
    } else {
        Strategy::Flat
    }
}

/// Signal of a day, given that day's reading and the previous day's signal.
pub open spec fn next_signal(s: Strategy, r: Reading, prev: bool) -> bool {
    match s {
        Strategy::SmaCrossover => r.sma_fast_above,
        Strategy::RsiStrategy => match r.rsi_zone {
            RsiZone::Oversold => true,
            RsiZone::Overbought => false,
            RsiZone::Neutral => prev,
        },
        Strategy::MacdStrategy => r.macd_above,
        Strategy::Flat => false,
    }
}

/// Signal (true: long) of day `i`; day 0 is flat by construction.
pub open spec fn signal_at(s: Strategy, readings: Seq<Reading>, i: int) -> bool
    decreases i,
{
    if i <= 0 {
        false
    } else {
        next_signal(s, readings[i], signal_at(s, readings, i - 1))
    }
}

/// The whole signal series over the readings.
pub open spec fn signals_of(s: Strategy, readings: Seq<Reading>) -> Seq<bool> {
    Seq::new(readings.len(), |i: int| signal_at(s, readings, i))
}

fn same_text(a: &str, b: &str) -> (r: bool)
    ensures
        r == (a@ == b@),
{
    let n = a.unicode_len();
    if n != b.unicode_len() {
        return false;
    }
    let mut i: usize = 0;
    while i < n
        invariant
            i <= n,
            n == a@.len(),
            n == b@.len(),
            a@.take(i as int) == b@.take(i as int),
        decreases n - i,
    {
        if a.get_char(i) != b.get_char(i) {
            return false;
        }
        assert(a@.take(i + 1) =~= a@.take(i as int).push(a@[i as int]));
        assert(b@.take(i + 1) =~= b@.take(i as int).push(b@[i as int]));
        i = i + 1;
    }
    assert(a@ =~= a@.take(n as int));
    assert(b@ =~= b@.take(n as int));
    true
}

impl Strategy {
    /// The strategy of the given name; an unknown name selects `Flat`.
    pub fn from_name(name: &str) -> (s: Strategy)
        ensures
            s == strategy_named(name@),
    {
        if same_text(name, "SMA_Crossover") {
            Strategy::SmaCrossover
        } else if same_text(name, "RSI_Strategy") {
            Strategy::RsiStrategy
        } else if same_text(name, "Macd_Strategy") {
            Strategy::MacdStrategy
        } else {
            Strategy::Flat
        }
    }

    /// Signal of a day from its reading and the previous day's signal.
    pub fn signal(&self, r: Reading, prev: bool) -> (sig: bool)
        ensures
            sig == next_signal(*self, r, prev),
    {
        match self {
            Strategy::SmaCrossover => r.sma_fast_above,
            Strategy::RsiStrategy => match r.rsi_zone {
                RsiZone::Oversold => true,
                RsiZone::Overbought => false,
                RsiZone::Neutral => prev,
            },
            Strategy::MacdStrategy => r.macd_above,
            Strategy::Flat => false,
        }
    }
}

/// Signal series of a strategy over the daily readings: day 0 is flat, and
/// each later day follows the strategy's rule.
pub fn generate_signals(s: Strategy, readings: &Vec<Reading>) -> (sig: Vec<bool>)
    ensures
        sig@ == signals_of(s, readings@),
{
    let mut sig: Vec<bool> = Vec::new();
    let n = readings.len();
    if n == 0 {
        assert(sig@ =~= signals_of(s, readings@));
        return sig;
    }
    sig.push(false);
    let mut prev = false;
    let mut i: usize = 1;
    while i < n
        invariant
            1 <= i <= n,
            n == readings@.len(),
            sig@.len() == i,
            prev == signal_at(s, readings@, i - 1),
            forall|j: int| 0 <= j < i ==> #[trigger] sig@[j] == signal_at(s, readings@, j),
        decreases n - i,
    {
        prev = s.signal(readings[i], prev);
        sig.push(prev);
        i = i + 1;
    }
    assert(sig@ =~= signals_of(s, readings@));
    sig
}

/// A strategy that is never long: under `Flat` no day signals long,
/// whatever the readings.
pub proof fn lemma_flat_never_long(readings: Seq<Reading>)
    ensures
        forall|i: int| 0 <= i < readings.len() ==> !(#[trigger] signals_of(Strategy::Flat, readings)[i]),
{
    assert forall|i: int| 0 <= i < readings.len() implies !(#[trigger] signals_of(Strategy::Flat, readings)[i]) by {
        if i > 0 {
            assert(!next_signal(Strategy::Flat, readings[i], signal_at(Strategy::Flat, readings, i - 1)));
        }
    }
}

} // verus!
