use vstd::prelude::*;

verus! {

/// The width of the rendered progress bar, in bar characters.
pub const MAX_BARS: u64 = 25;

/// A point-in-time progress snapshot: the counters as the run saw them, and
/// what a renderer shows for them. While the traversal still runs,
/// `discovered` reflects the files seen so far, not the eventual total, so
/// the percentage is provisional until draining begins.
pub struct Snapshot {
    pub discovered: u64,
    pub completed: u64,
    pub percentage: u64,
    pub filled_bars: u64,
    pub empty_bars: u64,
}

/// The completed share of the discovered files, scaled to a denominator.
/// It reaches the full scale exactly when every discovery has completed.
fn scaled_share(completed: u64, discovered: u64, scale: u64) -> (r: u64)
    requires
        0 < discovered,
        completed <= discovered,
    ensures
        r == completed as int * scale as int / discovered as int,
        r <= scale,
        (r == scale <==> (completed == discovered || scale == 0)),
{
    proof {
        assert(completed as int * scale as int <= u64::MAX as int * u64::MAX as int)
            by (nonlinear_arith)
            requires
                completed <= u64::MAX,
                scale <= u64::MAX,
        ;
    }
    let wide: u128 = (completed as u128) * (scale as u128) / (discovered as u128);
    proof {
        assert(completed as int * scale as int / discovered as int <= scale && (completed as int
            * scale as int / discovered as int == scale <==> (completed == discovered || scale
            == 0))) by (nonlinear_arith)
            requires
                0 < discovered,
                completed <= discovered,
                0 <= scale,
        ;
    }
    wide as u64
}

/// Build the snapshot for the given counters: the percentage is
/// `floor(completed * 100 / discovered)`, and the bar counts split the bar
/// width in the same proportion. The percentage reads 100 exactly when every
/// discovered file has completed, and the bar is full exactly then.
pub fn snapshot(discovered: u64, completed: u64) -> (s: Snapshot)
    requires
        0 < discovered,
        completed <= discovered,
    ensures
        s.discovered == discovered,
        s.completed == completed,
        s.percentage == completed as int * 100 / discovered as int,
        s.percentage <= 100,
        (s.percentage == 100 <==> completed == discovered),
        s.filled_bars == completed as int * MAX_BARS as int / discovered as int,
        s.filled_bars <= MAX_BARS,
        s.empty_bars == MAX_BARS - s.filled_bars,
        (s.filled_bars == MAX_BARS <==> completed == discovered),
{
    let percentage = scaled_share(completed, discovered, 100);
    let filled_bars = scaled_share(completed, discovered, MAX_BARS);
    Snapshot {
        discovered,
        completed,
        percentage,
        filled_bars,
        empty_bars: MAX_BARS - filled_bars,
    }
}

} // verus!
