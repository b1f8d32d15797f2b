//! The clear color that oscillates over a two-second period.
//!
//! Colors are kept exactly, as integer numerators over `COLOR_DENOMINATOR`:
//! a channel value `c` stands for the intensity `c / COLOR_DENOMINATOR`.
use vstd::prelude::*;

verus! {

/// Length of one color oscillation, in milliseconds.
pub const PERIOD_MILLIS: u64 = 2000;

/// Milliseconds in one unit of phase (the phase runs from 0 up to 2).
pub const MILLIS_PER_PHASE_UNIT: u64 = 1000;

/// Denominator of every channel of a `ClearColor`.
pub const COLOR_DENOMINATOR: u64 = 4000;

/// A color whose channels are numerators over `COLOR_DENOMINATOR`.
#[derive(Clone, Copy, Debug, PartialEq, Eq, Structural)]
pub struct ClearColor {
    pub red: u64,
    pub green: u64,
    pub blue: u64,
    pub alpha: u64,
}

/// Milliseconds of elapsed time given as whole seconds and sub-second nanoseconds.
pub open spec fn millis_of(secs: u64, subsec_nanos: u32) -> int {
    secs * 1000 + subsec_nanos / 1_000_000
}

/// The phase at `m` milliseconds, in thousandths: the phase itself is
/// `phase_thousandths(m) / 1000`, which lies in `[0, 2)`.
pub open spec fn phase_thousandths(m: u64) -> int {
    (m % 2000) as int
}

/// The clear color at `m` milliseconds: `(t/2, 1 - t/2, 1, 1)` for phase `t`.
/// With `t = p / 1000` for `p = phase_thousandths(m)`, the red channel `t/2`
/// is `2 * p / 4000`.
pub open spec fn color_at(m: u64) -> ClearColor {
    ClearColor {
        red: (2 * phase_thousandths(m)) as u64,
        green: (4000 - 2 * phase_thousandths(m)) as u64,
        blue: 4000,
        alpha: 4000,
    }
}

/// A channel lies in the closed unit interval.
pub open spec fn channel_in_unit(c: u64) -> bool {
    c <= COLOR_DENOMINATOR
}

/// Elapsed milliseconds from whole seconds and sub-second nanoseconds,
/// with the nanoseconds truncated to whole milliseconds.
pub fn elapsed_millis(secs: u64, subsec_nanos: u32) -> (r: u64)
    requires
        millis_of(secs, subsec_nanos) <= u64::MAX,
    ensures
        r == millis_of(secs, subsec_nanos),
{
    secs * 1000 + (subsec_nanos / 1_000_000) as u64
}

/// Elapsed milliseconds, or `None` where the count would not fit in a `u64`.
pub fn checked_elapsed_millis(secs: u64, subsec_nanos: u32) -> (r: Option<u64>)
    ensures
        r is Some <==> millis_of(secs, subsec_nanos) <= u64::MAX,
        r matches Some(v) ==> v == millis_of(secs, subsec_nanos),
{
    let ms = (subsec_nanos / 1_000_000) as u64;
    if secs <= (u64::MAX - ms) / 1000 {
        let r = elapsed_millis(secs, subsec_nanos);
        Some(r)
    } else {
        assert(secs * 1000 + ms > u64::MAX) by (nonlinear_arith)
            requires secs > (u64::MAX - ms) / 1000, ms <= u64::MAX;
        None
    }
}

/// The phase at `m` milliseconds, in thousandths of a phase unit.
pub fn phase_at(m: u64) -> (r: u64)
    ensures
        r == phase_thousandths(m),
        r < 2 * MILLIS_PER_PHASE_UNIT,
{
    m % PERIOD_MILLIS
}

/// The clear color for the frame drawn `m` milliseconds after start.
///
/// Red lies in `[0, 1)`, green in `(0, 1]`, blue and alpha are 1, and red
/// and green always sum to exactly 1.
pub fn clear_color_at(m: u64) -> (c: ClearColor)
    ensures
        c == color_at(m),
        c.red < COLOR_DENOMINATOR,
        0 < c.green && channel_in_unit(c.green),
        c.blue == COLOR_DENOMINATOR,
        c.alpha == COLOR_DENOMINATOR,
        c.red + c.green == COLOR_DENOMINATOR,
{
    let red = 2 * phase_at(m);
    ClearColor { red, green: COLOR_DENOMINATOR - red, blue: COLOR_DENOMINATOR, alpha: COLOR_DENOMINATOR }
}

/// The color repeats every period: frames `PERIOD_MILLIS` apart share a color.
pub proof fn lemma_color_periodic(m: u64)
    requires
        m + PERIOD_MILLIS <= u64::MAX,
    ensures
        color_at(m) == color_at((m + PERIOD_MILLIS) as u64),
{
    assert((m + 2000) % 2000 == m % 2000) by (nonlinear_arith);
}

} // verus!
