//! What a finished mission measured, and the bars that show its phases.

use std::time::Duration;
use vstd::arithmetic::div_mod::lemma_fundamental_div_mod_converse;
use vstd::prelude::*;

verus! {

/// The width of a telemetry bar, in cells.
pub const BAR_WIDTH: usize = 20;

/// The length of a duration in nanoseconds, as `Duration::as_nanos` gives it.
pub uninterp spec fn duration_nanos(d: Duration) -> nat;

/// `Duration::as_nanos`: the whole duration in nanoseconds.
pub assume_specification[ Duration::as_nanos ](d: &Duration) -> (n: u128)
    ensures
        n == duration_nanos(*d),
;

/// The measurements of one finished mission.
#[derive(Debug, Clone, Copy)]
pub struct MissionTelemetry {
    /// From the submission to the head of the response.
    pub dns_handshake_ttfb: Duration,
    /// The time spent reading the body.
    pub transfer: Duration,
    /// From the submission to the end of the body.
    pub total: Duration,
    /// The length of the body in bytes.
    pub size_bytes: u64,
    /// The status code of the response.
    pub status: u16,
}

/// How many cells of a bar are filled for a phase of `nanos` out of a total
/// of `max_nanos`: the share of the bar that the phase has of the total,
/// rounded down, and never more than the bar. Nothing is filled where the
/// total is zero.
pub open spec fn bar_cells(nanos: int, max_nanos: int) -> int {
    let width = BAR_WIDTH as int;
    if max_nanos <= 0 {
        0
    } else if (width * nanos) / max_nanos >= width {
        width
    } else {
        (width * nanos) / max_nanos
    }
}

/// A bar with its first `cells` cells filled and the others empty.
pub open spec fn bar_text(cells: int) -> Seq<char> {
    Seq::new(
        BAR_WIDTH as nat,
        |i: int|
            if i < cells {
                '█'
            } else {
                '░'
            },
    )
}

/// A bar is as wide as the bar width whatever the durations are, no more
/// of it is filled than there is, its filled cells come first, and with a
/// total of zero none is filled.
pub proof fn lemma_bar_width(nanos: int, max_nanos: int)
    requires
        0 <= nanos,
        0 <= max_nanos,
    ensures
        0 <= bar_cells(nanos, max_nanos) <= BAR_WIDTH,
        bar_text(bar_cells(nanos, max_nanos)).len() == BAR_WIDTH,
        forall|i: int|
            0 <= i < bar_cells(nanos, max_nanos) ==> bar_text(bar_cells(nanos, max_nanos))[i]
                == '█',
        forall|i: int|
            bar_cells(nanos, max_nanos) <= i < BAR_WIDTH ==> bar_text(
                bar_cells(nanos, max_nanos),
            )[i] == '░',
        bar_cells(nanos, 0) == 0,
        nanos >= max_nanos > 0 ==> bar_cells(nanos, max_nanos) == BAR_WIDTH,
{
    if max_nanos > 0 {
        assert((20 * nanos) / max_nanos >= 0) by (nonlinear_arith)
            requires
                nanos >= 0,
                max_nanos > 0,
        ;
    }
    if nanos >= max_nanos && max_nanos > 0 {
        assert((20 * nanos) / max_nanos >= 20) by (nonlinear_arith)
            requires
                nanos >= max_nanos > 0,
        ;
    }
}

/// The number of filled cells for a phase of `nanos` out of `max_nanos`.
pub fn filled_cells(nanos: u128, max_nanos: u128) -> (cells: usize)
    ensures
        cells == bar_cells(nanos as int, max_nanos as int),
        cells <= BAR_WIDTH,
{
    if max_nanos == 0 {
        return 0;
    }
    if nanos >= max_nanos {
        proof {
            lemma_bar_width(nanos as int, max_nanos as int);
        }
        return BAR_WIDTH;
    }
    let step: u128 = max_nanos - nanos;
    let mut cells: usize = 0;
    let mut rest: u128 = 0;
    let mut i: usize = 0;
    while i < BAR_WIDTH
        invariant
            i <= BAR_WIDTH,
            cells <= i,
            nanos < max_nanos,
            step == max_nanos - nanos,
            rest < max_nanos,
            i * nanos == cells * max_nanos + rest,
        decreases BAR_WIDTH - i,
    {
        proof {
            assert((i + 1) * nanos == i * nanos + nanos) by (nonlinear_arith);
            assert((cells + 1) * max_nanos == cells * max_nanos + max_nanos) by (nonlinear_arith);
        }
        if rest >= step {
            cells += 1;
            rest = rest - step;
        } else {
            rest = rest + nanos;
        }
        i += 1;
    }
    proof {
        lemma_fundamental_div_mod_converse(
            20 * nanos,
            max_nanos as int,
            cells as int,
            rest as int,
        );
    }
    cells
}

/// The bar with `cells` filled cells; a count beyond the bar fills it all.
pub fn bar_of(cells: usize) -> (bar: String)
    ensures
        bar@ == bar_text(cells as int),
{
    let mut bar = String::new();
    let mut i: usize = 0;
    while i < BAR_WIDTH
        invariant
            i <= BAR_WIDTH,
            bar@ == bar_text(cells as int).take(i as int),
        decreases BAR_WIDTH - i,
    {
        bar.push(
            if i < cells {
                '█'
            } else {
                '░'
            },
        );
        i += 1;
        proof {
            assert(bar@ =~= bar_text(cells as int).take(i as int));
        }
    }
    proof {
        assert(bar@ =~= bar_text(cells as int));
    }
    bar
}

impl MissionTelemetry {
    /// Renders `duration` as a bar against `max_duration`: filled cells for
    /// the share that `duration` has of `max_duration`, empty cells for the
    /// rest, always the bar width in all.
    pub fn render_bar(&self, duration: Duration, max_duration: Duration) -> (bar: String)
        ensures
            bar@ == bar_text(
                bar_cells(duration_nanos(duration) as int, duration_nanos(max_duration) as int),
            ),
            bar@.len() == BAR_WIDTH,
    {
        let cells = filled_cells(duration.as_nanos(), max_duration.as_nanos());
        bar_of(cells)
    }
}

} // verus!
