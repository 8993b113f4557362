//! The figures of the overview: gauges and amounts.
//!
//! A gauge is a bar of [`GAUGE_CELLS`] cells, one for every five percent.

use crate::export::{format_tenths, one_decimal};
use vstd::prelude::*;

verus! {

/// How many cells a gauge has.
pub const GAUGE_CELLS: usize = 20;

/// The cells filled for a load given in tenths of a percent: one for every
/// full five percent, and no more than the gauge has.
pub open spec fn cells_of_load(tenths: u32) -> int {
    if tenths / 50 >= GAUGE_CELLS {
        GAUGE_CELLS as int
    } else {
        tenths as int / 50
    }
}

/// The cells filled for `used` out of `total`: one for every full twentieth,
/// and no more than the gauge has. A total of 0 counts as full.
pub open spec fn cells_of_share(used: u64, total: u64) -> int {
    if total == 0 || used >= total {
        GAUGE_CELLS as int
    } else {
        used as int * 20 / total as int
    }
}

/// `used` out of `total` in tenths of a percent, rounded to the nearest and
/// at most 1000. A total of 0 counts as full.
pub open spec fn share_tenths(used: u64, total: u64) -> int {
    if total == 0 || used >= total {
        1000
    } else {
        (used as int * 1000 + total as int / 2) / total as int
    }
}

/// An amount divided by 1024 twice, in tenths, rounded to the nearest.
pub open spec fn scaled_tenths(amount: u64) -> int {
    (amount as int * 10 + 524288) / 1048576
}

/// A gauge with `cells` cells filled, or all of them where `cells` is more
/// than the gauge has.
pub open spec fn bar_of(cells: int) -> Seq<char> {
    let filled = if cells > GAUGE_CELLS {
        GAUGE_CELLS as int
    } else {
        cells
    };
    seq!['['] + Seq::new(filled as nat, |i: int| '█') + Seq::new(
        (GAUGE_CELLS - filled) as nat,
        |i: int| '░',
    ) + seq![']']
}

/// Counts the cells to fill for a processor load.
pub fn load_cells(tenths: u32) -> (cells: usize)
    ensures
        cells == cells_of_load(tenths),
        cells <= GAUGE_CELLS,
{
    let cells: u32 = tenths / 50;
    if cells >= 20 {
        20
    } else {
        cells as usize
    }
}

/// Counts the cells to fill for an amount in use.
pub fn share_cells(used: u64, total: u64) -> (cells: usize)
    ensures
        cells == cells_of_share(used, total),
        cells <= GAUGE_CELLS,
{
    if total == 0 || used >= total {
        20
    } else {
        let cells: u128 = (used as u128 * 20) / (total as u128);
        assert(cells < 20) by (nonlinear_arith)
            requires
                cells == (used as int * 20) / (total as int),
                0 <= used < total,
        ;
        cells as usize
    }
}

/// Works out the share in use, in tenths of a percent.
pub fn usage_tenths(used: u64, total: u64) -> (tenths: u64)
    ensures
        tenths == share_tenths(used, total),
        tenths <= 1000,
{
    if total == 0 || used >= total {
        1000
    } else {
        let tenths: u128 = (used as u128 * 1000 + (total / 2) as u128) / (total as u128);
        assert(tenths <= 1000) by (nonlinear_arith)
            requires
                tenths == (used as int * 1000 + (total as int) / 2) / (total as int),
                0 <= used < total,
        ;
        tenths as u64
    }
}

/// Writes the share in use as a percentage with one decimal place.
pub fn usage_text(used: u64, total: u64) -> (text: String)
    ensures
        text@ == one_decimal(share_tenths(used, total) as nat),
{
    format_tenths(usage_tenths(used, total))
}

/// Writes an amount divided by 1024 twice, with one decimal place.
pub fn scaled_text(amount: u64) -> (text: String)
    ensures
        text@ == one_decimal(scaled_tenths(amount) as nat),
{
    let tenths: u128 = (amount as u128 * 10 + 524288) / 1048576;
    format_tenths(tenths as u64)
}

/// Draws a gauge with `cells` cells filled.
pub fn gauge_bar(cells: usize) -> (bar: String)
    ensures
        bar@ == bar_of(cells as int),
{
    let cells: usize = if cells > GAUGE_CELLS {
        GAUGE_CELLS
    } else {
        cells
    };
    proof {
        reveal_strlit("[");
        reveal_strlit("]");
        reveal_strlit("█");
        reveal_strlit("░");
    }
    let mut bar = "[".to_owned();
    let mut i: usize = 0;
    while i < cells
        invariant
            i <= cells <= GAUGE_CELLS,
            "█"@ == seq!['█'],
            bar@ == seq!['['] + Seq::new(i as nat, |k: int| '█'),
        decreases cells - i,
    {
        bar.append("█");
        i += 1;
    }
    let ghost filled = bar@;
    let mut j: usize = 0;
    while j < GAUGE_CELLS - cells
        invariant
            j <= GAUGE_CELLS - cells,
            cells <= GAUGE_CELLS,
            "░"@ == seq!['░'],
            bar@ == filled + Seq::new(j as nat, |k: int| '░'),
        decreases GAUGE_CELLS - cells - j,
    {
        bar.append("░");
        j += 1;
    }
    bar.append("]");
    bar
}

} // verus!
