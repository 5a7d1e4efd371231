//! The clock phase counter: the picture processor runs on every tick, the
//! CPU on every third.

use vstd::prelude::*;

verus! {

/// Whether the CPU runs on a tick that starts with the counter at `count`.
pub open spec fn cpu_due(count: u8) -> bool {
    count % 3 == 0
}

/// The counter after a tick that started with it at `count`. A tick on which
/// the CPU runs first puts the counter back to zero, so the counter never
/// reaches the top of its range from a multiple of three.
pub open spec fn next_clock_count(count: u8) -> u8 {
    if cpu_due(count) {
        1
    } else {
        (count + 1) as u8
    }
}

/// The counter after `ticks` ticks from reset.
pub open spec fn clock_count_after(ticks: nat) -> u8
    decreases ticks,
{
    if ticks == 0 {
        0
    } else {
        next_clock_count(clock_count_after((ticks - 1) as nat))
    }
}

/// A tick never wraps the counter: one more than a count that is not a
/// multiple of three still fits in eight bits.
pub proof fn lemma_next_clock_count_no_wrap(count: u8)
    ensures
        !cpu_due(count) ==> count < 255 && next_clock_count(count) == count + 1,
        cpu_due(count) ==> next_clock_count(count) == 1,
{
}

/// From reset the counter runs 0, 1, 2, 3, 1, 2, 3, ...
pub proof fn lemma_clock_count_after(ticks: nat)
    ensures
        ticks == 0 ==> clock_count_after(ticks) == 0,
        ticks > 0 ==> clock_count_after(ticks) == (ticks - 1) % 3 + 1,
    decreases ticks,
{
    if ticks > 0 {
        lemma_clock_count_after((ticks - 1) as nat);
    }
}

/// Counting ticks from zero after a reset, the CPU runs on tick `ticks`
/// exactly when `ticks` is a multiple of three, however long the run.
pub proof fn lemma_cpu_runs_every_third_tick(ticks: nat)
    ensures
        cpu_due(clock_count_after(ticks)) <==> ticks % 3 == 0,
{
    lemma_clock_count_after(ticks);
}

/// Whatever the counter holds, the CPU runs on one of the next three ticks.
pub proof fn lemma_cpu_runs_within_three_ticks(count: u8)
    ensures
        cpu_due(count) || cpu_due(next_clock_count(count)) || cpu_due(
            next_clock_count(next_clock_count(count)),
        ),
{
}

} // verus!
