//! Signals of the LED.

use vstd::prelude::*;

verus! {

/// A step of a signal.
#[derive(Clone, Copy, Debug, PartialEq, Eq, Structural)]
pub enum LedStep {
    High,
    Low,
    /// Wait for that many milliseconds.
    Sleep(u64),
}

/// One flash.
pub open spec fn flash_steps(on_ms: u64, gap_ms: u64) -> Seq<LedStep> {
    seq![LedStep::High, LedStep::Sleep(on_ms), LedStep::Low, LedStep::Sleep(gap_ms)]
}

/// A number of flashes.
pub open spec fn flashes(count: nat, on_ms: u64, gap_ms: u64) -> Seq<LedStep>
    decreases count,
{
    if count == 0 {
        Seq::empty()
    } else {
        flashes((count - 1) as nat, on_ms, gap_ms) + flash_steps(on_ms, gap_ms)
    }
}

/// The steps of a number of flashes.
pub fn flash_led(count: u8, on_ms: u64, gap_ms: u64) -> (r: Vec<LedStep>)
    ensures
        r@ == flashes(count as nat, on_ms, gap_ms),
{
    let mut r: Vec<LedStep> = Vec::new();
    let mut i: u8 = 0;
    while i < count
        invariant
            i <= count,
            r@ == flashes(i as nat, on_ms, gap_ms),
        decreases count - i,
    {
        r.push(LedStep::High);
        r.push(LedStep::Sleep(on_ms));
        r.push(LedStep::Low);
        r.push(LedStep::Sleep(gap_ms));
        i = i + 1;
        proof {
            assert(r@ =~= flashes((i - 1) as nat, on_ms, gap_ms) + flash_steps(on_ms, gap_ms));
        }
    }
    r
}

/// After any number of flashes but none the LED is left dark: the last thing that is done to it
/// is to switch it off.
pub proof fn law_led_ends_dark(count: nat, on_ms: u64, gap_ms: u64)
    requires
        count > 0,
    ensures
        flashes(count, on_ms, gap_ms).len() == 4 * count,
        flashes(count, on_ms, gap_ms)[4 * count - 2] == LedStep::Low,
        flashes(count, on_ms, gap_ms)[4 * count - 1] == LedStep::Sleep(gap_ms),
    decreases count,
{
    if count > 1 {
        law_led_ends_dark((count - 1) as nat, on_ms, gap_ms);
    } else {
        assert(flashes(0, on_ms, gap_ms).len() == 0);
    }
}

} // verus!
