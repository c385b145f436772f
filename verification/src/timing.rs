//! The main-loop clock: simulated time advanced by executed cycles at
//! 2 MHz, the 120 Hz vertical-blank interrupt cadence alternating RST 1
//! (mid-screen) and RST 2 (end-of-screen), and the 60 Hz throttle for
//! input polling. The loop itself lives outside; this module makes every
//! scheduling decision.

use vstd::prelude::*;

verus! {

/// Nanoseconds per CPU cycle at the nominal 2 MHz clock.
pub const NS_PER_CYCLE: u64 = 500;

/// Half a frame: the spacing of the two per-frame interrupts (120 Hz).
pub const HALF_FRAME_NS: u64 = 8_333_333;

/// A full frame at 60 Hz: the input-polling cadence.
pub const FRAME_NS: u64 = 16_666_667;

/// A due vertical-blank interrupt: the RST vector to raise, and whether
/// the frame should be redrawn afterwards (only at end-of-screen, to
/// avoid tearing).
#[derive(Clone, Copy, PartialEq, Eq, Structural, Debug)]
pub struct VblankAction {
    pub vector: u8,
    pub redraw: bool,
}

/// Simulated time and the alternating interrupt vector.
pub struct FrameClock {
    /// Simulated nanoseconds, advanced by `cycles * 500`.
    pub sim_time_ns: u64,
    /// Simulated time of the last vertical-blank interrupt.
    pub last_vblank_ns: u64,
    /// The next RST vector: 1 at mid-screen, 2 at end-of-screen.
    pub next_int: u8,
}

impl FrameClock {
    /// The vector only ever holds 1 or 2.
    pub open spec fn wf(self) -> bool {
        self.next_int == 1 || self.next_int == 2
    }

    /// A clock at simulated time zero, about to raise the mid-screen
    /// interrupt.
    pub fn new() -> (c: FrameClock)
        ensures
            c == (FrameClock { sim_time_ns: 0, last_vblank_ns: 0, next_int: 1 }),
            c.wf(),
    {
        FrameClock { sim_time_ns: 0, last_vblank_ns: 0, next_int: 1 }
    }

    /// Advances simulated time by the nanoseconds the executed cycles
    /// took; saturates at the top of the 64-bit range (584 years in).
    pub fn advance(&mut self, cycles: u32)
        ensures
            final(self).sim_time_ns == (if old(self).sim_time_ns + cycles * NS_PER_CYCLE
                <= u64::MAX {
                old(self).sim_time_ns + cycles * NS_PER_CYCLE
            } else {
                u64::MAX as int
            }),
            final(self).last_vblank_ns == old(self).last_vblank_ns,
            final(self).next_int == old(self).next_int,
    {
        let add: u64 = cycles as u64 * NS_PER_CYCLE;
        if self.sim_time_ns <= u64::MAX - add {
            self.sim_time_ns = self.sim_time_ns + add;
        } else {
            self.sim_time_ns = u64::MAX;
        }
    }

    /// Decides whether a vertical-blank interrupt is due: the latch must
    /// be enabled and half a frame of simulated time must have passed
    /// since the last one. When due, reports the vector, toggles it,
    /// records the time, and asks for a redraw exactly when the
    /// end-of-screen interrupt (vector 2) was issued.
    pub fn poll_interrupt(&mut self, interrupt_enabled: bool) -> (r: Option<VblankAction>)
        requires
            old(self).wf(),
        ensures
            final(self).wf(),
            final(self).sim_time_ns == old(self).sim_time_ns,
            if interrupt_enabled && old(self).sim_time_ns - old(self).last_vblank_ns
                >= HALF_FRAME_NS {
                &&& r == Some(VblankAction {
                    vector: old(self).next_int,
                    redraw: old(self).next_int == 2,
                })
                &&& final(self).last_vblank_ns == old(self).sim_time_ns
                &&& final(self).next_int == (if old(self).next_int == 1 {
                    2u8
                } else {
                    1u8
                })
            } else {
                r is None && *final(self) == *old(self)
            },
    {
        if interrupt_enabled && self.sim_time_ns >= self.last_vblank_ns && self.sim_time_ns
            - self.last_vblank_ns >= HALF_FRAME_NS {
            let vector = self.next_int;
            self.last_vblank_ns = self.sim_time_ns;
            self.next_int = if vector == 1 {
                2
            } else {
                1
            };
            Some(VblankAction { vector, redraw: vector == 2 })
        } else {
            None
        }
    }
}

/// Whether a full 60 Hz frame of real time has passed since the last
/// input poll.
pub fn input_poll_due(now_ns: u64, last_poll_ns: u64) -> (r: bool)
    ensures
        r == (now_ns - last_poll_ns >= FRAME_NS),
{
    now_ns >= last_poll_ns && now_ns - last_poll_ns >= FRAME_NS
}

} // verus!
