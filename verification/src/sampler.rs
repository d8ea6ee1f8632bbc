//! The input sampler: the logic of the periodic timer tick.
//!
//! Each tick samples the button level. On a level change, or on the every
//! 11th tick, a keyboard report is emitted: the stored pattern while the
//! button is down, the empty report while it is up. On every 11th tick a
//! control broadcast carrying the packed current pattern is emitted as
//! well, whatever the button does. The keyboard report of a shared tick is
//! handed out first, so an edge is never delayed by a broadcast.

use vstd::prelude::*;

use crate::crc::zero_bytes;
use crate::pattern::ReportPattern;
use crate::report::{ControlDesctiptor, KeyboardReport};

verus! {

/// The counter value on which a broadcast fires. The counter runs 0 through
/// 10 and resets on firing, so a broadcast happens once per 11 ticks.
pub const BROADCAST_TICK: u32 = 10;

/// Task-local state of the input sampler: the level seen on the previous
/// tick and the broadcast counter.
#[derive(Clone, Copy, Debug, PartialEq, Eq, Structural)]
pub struct InputSampler {
    pub prev_btn_state: bool,
    pub counter: u32,
}

/// What one tick pushes out: at most one keyboard report and at most one
/// control broadcast, the keyboard report first.
pub struct TickEffect {
    pub keyboard: Option<KeyboardReport>,
    pub control: Option<ControlDesctiptor>,
}

/// The sampler state after one tick at button level `pressed`.
pub open spec fn spec_next(s: InputSampler, pressed: bool) -> InputSampler {
    InputSampler {
        prev_btn_state: pressed,
        counter: if s.counter == BROADCAST_TICK {
            0u32
        } else {
            (s.counter + 1) as u32
        },
    }
}

/// The bytes of the keyboard report a tick emits, if it emits one: on an
/// edge or on a broadcast tick, the pattern while pressed, all zeros while
/// released.
pub open spec fn spec_keyboard_out(s: InputSampler, pressed: bool, pattern: Seq<u8>) -> Option<
    Seq<u8>,
> {
    if pressed != s.prev_btn_state || s.counter == BROADCAST_TICK {
        Some(
            if pressed {
                pattern
            } else {
                zero_bytes(7)
            },
        )
    } else {
        None
    }
}

/// The bytes of the control broadcast a tick emits, if it emits one: the
/// packed current pattern, on every broadcast tick, whatever the button.
pub open spec fn spec_control_out(s: InputSampler, pattern: Seq<u8>) -> Option<Seq<u8>> {
    if s.counter == BROADCAST_TICK {
        Some(pattern)
    } else {
        None
    }
}

impl InputSampler {
    /// The broadcast counter stays in its 0 through 10 range.
    pub open spec fn wf(&self) -> bool {
        self.counter <= BROADCAST_TICK
    }

    /// The state before the first tick: button seen up, counter at zero.
    pub fn new() -> (s: Self)
        ensures
            s.wf(),
            s.prev_btn_state == false,
            s.counter == 0,
    {
        InputSampler { prev_btn_state: false, counter: 0 }
    }

    /// One timer tick: emit what the sampled level and the broadcast
    /// counter call for, then advance the state.
    pub fn tick(&mut self, pressed: bool, pattern: &ReportPattern) -> (out: TickEffect)
        requires
            old(self).wf(),
        ensures
            final(self).wf(),
            *final(self) == spec_next(*old(self), pressed),
            out.keyboard is Some <==> spec_keyboard_out(*old(self), pressed, pattern@) is Some,
            out.keyboard matches Some(r) ==> Some(r@) == spec_keyboard_out(
                *old(self),
                pressed,
                pattern@,
            ),
            out.control is Some <==> spec_control_out(*old(self), pattern@) is Some,
            out.control matches Some(c) ==> Some(c.get_report_pattern@) == spec_control_out(
                *old(self),
                pattern@,
            ) && c.set_report_pattern@ == zero_bytes(7),
    {
        let mut out = TickEffect { keyboard: None, control: None };
        if pressed != self.prev_btn_state || self.counter == BROADCAST_TICK {
            self.prev_btn_state = pressed;
            let report = if pressed {
                KeyboardReport::from(pattern)
            } else {
                KeyboardReport::empty()
            };
            proof {
                if pressed {
                    assert(report@ =~= pattern@);
                } else {
                    assert(report@ =~= zero_bytes(7));
                }
            }
            out.keyboard = Some(report);
        }
        if self.counter == BROADCAST_TICK {
            self.counter = 0;
            let mut res = ControlDesctiptor::default();
            res.get_report_pattern = pattern.pack();
            proof {
                assert(res.set_report_pattern@ =~= zero_bytes(7));
            }
            out.control = Some(res);
        } else {
            self.counter += 1;
        }
        out
    }
}

/// The sampler state after a run of ticks at the given button levels.
pub open spec fn spec_run(s: InputSampler, presses: Seq<bool>) -> InputSampler
    decreases presses.len(),
{
    if presses.len() == 0 {
        s
    } else {
        spec_run(spec_next(s, presses[0]), presses.skip(1))
    }
}

/// While the counter has room, every tick raises it by one, whatever the
/// button does.
proof fn lemma_counter_climbs(s: InputSampler, presses: Seq<bool>, j: nat)
    requires
        s.counter + j <= BROADCAST_TICK,
        j <= presses.len(),
    ensures
        spec_run(s, presses.take(j as int)).counter == s.counter + j,
    decreases j,
{
    if j == 0 {
        assert(presses.take(0) =~= Seq::<bool>::empty());
    } else {
        let t = presses.take(j as int);
        assert(t[0] == presses[0]);
        assert(t.skip(1) =~= presses.skip(1).take(j - 1));
        lemma_counter_climbs(spec_next(s, presses[0]), presses.skip(1), (j - 1) as nat);
    }
}

/// Periodic broadcast: from any well-formed sampler state, whatever the
/// button does and whatever the current pattern is, within 11 ticks there
/// is a tick that emits the packed current pattern on the control
/// interface.
pub proof fn lemma_broadcast_within_eleven(s: InputSampler, presses: Seq<bool>, pattern: Seq<u8>)
    requires
        s.wf(),
        presses.len() == 11,
    ensures
        exists|k: int|
            0 <= k < 11 && #[trigger] spec_control_out(spec_run(s, presses.take(k)), pattern)
                == Some(pattern),
{
    let k = BROADCAST_TICK - s.counter;
    lemma_counter_climbs(s, presses, k as nat);
    assert(spec_run(s, presses.take(k as int)).counter == BROADCAST_TICK);
    assert(spec_control_out(spec_run(s, presses.take(k as int)), pattern) == Some(pattern));
}

/// Edge-driven emission: starting with the button seen up, a press tick
/// types exactly the pattern and the release tick right after it types
/// exactly the empty report; a tick with neither an edge nor a pending
/// broadcast types nothing. So a press-release pair produces the report
/// sequence pattern-then-empty, with extra reports only on broadcast ticks.
pub proof fn lemma_edge_driven_emission(s: InputSampler, pattern: Seq<u8>)
    requires
        !s.prev_btn_state,
    ensures
        spec_keyboard_out(s, true, pattern) == Some(pattern),
        spec_keyboard_out(spec_next(s, true), false, pattern) == Some(zero_bytes(7)),
        s.counter != BROADCAST_TICK ==> spec_keyboard_out(s, false, pattern) is None,
{
}

} // verus!
