//! Debounced double-press gesture detector.
//!
//! A platform event tap feeds every keyboard event to [`GestureState::on_event`];
//! the detector recognises two presses of the copy key, with the activation
//! modifier held, at most [`DEBOUNCE_WINDOW_MS`] milliseconds apart, and stays
//! transparent to every other keystroke.

use vstd::prelude::*;

verus! {

/// Longest allowed gap between the two qualifying presses, in milliseconds.
pub const DEBOUNCE_WINDOW_MS: u64 = 500;

/// A keyboard event, reduced to what the detector cares about.
#[derive(Clone, Copy, Debug, PartialEq, Eq)]
pub enum GestureEvent {
    /// The activation modifier (Cmd or Ctrl) went down.
    ModifierDown,
    /// The activation modifier went up.
    ModifierUp,
    /// The copy key went down at the given monotonic time, in milliseconds.
    QualifyingPress { time_ms: u64 },
    /// Any other key event; the detector ignores it.
    OtherKey,
}

/// State of the gesture detector.
#[derive(Clone, Copy, Debug, PartialEq, Eq)]
pub struct GestureState {
    /// Whether the activation modifier is currently down.
    pub modifier_held: bool,
    /// Qualifying presses counted so far within the debounce window.
    pub repeat_count: u8,
    /// Monotonic time of the last qualifying press, in milliseconds.
    pub last_press_ms: Option<u64>,
}

/// Milliseconds elapsed from `earlier` to `now` on a monotonic clock,
/// saturating at zero if the clock ever reads backwards.
pub open spec fn spec_elapsed_ms(earlier: u64, now: u64) -> u64 {
    if now >= earlier {
        (now - earlier) as u64
    } else {
        0
    }
}

impl GestureState {
    /// Well-formedness: a pending press is recorded exactly when one qualifying
    /// press has been counted, and presses are only counted while the modifier
    /// is held.
    pub open spec fn wf(self) -> bool {
        &&& self.repeat_count <= 1
        &&& (self.repeat_count == 1 <==> self.last_press_ms is Some)
        &&& (self.repeat_count == 1 ==> self.modifier_held)
    }

    /// The state every detector starts in: modifier up, nothing counted.
    pub open spec fn spec_idle() -> GestureState {
        GestureState { modifier_held: false, repeat_count: 0, last_press_ms: None }
    }

    /// The state after the event: the transition table of the detector.
    pub open spec fn spec_next(self, e: GestureEvent) -> GestureState {
        match e {
            GestureEvent::ModifierDown => GestureState { modifier_held: true, ..self },
            GestureEvent::ModifierUp => GestureState {
                modifier_held: false,
                repeat_count: 0,
                last_press_ms: None,
            },
            GestureEvent::OtherKey => self,
            GestureEvent::QualifyingPress { time_ms } => {
                if !self.modifier_held {
                    self
                } else {
                    match self.last_press_ms {
                        None => GestureState {
                            repeat_count: 1,
                            last_press_ms: Some(time_ms),
                            ..self
                        },
                        Some(t) => {
                            if spec_elapsed_ms(t, time_ms) > DEBOUNCE_WINDOW_MS {
                                // Too slow: this press restarts the count.
                                GestureState { repeat_count: 1, last_press_ms: Some(time_ms), ..self }
                            } else {
                                // Second press in time: fire, then reset the count.
                                GestureState { repeat_count: 0, last_press_ms: None, ..self }
                            }
                        },
                    }
                }
            },
        }
    }

    /// Whether the event makes the detector fire the capture gesture.
    pub open spec fn spec_fires(self, e: GestureEvent) -> bool {
        match e {
            GestureEvent::QualifyingPress { time_ms } => {
                &&& self.modifier_held
                &&& match self.last_press_ms {
                    Some(t) => spec_elapsed_ms(t, time_ms) <= DEBOUNCE_WINDOW_MS,
                    None => false,
                }
            },
            _ => false,
        }
    }

    /// A fresh detector in the idle state.
    pub fn new() -> (s: GestureState)
        ensures
            s == GestureState::spec_idle(),
            s.wf(),
    {
        GestureState { modifier_held: false, repeat_count: 0, last_press_ms: None }
    }

    /// Feeds one keyboard event to the detector and reports whether the
    /// double-press gesture fired.  The caller must treat `true` as the signal
    /// to record the focused window and dispatch the capture pipeline.
    pub fn on_event(&mut self, e: GestureEvent) -> (fired: bool)
        requires
            old(self).wf(),
        ensures
            final(self).wf(),
            *final(self) == old(self).spec_next(e),
            fired == old(self).spec_fires(e),
    {
        match e {
            GestureEvent::ModifierDown => {
                self.modifier_held = true;
                false
            },
            GestureEvent::ModifierUp => {
                self.modifier_held = false;
                self.repeat_count = 0;
                self.last_press_ms = None;
                false
            },
            GestureEvent::OtherKey => false,
            GestureEvent::QualifyingPress { time_ms } => {
                if !self.modifier_held {
                    return false;
                }
                match self.last_press_ms {
                    None => {
                        self.repeat_count = 1;
                        self.last_press_ms = Some(time_ms);
                        false
                    },
                    Some(t) => {
                        let elapsed: u64 = if time_ms >= t { time_ms - t } else { 0 };
                        if elapsed > DEBOUNCE_WINDOW_MS {
                            self.repeat_count = 1;
                            self.last_press_ms = Some(time_ms);
                            false
                        } else {
                            self.repeat_count = 0;
                            self.last_press_ms = None;
                            true
                        }
                    },
                }
            },
        }
    }
}

/// Debounce law, first half: a qualifying press fires exactly when an earlier
/// qualifying press is pending and the two arrive at most
/// [`DEBOUNCE_WINDOW_MS`] apart.  From a state with no pending press, two
/// presses at `t1 <= t2` fire on the second press if and only if
/// `t2 - t1 <= DEBOUNCE_WINDOW_MS`.
pub proof fn lemma_debounce_pair(s: GestureState, t1: u64, t2: u64)
    requires
        s.wf(),
        s.modifier_held,
        s.last_press_ms is None,
        t1 <= t2,
    ensures
        !s.spec_fires(GestureEvent::QualifyingPress { time_ms: t1 }),
        s.spec_next(GestureEvent::QualifyingPress { time_ms: t1 }).spec_fires(
            GestureEvent::QualifyingPress { time_ms: t2 },
        ) <==> t2 - t1 <= DEBOUNCE_WINDOW_MS,
{
}

/// Debounce law, second half: right after a fire the count is back at zero and
/// no press is pending, so the next qualifying press is counted as a fresh
/// first press and cannot fire by itself.
pub proof fn lemma_fire_resets_count(s: GestureState, t: u64, t3: u64)
    requires
        s.wf(),
        s.spec_fires(GestureEvent::QualifyingPress { time_ms: t }),
    ensures
        s.spec_next(GestureEvent::QualifyingPress { time_ms: t }).repeat_count == 0,
        s.spec_next(GestureEvent::QualifyingPress { time_ms: t }).last_press_ms is None,
        !s.spec_next(GestureEvent::QualifyingPress { time_ms: t }).spec_fires(
            GestureEvent::QualifyingPress { time_ms: t3 },
        ),
{
}

/// Modifier-release law: releasing the modifier in any state resets the press
/// count and clears the pending timestamp, and after holding the modifier
/// again a single press still cannot fire — a full pair is needed.
pub proof fn lemma_modifier_release_resets(s: GestureState, t1: u64, t2: u64)
    requires
        s.wf(),
        t1 <= t2,
    ensures
        s.spec_next(GestureEvent::ModifierUp).repeat_count == 0,
        s.spec_next(GestureEvent::ModifierUp).last_press_ms is None,
        ({
            let rearmed = s.spec_next(GestureEvent::ModifierUp).spec_next(
                GestureEvent::ModifierDown,
            );
            &&& !rearmed.spec_fires(GestureEvent::QualifyingPress { time_ms: t1 })
            &&& rearmed.spec_next(GestureEvent::QualifyingPress { time_ms: t1 }).spec_fires(
                GestureEvent::QualifyingPress { time_ms: t2 },
            ) <==> t2 - t1 <= DEBOUNCE_WINDOW_MS
        }),
{
}

/// Runs the detector over a whole sequence of qualifying press times.
pub open spec fn spec_run_presses(s: GestureState, times: Seq<u64>) -> GestureState
    decreases times.len(),
{
    if times.len() == 0 {
        s
    } else {
        spec_run_presses(
            s.spec_next(GestureEvent::QualifyingPress { time_ms: times[0] }),
            times.drop_first(),
        )
    }
}

/// How many times the detector fires over a sequence of qualifying presses.
pub open spec fn spec_fire_count(s: GestureState, times: Seq<u64>) -> nat
    decreases times.len(),
{
    if times.len() == 0 {
        0
    } else {
        (if s.spec_fires(GestureEvent::QualifyingPress { time_ms: times[0] }) {
            1nat
        } else {
            0nat
        }) + spec_fire_count(
            s.spec_next(GestureEvent::QualifyingPress { time_ms: times[0] }),
            times.drop_first(),
        )
    }
}

/// Debounce law over whole sequences: however many qualifying presses arrive
/// with the modifier held, if every consecutive pair is more than
/// [`DEBOUNCE_WINDOW_MS`] apart the detector never fires.
pub proof fn lemma_slow_presses_never_fire(s: GestureState, times: Seq<u64>)
    requires
        s.wf(),
        s.modifier_held,
        s.last_press_ms is None,
        forall|i: int, j: int| 0 <= i < j < times.len() ==> times[i] <= times[j],
        forall|i: int| #![trigger times[i]]
            0 < i < times.len() ==> times[i] > times[i - 1] + DEBOUNCE_WINDOW_MS,
    ensures
        spec_fire_count(s, times) == 0,
    decreases times.len(),
{
    if times.len() == 0 {
    } else {
        let s1 = s.spec_next(GestureEvent::QualifyingPress { time_ms: times[0] });
        assert(!s.spec_fires(GestureEvent::QualifyingPress { time_ms: times[0] }));
        if times.len() == 1 {
            assert(spec_fire_count(s1, times.drop_first()) == 0);
        } else {
            // The second press is too slow, so it restarts the count, landing in
            // a state whose pending press is its own time; recurse from there.
            let rest = times.drop_first();
            assert(rest[0] == times[1]);
            assert(times[1] > times[0] + DEBOUNCE_WINDOW_MS);
            let s2 = s1.spec_next(GestureEvent::QualifyingPress { time_ms: rest[0] });
            assert(!s1.spec_fires(GestureEvent::QualifyingPress { time_ms: rest[0] }));
            assert(s2 == GestureState {
                modifier_held: true,
                repeat_count: 1,
                last_press_ms: Some(rest[0]),
            });
            lemma_slow_restarted(s2, rest.drop_first(), rest[0]);
            assert(spec_fire_count(s1, rest) == spec_fire_count(s2, rest.drop_first()));
        }
    }
}

/// Helper for the sequence law: from a state whose pending press is `last`,
/// presses that each lag their predecessor by more than the window never fire.
proof fn lemma_slow_restarted(s: GestureState, times: Seq<u64>, last: u64)
    requires
        s.modifier_held,
        s.repeat_count == 1,
        s.last_press_ms == Some(last),
        forall|i: int, j: int| 0 <= i < j < times.len() ==> times[i] <= times[j],
        times.len() > 0 ==> times[0] > last + DEBOUNCE_WINDOW_MS,
        forall|i: int| #![trigger times[i]]
            0 < i < times.len() ==> times[i] > times[i - 1] + DEBOUNCE_WINDOW_MS,
    ensures
        spec_fire_count(s, times) == 0,
    decreases times.len(),
{
    if times.len() == 0 {
    } else {
        let e = GestureEvent::QualifyingPress { time_ms: times[0] };
        assert(spec_elapsed_ms(last, times[0]) > DEBOUNCE_WINDOW_MS);
        assert(!s.spec_fires(e));
        let s1 = s.spec_next(e);
        assert(s1 == GestureState {
            modifier_held: true,
            repeat_count: 1,
            last_press_ms: Some(times[0]),
        });
        let rest = times.drop_first();
        assert(forall|i: int| #![trigger rest[i]]
            0 < i < rest.len() ==> rest[i] > rest[i - 1] + DEBOUNCE_WINDOW_MS) by {
            assert(forall|i: int| #![trigger rest[i]]
                0 < i < rest.len() ==> rest[i] == times[i + 1] && rest[i - 1] == times[i]);
        }
        if rest.len() > 0 {
            assert(rest[0] == times[1]);
        }
        lemma_slow_restarted(s1, rest, times[0]);
    }
}

} // verus!
