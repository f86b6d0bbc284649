//! The consumer's loop: events are applied in bursts, and the screen is
//! drawn once per burst at most.

use crate::app_state::{AppState, Effect, Outcome};
use crate::dispatch::is_run;
use crate::types::AppEvent;
use vstd::prelude::*;

verus! {

/// Milliseconds after which the screen is drawn even if nothing asked for
/// it.
pub const DRAW_INTERVAL_MS: u64 = 500;

/// Events that the channel holds before its producers have to wait.
pub const EVENT_QUEUE_CAPACITY: usize = 1000;

/// What a burst of events asks for.
#[derive(Debug)]
pub struct Burst {
    /// Whether any event of the burst must be drawn at once.
    pub redraw: bool,
    /// The work that the events asked for, in their order.
    pub effects: Vec<Effect>,
}

/// The work that a series of outcomes asks for, in order.
pub open spec fn effects_of(outs: Seq<Outcome>) -> Seq<Effect>
    decreases outs.len(),
{
    if outs.len() == 0 {
        Seq::empty()
    } else {
        match outs.last().effect {
            Some(e) => effects_of(outs.drop_last()).push(e),
            None => effects_of(outs.drop_last()),
        }
    }
}

/// Whether one of the outcomes must be drawn at once.
pub open spec fn any_redraw(outs: Seq<Outcome>) -> bool {
    exists|i: int| 0 <= i < outs.len() && (#[trigger] outs[i]).redraw
}

/// Whether the screen is drawn after a burst: when the burst asks for it,
/// or when the draw interval has passed since the last drawing.
pub open spec fn spec_should_draw(force: bool, elapsed_ms: u64) -> bool {
    force || elapsed_ms >= DRAW_INTERVAL_MS
}

/// Decides whether to draw the screen.
pub fn should_draw(force: bool, elapsed_ms: u64) -> (r: bool)
    ensures
        r == spec_should_draw(force, elapsed_ms),
{
    force || elapsed_ms >= DRAW_INTERVAL_MS
}

impl AppState {
    /// Applies a burst of events in order, as if each had come alone, and
    /// gathers what they ask for: one drawing for the whole burst, and the
    /// work of each event.
    pub fn handle_events(&mut self, events: Vec<AppEvent>) -> (burst: Burst)
        requires
            old(self).wf(),
        ensures
            final(self).wf(),
            exists|states: Seq<AppState>, outs: Seq<Outcome>|
                {
                    &&& #[trigger] is_run(states, events@, outs)
                    &&& states[0] == *old(self)
                    &&& states.last() == *final(self)
                    &&& burst.redraw == any_redraw(outs)
                    &&& burst.effects@ == effects_of(outs)
                },
    {
        let mut redraw = false;
        let mut effects: Vec<Effect> = Vec::new();
        let ghost mut states: Seq<AppState> = seq![*self];
        let ghost mut outs: Seq<Outcome> = Seq::empty();
        let ghost all = events@;
        for event in it: events
            invariant
                it.seq() == all,
                self.wf(),
                states.len() == it.index() + 1,
                outs.len() == it.index(),
                states[0] == *old(self),
                states.last() == *self,
                forall|i: int|
                    0 <= i < it.index() ==> AppState::event_post(
                        #[trigger] states[i],
                        all[i],
                        states[i + 1],
                        outs[i],
                    ),
                redraw == any_redraw(outs),
                effects@ == effects_of(outs),
        {
            let ghost before_states = states;
            let ghost before_outs = outs;
            let out = self.handle_event(event);
            proof {
                states = states.push(*self);
                outs = outs.push(out);
                assert(outs.drop_last() =~= before_outs);
                assert forall|i: int| 0 <= i < it.index() + 1 implies AppState::event_post(
                    #[trigger] states[i],
                    all[i],
                    states[i + 1],
                    outs[i],
                ) by {
                    if i < it.index() {
                        assert(states[i] == before_states[i]);
                        assert(states[i + 1] == before_states[i + 1]);
                        assert(outs[i] == before_outs[i]);
                    }
                }
                if any_redraw(before_outs) {
                    let i = choose|i: int|
                        0 <= i < before_outs.len() && (#[trigger] before_outs[i]).redraw;
                    assert(outs[i].redraw);
                }
                if out.redraw {
                    assert(outs[outs.len() - 1].redraw);
                }
                if any_redraw(outs) {
                    let i = choose|i: int| 0 <= i < outs.len() && (#[trigger] outs[i]).redraw;
                    if i < before_outs.len() {
                        assert(before_outs[i].redraw);
                    }
                }
            }
            if out.redraw {
                redraw = true;
            }
            match out.effect {
                Some(e) => {
                    effects.push(e);
                },
                None => {},
            }
        }
        proof {
            assert(is_run(states, all, outs));
        }
        Burst { redraw, effects }
    }

    /// The channel was closed by its last producer: the loop ends as if
    /// the operator had asked to quit.
    pub fn handle_channel_closed(&mut self)
        requires
            old(self).wf(),
        ensures
            final(self).wf(),
            *final(self) == (AppState { should_quit: true, ..*old(self) }),
    {
        self.should_quit = true;
    }
}

} // verus!
