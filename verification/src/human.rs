//! A profile that keeps each action and gives it the delay configured
//! for its kind.
use vstd::prelude::*;

use std::time::Duration;

use crate::multiplexer::Point;
use crate::time::{duration_from_secs, zero_duration};
use crate::touch::{TouchAction, TouchContext, TouchProfile};

verus! {

/// Human behavior profile.
///
/// In this initial version, it preserves the original action.
/// Behaviors regarding timing, micro-movement, and jitter
/// will be added incrementally.
#[derive(Debug)]
pub struct HumanProfile {
    /// Initial delay before a DOWN.
    pub down_delay: Duration,
    /// Delay before an UP.
    pub up_delay: Duration,
    /// Delay between movements.
    pub move_delay: Duration,
}

impl Clone for HumanProfile {
    fn clone(&self) -> (r: Self)
        ensures
            r == *self,
    {
        HumanProfile { down_delay: self.down_delay, up_delay: self.up_delay, move_delay: self.move_delay }
    }
}

impl Default for HumanProfile {
    fn default() -> (p: Self)
        ensures
            p.down_delay == zero_duration(),
            p.up_delay == zero_duration(),
            p.move_delay == zero_duration(),
    {
        HumanProfile {
            down_delay: duration_from_secs(0),
            up_delay: duration_from_secs(0),
            move_delay: duration_from_secs(0),
        }
    }
}

impl HumanProfile {
    /// The delay that the profile gives to `action`.
    pub open spec fn delay_for(self, action: TouchAction) -> Duration {
        match action {
            TouchAction::Down(_) => self.down_delay,
            TouchAction::Move(_) => self.move_delay,
            TouchAction::Up => self.up_delay,
        }
    }

    /// A profile without delays.
    pub fn new() -> (p: Self)
        ensures
            p.down_delay == zero_duration(),
            p.up_delay == zero_duration(),
            p.move_delay == zero_duration(),
    {
        Self::default()
    }

    /// Sets the delay before a DOWN.
    pub fn with_down_delay(self, delay: Duration) -> (p: Self)
        ensures
            p == (HumanProfile { down_delay: delay, ..self }),
    {
        let mut p = self;
        p.down_delay = delay;
        p
    }

    /// Sets the delay before an UP.
    pub fn with_up_delay(self, delay: Duration) -> (p: Self)
        ensures
            p == (HumanProfile { up_delay: delay, ..self }),
    {
        let mut p = self;
        p.up_delay = delay;
        p
    }

    /// Sets the delay between movements.
    pub fn with_move_delay(self, delay: Duration) -> (p: Self)
        ensures
            p == (HumanProfile { move_delay: delay, ..self }),
    {
        let mut p = self;
        p.move_delay = delay;
        p
    }
}

impl TouchProfile for HumanProfile {
    /// The answer is the action itself, with the delay of its kind.
    open spec fn answers(&self, action: TouchAction, context: TouchContext, actions: Seq<(TouchAction, Duration)>) -> bool {
        actions =~= seq![(action, self.delay_for(action))]
    }

    /// Keeps the action and pairs it with the delay of its kind.
    fn process(&mut self, action: TouchAction, _context: TouchContext) -> (r: Vec<(TouchAction, Duration)>)
        ensures
            r@ == seq![(action, old(self).delay_for(action))],
            *final(self) == *old(self),
    {
        let delay = match action {
            TouchAction::Down(_) => self.down_delay,
            TouchAction::Move(_) => self.move_delay,
            TouchAction::Up => self.up_delay,
        };
        vec![(action, delay)]
    }

    /// Nothing to reset: the profile keeps no state between actions.
    fn reset(&mut self)
        ensures
            *final(self) == *old(self),
    {
    }
}

/// Each action gets the delay configured for its kind, and configuring
/// one kind's delay leaves the delays of the others as they were.
pub proof fn lemma_delays_by_kind(p: HumanProfile, delay: Duration, point: Point)
    ensures
        (HumanProfile { down_delay: delay, ..p }).delay_for(TouchAction::Down(point)) == delay,
        (HumanProfile { move_delay: delay, ..p }).delay_for(TouchAction::Move(point)) == delay,
        (HumanProfile { up_delay: delay, ..p }).delay_for(TouchAction::Up) == delay,
        (HumanProfile { down_delay: delay, ..p }).delay_for(TouchAction::Up) == p.delay_for(TouchAction::Up),
        (HumanProfile { down_delay: delay, ..p }).delay_for(TouchAction::Move(point)) == p.delay_for(
            TouchAction::Move(point),
        ),
        (HumanProfile { up_delay: delay, ..p }).delay_for(TouchAction::Down(point)) == p.delay_for(
            TouchAction::Down(point),
        ),
        (HumanProfile { up_delay: delay, ..p }).delay_for(TouchAction::Move(point)) == p.delay_for(
            TouchAction::Move(point),
        ),
        (HumanProfile { move_delay: delay, ..p }).delay_for(TouchAction::Down(point)) == p.delay_for(
            TouchAction::Down(point),
        ),
        (HumanProfile { move_delay: delay, ..p }).delay_for(TouchAction::Up) == p.delay_for(TouchAction::Up),
{
}

} // verus!
