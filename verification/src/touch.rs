//! Abstract touch actions and the profiles that shape them.
use vstd::prelude::*;

use std::time::Duration;

use crate::multiplexer::{DisplaySize, Point};
use crate::time::{duration_is_zero, zero_duration};

verus! {

/// Abstract touch action.
#[derive(Clone, Copy, Debug, PartialEq, Eq, Structural)]
pub enum TouchAction {
    Down(Point),
    Move(Point),
    Up,
}

/// Context available for a profile.
#[derive(Clone, Copy, Debug, PartialEq, Eq, Structural)]
pub struct TouchContext {
    pub display_width: i32,
    pub display_height: i32,
}

impl TouchContext {
    /// The context of a display of the given dimension.
    pub fn for_display(display: DisplaySize) -> (c: Self)
        ensures
            c == (TouchContext { display_width: display.width, display_height: display.height }),
    {
        TouchContext { display_width: display.width, display_height: display.height }
    }
}

/// Touch behavior profile.
pub trait TouchProfile {
    /// Processes a sequence of actions.
    ///
    /// The profile can:
    ///
    /// - modify coordinates;
    /// - insert movements;
    /// - alter timing;
    /// - generate multiple actions;
    /// - discard actions.
    ///
    /// The answer is one that the profile, as it was before the call, gives
    /// to `action` in `context` (see [`TouchProfile::answers`]).
    fn process(&mut self, action: TouchAction, context: TouchContext) -> (r: Vec<(TouchAction, Duration)>)
        ensures
            old(self).answers(action, context, r@),
    ;

    /// Whether `actions` is an answer that this profile gives to `action`
    /// in `context`.
    spec fn answers(&self, action: TouchAction, context: TouchContext, actions: Seq<(TouchAction, Duration)>) -> bool;

    /// Called when the profile stops processing an
    /// active sequence.
    fn reset(&mut self) {
    }
}


/// One step of executing a profile's output.
#[derive(Clone, Copy, Debug, PartialEq, Eq)]
pub enum ControllerStep {
    /// Apply the action to the multiplexer.
    Apply(TouchAction),
    /// Sleep for the delay.
    Sleep(Duration),
}

/// The steps that run `actions`: each action in order, each followed by
/// a sleep of its delay unless the delay is zero.
pub open spec fn execution_plan(actions: Seq<(TouchAction, Duration)>) -> Seq<ControllerStep>
    decreases actions.len(),
{
    if actions.len() == 0 {
        Seq::empty()
    } else {
        let (action, delay) = actions.last();
        let applied = execution_plan(actions.drop_last()).push(ControllerStep::Apply(action));
        if delay == zero_duration() {
            applied
        } else {
            applied.push(ControllerStep::Sleep(delay))
        }
    }
}

/// The steps that run `actions` (see [`execution_plan`]).
pub fn execution_steps(actions: Vec<(TouchAction, Duration)>) -> (steps: Vec<ControllerStep>)
    ensures
        steps@ == execution_plan(actions@),
{
    let n = actions.len();
    let mut steps: Vec<ControllerStep> = Vec::new();
    let mut i: usize = 0;
    while i < n
        invariant
            n == actions@.len(),
            i <= n,
            steps@ == execution_plan(actions@.take(i as int)),
        decreases n - i,
    {
        let (action, delay) = actions[i];
        assert(actions@.take(i + 1).drop_last() =~= actions@.take(i as int));
        assert(actions@.take(i + 1).last() == actions@[i as int]);
        steps.push(ControllerStep::Apply(action));
        if !duration_is_zero(delay) {
            steps.push(ControllerStep::Sleep(delay));
        }
        i = i + 1;
    }
    assert(actions@.take(n as int) =~= actions@);
    steps
}

/// Asks the profile, once, what executing `action` on a display of the
/// given dimension means, and gives the steps that run its answer: each
/// action in order, each followed by a sleep of its non-zero delay.
pub fn plan_execution<P: TouchProfile>(profile: &mut P, action: TouchAction, display: DisplaySize) -> (steps: Vec<
    ControllerStep,
>)
    ensures
        exists|actions: Seq<(TouchAction, Duration)>|
            old(profile).answers(
                action,
                (TouchContext { display_width: display.width, display_height: display.height }),
                actions,
            ) && steps@ == execution_plan(actions),
{
    let context = TouchContext::for_display(display);
    let actions = profile.process(action, context);
    execution_steps(actions)
}

/// Running one action applies it, then sleeps for its delay unless the
/// delay is zero.
pub proof fn lemma_execution_plan_single(action: TouchAction, delay: Duration)
    ensures
        execution_plan(seq![(action, delay)]) == (if delay == zero_duration() {
            seq![ControllerStep::Apply(action)]
        } else {
            seq![ControllerStep::Apply(action), ControllerStep::Sleep(delay)]
        }),
{
    let a = seq![(action, delay)];
    assert(a.drop_last() =~= Seq::<(TouchAction, Duration)>::empty());
    assert(execution_plan(a.drop_last()) =~= Seq::<ControllerStep>::empty());
    assert(Seq::<ControllerStep>::empty().push(ControllerStep::Apply(action)) =~= seq![ControllerStep::Apply(action)]);
    assert(seq![ControllerStep::Apply(action)].push(ControllerStep::Sleep(delay)) =~= seq![
        ControllerStep::Apply(action),
        ControllerStep::Sleep(delay),
    ]);
}

/// Running two runs of actions one after the other runs the steps of the
/// first, then those of the second.
pub proof fn lemma_execution_plan_concat(a: Seq<(TouchAction, Duration)>, b: Seq<(TouchAction, Duration)>)
    ensures
        execution_plan(a + b) == execution_plan(a) + execution_plan(b),
    decreases b.len(),
{
    if b.len() == 0 {
        assert(a + b =~= a);
        assert(execution_plan(a) + execution_plan(b) =~= execution_plan(a));
    } else {
        let rest = b.drop_last();
        lemma_execution_plan_concat(a, rest);
        assert((a + b).drop_last() =~= a + rest);
        assert((a + b).last() == b.last());
        let (action, delay) = b.last();
        let applied = execution_plan(a + rest).push(ControllerStep::Apply(action));
        assert(applied =~= execution_plan(a) + execution_plan(rest).push(ControllerStep::Apply(action)));
        assert(applied.push(ControllerStep::Sleep(delay)) =~= execution_plan(a) + execution_plan(rest).push(
            ControllerStep::Apply(action),
        ).push(ControllerStep::Sleep(delay)));
    }
}

} // verus!
