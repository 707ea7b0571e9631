//! The station's association handshake as a state machine: configure the
//! radio, start it, associate, then wait for the network interface. Each step
//! is tried once; the first failure ends the handshake.

use vstd::prelude::*;

verus! {

/// How far the handshake has come.
#[derive(Clone, Copy, Debug, PartialEq, Eq, Structural)]
pub enum Stage {
    Unconfigured,
    Configured,
    Started,
    Associated,
    Ready,
    Failed,
}

/// What the driver reports for the step it was last asked to perform.
#[derive(Clone, Copy, Debug, PartialEq, Eq, Structural)]
pub enum Outcome {
    Success,
    Failure,
}

/// What the driver is asked to do next.
#[derive(Clone, Copy, Debug, PartialEq, Eq, Structural)]
pub enum Action {
    SetConfiguration,
    Start,
    Connect,
    WaitNetifUp,
    Finish,
    Abort,
}

/// The stage after `s` in the order of the handshake; the two final stages
/// stay where they are.
pub open spec fn successor(s: Stage) -> Stage {
    match s {
        Stage::Unconfigured => Stage::Configured,
        Stage::Configured => Stage::Started,
        Stage::Started => Stage::Associated,
        Stage::Associated => Stage::Ready,
        Stage::Ready => Stage::Ready,
        Stage::Failed => Stage::Failed,
    }
}

pub open spec fn is_final(s: Stage) -> bool {
    s == Stage::Ready || s == Stage::Failed
}

/// The stage once the step pending in `s` has ended with `o`.
pub open spec fn next_stage(s: Stage, o: Outcome) -> Stage {
    if is_final(s) {
        s
    } else if o == Outcome::Success {
        successor(s)
    } else {
        Stage::Failed
    }
}

/// The step that stage `s` asks of the driver.
pub open spec fn action_of(s: Stage) -> Action {
    match s {
        Stage::Unconfigured => Action::SetConfiguration,
        Stage::Configured => Action::Start,
        Stage::Started => Action::Connect,
        Stage::Associated => Action::WaitNetifUp,
        Stage::Ready => Action::Finish,
        Stage::Failed => Action::Abort,
    }
}

/// The stage reached from `s` after the outcomes `outs`, in order.
pub open spec fn run(s: Stage, outs: Seq<Outcome>) -> Stage
    decreases outs.len(),
{
    if outs.len() == 0 {
        s
    } else {
        run(next_stage(s, outs[0]), outs.drop_first())
    }
}

/// Whether the first `n` outcomes of `outs` are all successes.
pub open spec fn all_succeed(outs: Seq<Outcome>, n: int) -> bool {
    forall|i: int| 0 <= i < n ==> outs[i] == Outcome::Success
}

/// The number of steps from `s` to `Stage::Ready` when every step succeeds.
pub open spec fn steps_left(s: Stage) -> nat {
    match s {
        Stage::Unconfigured => 4,
        Stage::Configured => 3,
        Stage::Started => 2,
        Stage::Associated => 1,
        Stage::Ready => 0,
        Stage::Failed => 0,
    }
}

/// The stage a handshake begins in.
pub fn initial_stage() -> (r: Stage)
    ensures
        r == Stage::Unconfigured,
{
    Stage::Unconfigured
}

/// The step the driver performs in stage `s`.
pub fn pending_action(s: Stage) -> (r: Action)
    ensures
        r == action_of(s),
{
    match s {
        Stage::Unconfigured => Action::SetConfiguration,
        Stage::Configured => Action::Start,
        Stage::Started => Action::Connect,
        Stage::Associated => Action::WaitNetifUp,
        Stage::Ready => Action::Finish,
        Stage::Failed => Action::Abort,
    }
}

/// The stage once the pending step of `s` has ended with `o`.
pub fn advance(s: Stage, o: Outcome) -> (r: Stage)
    ensures
        r == next_stage(s, o),
{
    match s {
        Stage::Ready => Stage::Ready,
        Stage::Failed => Stage::Failed,
        _ => match o {
            Outcome::Failure => Stage::Failed,
            Outcome::Success => match s {
                Stage::Unconfigured => Stage::Configured,
                Stage::Configured => Stage::Started,
                Stage::Started => Stage::Associated,
                _ => Stage::Ready,
            },
        },
    }
}

/// A failed handshake is never retried: whatever is reported afterwards, it
/// stays failed.
pub proof fn lemma_failure_is_final(outs: Seq<Outcome>)
    ensures
        run(Stage::Failed, outs) == Stage::Failed,
    decreases outs.len(),
{
    if outs.len() > 0 {
        lemma_failure_is_final(outs.drop_first());
    }
}

/// A completed handshake stays complete, whatever is reported afterwards.
pub proof fn lemma_ready_is_final(outs: Seq<Outcome>)
    ensures
        run(Stage::Ready, outs) == Stage::Ready,
    decreases outs.len(),
{
    if outs.len() > 0 {
        lemma_ready_is_final(outs.drop_first());
    }
}

/// From any stage that is not final, the handshake completes exactly when
/// the next `steps_left(s)` steps all succeed; otherwise it has failed once
/// that many outcomes are in.
pub proof fn lemma_completes_iff_all_succeed(s: Stage, outs: Seq<Outcome>)
    requires
        !is_final(s),
        outs.len() >= steps_left(s),
    ensures
        run(s, outs) == Stage::Ready <==> all_succeed(outs, steps_left(s) as int),
        run(s, outs) == Stage::Ready || run(s, outs) == Stage::Failed,
    decreases steps_left(s),
{
    let rest = outs.drop_first();
    let t = next_stage(s, outs[0]);
    if outs[0] == Outcome::Failure {
        lemma_failure_is_final(rest);
        assert(!all_succeed(outs, steps_left(s) as int));
    } else if t == Stage::Ready {
        lemma_ready_is_final(rest);
        assert(steps_left(s) == 1);
    } else {
        lemma_completes_iff_all_succeed(t, rest);
        assert(steps_left(t) + 1 == steps_left(s));
        if all_succeed(outs, steps_left(s) as int) {
            assert forall|i: int| 0 <= i < steps_left(t) implies rest[i] == Outcome::Success by {
                assert(rest[i] == outs[i + 1]);
            }
        }
        if all_succeed(rest, steps_left(t) as int) {
            assert forall|i: int| 0 <= i < steps_left(s) implies outs[i] == Outcome::Success by {
                if i > 0 {
                    assert(outs[i] == rest[i - 1]);
                }
            }
        }
    }
}

/// A fresh handshake completes after exactly four successful steps, and not
/// before.
pub proof fn lemma_fresh_handshake_takes_four_steps(outs: Seq<Outcome>)
    requires
        all_succeed(outs, outs.len() as int),
    ensures
        outs.len() < 4 ==> run(Stage::Unconfigured, outs) != Stage::Ready,
        outs.len() >= 4 ==> run(Stage::Unconfigured, outs) == Stage::Ready,
{
    if outs.len() >= 4 {
        lemma_completes_iff_all_succeed(Stage::Unconfigured, outs);
    } else {
        lemma_short_run_is_pending(Stage::Unconfigured, outs);
    }
}

/// Fewer successful steps than a stage still needs leave the handshake
/// pending: neither complete nor failed.
pub proof fn lemma_short_run_is_pending(s: Stage, outs: Seq<Outcome>)
    requires
        !is_final(s),
        outs.len() < steps_left(s),
        all_succeed(outs, outs.len() as int),
    ensures
        !is_final(run(s, outs)),
    decreases outs.len(),
{
    if outs.len() > 0 {
        let rest = outs.drop_first();
        assert forall|i: int| 0 <= i < rest.len() implies rest[i] == Outcome::Success by {
            assert(rest[i] == outs[i + 1]);
        }
        assert(outs[0] == Outcome::Success);
        lemma_short_run_is_pending(next_stage(s, outs[0]), rest);
    }
}

} // verus!
