//! The lamp output interface.
//!
//! A signal owns one lamp per lamp position. The hardware behind a lamp is
//! outside this library; it is reached through the [`Lamp`] trait, whose
//! contract is all the signal state machines rely on. [`ModelLamp`] is an
//! in-memory implementation used by tests and simulations.

use vstd::prelude::*;

verus! {

/// A hardware failure reported by a lamp output. Such failures are treated
/// as fatal by the callers: there is no safe partial state to resume from
/// in the middle of a transition.
#[derive(Clone, Copy, Debug, PartialEq, Eq, Structural)]
pub struct LampFault;

/// One lamp output.
///
/// Implementations drive a physical pin (or a simulation of one). The
/// `lamp_on` specification is the commanded state of the output; after a
/// successful `set_on` the commanded state is the requested one, while after
/// a failed `set_on` nothing is known about it. `reliable` marks an output
/// that never reports a failure — an intrinsic property of the
/// implementation, fixed for the life of the lamp — which lets callers
/// promise success over reliable lamps.
pub trait Lamp: Sized {
    /// The state the lamp output is currently commanded to.
    spec fn lamp_on(&self) -> bool;

    /// Whether this lamp output never reports a failure.
    spec fn reliable(&self) -> bool;

    /// Drives the lamp output high (`true`) or low (`false`).
    fn set_on(&mut self, on: bool) -> (r: Result<(), LampFault>)
        ensures
            r is Ok ==> final(self).lamp_on() == on,
            old(self).reliable() ==> r is Ok,
            final(self).reliable() == old(self).reliable(),
    ;

    /// Reads back the commanded state of the output.
    fn is_on(&self) -> (r: bool)
        ensures
            r == self.lamp_on(),
    ;
}

/// An in-memory lamp that always succeeds; the state it would drive a
/// physical pin to is kept in a plain field.
#[derive(Clone, Copy, Debug, PartialEq, Eq, Structural)]
pub struct ModelLamp {
    pub on: bool,
}

impl ModelLamp {
    /// Creates a lamp that is currently off.
    pub fn off() -> (l: ModelLamp)
        ensures
            !l.lamp_on(),
            l.reliable(),
    {
        ModelLamp { on: false }
    }
}

impl Lamp for ModelLamp {
    open spec fn lamp_on(&self) -> bool {
        self.on
    }

    open spec fn reliable(&self) -> bool {
        true
    }

    fn set_on(&mut self, on: bool) -> (r: Result<(), LampFault>)
        ensures
            r is Ok,
    {
        self.on = on;
        Ok(())
    }

    fn is_on(&self) -> (r: bool) {
        self.on
    }
}

/// A lamp whose output always reports a hardware failure; it exercises the
/// fault path of the signal state machines.
#[derive(Clone, Copy, Debug, PartialEq, Eq, Structural)]
pub struct BrokenLamp;

impl Lamp for BrokenLamp {
    open spec fn lamp_on(&self) -> bool {
        false
    }

    open spec fn reliable(&self) -> bool {
        false
    }

    fn set_on(&mut self, on: bool) -> (r: Result<(), LampFault>)
        ensures
            r is Err,
    {
        Err(LampFault)
    }

    fn is_on(&self) -> (r: bool) {
        false
    }
}

/// One pin-level operation of a transition: drive `lamp` to state `on`.
#[derive(Clone, Copy, Debug, PartialEq, Eq, Structural)]
pub struct LampOp<I> {
    pub lamp: I,
    pub on: bool,
}

/// Builds a [`LampOp`].
pub open spec fn lamp_op<I>(lamp: I, on: bool) -> LampOp<I> {
    LampOp { lamp, on }
}

/// Whether `new_trace` is `old_trace` extended by some prefix of `plan`:
/// the shape a pin trace is left in when a transition stops partway
/// through its planned operations.
pub open spec fn trace_extended_by_prefix<I>(
    old_trace: Seq<LampOp<I>>,
    new_trace: Seq<LampOp<I>>,
    plan: Seq<LampOp<I>>,
) -> bool {
    exists|k: int| 0 <= k <= plan.len() && new_trace == old_trace + plan.take(k)
}

/// An unchanged trace is extended by the empty prefix.
pub proof fn lemma_unchanged_trace_is_prefix<I>(t: Seq<LampOp<I>>, plan: Seq<LampOp<I>>)
    ensures
        trace_extended_by_prefix(t, t, plan),
{
    assert(t + plan.take(0) =~= t);
}

/// A trace extended by the whole plan is extended by a prefix of it.
pub proof fn lemma_whole_plan_is_prefix<I>(t: Seq<LampOp<I>>, plan: Seq<LampOp<I>>)
    ensures
        trace_extended_by_prefix(t, t + plan, plan),
{
    assert(t + plan.take(plan.len() as int) =~= t + plan);
}

} // verus!
