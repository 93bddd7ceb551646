//! Signals of the Ks signalling system.
//!
//! One Ks signal type covers main signals, announcement signals and
//! multi-aspect block signals; which extra lamps exist decides which role
//! the device can fill. Transitions follow the same fail-safe order as the
//! H/V signals: the new aspect's lamp comes on before the old aspect's
//! lamps go out, and the permissive green lamp goes out before the
//! restrictive yellow one.

use vstd::prelude::*;

use crate::lamps::Lamp;
use crate::lamps::LampFault;
use crate::lamps::LampOp;
use crate::lamps::lamp_op;
use crate::lamps::trace_extended_by_prefix;

verus! {

/// A signal aspect in the Ks signalling system.
///
/// `Stop` halts a train; `Proceed` clears it; `ExpectStop` previews a halt
/// one block ahead. `Deactivated` and `Dark` mean the same as in the H/V
/// system.
#[derive(Clone, Copy, Debug, PartialEq, Eq, Structural)]
pub enum KsSignalAspect {
    Stop,
    Proceed,
    ExpectStop,
    Deactivated,
    Dark,
}

/// The lamp positions of a Ks signal.
#[derive(Clone, Copy, Debug, PartialEq, Eq, Structural)]
pub enum KsLamp {
    Red,
    Yellow,
    Green,
    Notice,
}

/// The lamp states of a Ks signal. `None` marks a lamp that is not
/// installed: a main signal has no yellow lamp, an announcement signal no
/// red lamp, and the notice lamp is optional everywhere.
#[derive(Clone, Copy, Debug, PartialEq, Eq)]
pub struct KsLamps {
    pub red: Option<bool>,
    pub yellow: Option<bool>,
    pub green: bool,
    pub notice: Option<bool>,
}

/// Whether a Ks signal with lamps `s` can display `aspect`.
pub open spec fn ks_supports(s: KsLamps, aspect: KsSignalAspect) -> bool {
    match aspect {
        KsSignalAspect::Dark => true,
        KsSignalAspect::Proceed => true,
        KsSignalAspect::Stop => s.red is Some,
        KsSignalAspect::ExpectStop => s.yellow is Some,
        KsSignalAspect::Deactivated => s.notice is Some,
    }
}

/// The lamp states a Ks signal shows once `aspect` is fully applied.
pub open spec fn ks_target(s: KsLamps, aspect: KsSignalAspect) -> KsLamps {
    KsLamps {
        red: if s.red is Some {
            Some(aspect is Stop)
        } else {
            None
        },
        yellow: if s.yellow is Some {
            Some(aspect is ExpectStop)
        } else {
            None
        },
        green: aspect is Proceed,
        notice: if s.notice is Some {
            Some(aspect is Deactivated)
        } else {
            None
        },
    }
}

/// The effect of one pin operation on the lamp states; an operation on a
/// lamp that is not installed changes nothing.
pub open spec fn ks_apply(s: KsLamps, op: LampOp<KsLamp>) -> KsLamps {
    match op.lamp {
        KsLamp::Green => KsLamps { green: op.on, ..s },
        KsLamp::Red => if s.red is Some {
            KsLamps { red: Some(op.on), ..s }
        } else {
            s
        },
        KsLamp::Yellow => if s.yellow is Some {
            KsLamps { yellow: Some(op.on), ..s }
        } else {
            s
        },
        KsLamp::Notice => if s.notice is Some {
            KsLamps { notice: Some(op.on), ..s }
        } else {
            s
        },
    }
}

/// The planned, fail-safe order of pin operations for switching a Ks
/// signal with lamps `s` to `aspect`: the new aspect's lamp comes on before
/// the old aspect's lamps go out, and the permissive green lamp goes out
/// before the restrictive yellow one. Operations on absent lamps are
/// omitted.
pub open spec fn ks_plan(s: KsLamps, aspect: KsSignalAspect) -> Seq<LampOp<KsLamp>> {
    let red_on: Seq<LampOp<KsLamp>> = if s.red is Some {
        seq![lamp_op(KsLamp::Red, true)]
    } else {
        Seq::empty()
    };
    let red_off: Seq<LampOp<KsLamp>> = if s.red is Some {
        seq![lamp_op(KsLamp::Red, false)]
    } else {
        Seq::empty()
    };
    let yellow_on: Seq<LampOp<KsLamp>> = if s.yellow is Some {
        seq![lamp_op(KsLamp::Yellow, true)]
    } else {
        Seq::empty()
    };
    let yellow_off: Seq<LampOp<KsLamp>> = if s.yellow is Some {
        seq![lamp_op(KsLamp::Yellow, false)]
    } else {
        Seq::empty()
    };
    let notice_on: Seq<LampOp<KsLamp>> = if s.notice is Some {
        seq![lamp_op(KsLamp::Notice, true)]
    } else {
        Seq::empty()
    };
    let notice_off: Seq<LampOp<KsLamp>> = if s.notice is Some {
        seq![lamp_op(KsLamp::Notice, false)]
    } else {
        Seq::empty()
    };
    match aspect {
        KsSignalAspect::Stop => red_on + seq![lamp_op(KsLamp::Green, false)] + yellow_off
            + notice_off,
        KsSignalAspect::Proceed => seq![lamp_op(KsLamp::Green, true)] + red_off + yellow_off
            + notice_off,
        KsSignalAspect::ExpectStop => yellow_on + seq![lamp_op(KsLamp::Green, false)] + red_off
            + notice_off,
        KsSignalAspect::Deactivated => notice_on + seq![lamp_op(KsLamp::Green, false)]
            + yellow_off + red_off,
        KsSignalAspect::Dark => notice_off + seq![lamp_op(KsLamp::Green, false)] + yellow_off
            + red_off,
    }
}

/// The role-dependent extra lamps of a Ks signal.
enum ExtraKsPins<L: Lamp> {
    MultiBlockSignal { red_lamp: L, yellow_lamp: L },
    MainSignal { red_lamp: L },
    AnnouncementSignal { yellow_lamp: L },
}

impl<L: Lamp> ExtraKsPins<L> {
    /// The state of the red lamp, when one is installed.
    spec fn red_state(&self) -> Option<bool> {
        match self {
            ExtraKsPins::MultiBlockSignal { red_lamp, .. } => Some(red_lamp.lamp_on()),
            ExtraKsPins::MainSignal { red_lamp } => Some(red_lamp.lamp_on()),
            ExtraKsPins::AnnouncementSignal { .. } => None,
        }
    }

    /// The state of the yellow lamp, when one is installed.
    spec fn yellow_state(&self) -> Option<bool> {
        match self {
            ExtraKsPins::MultiBlockSignal { yellow_lamp, .. } => Some(yellow_lamp.lamp_on()),
            ExtraKsPins::MainSignal { .. } => None,
            ExtraKsPins::AnnouncementSignal { yellow_lamp } => Some(yellow_lamp.lamp_on()),
        }
    }

    /// Whether every installed extra lamp output is reliable.
    spec fn pins_reliable(&self) -> bool {
        match self {
            ExtraKsPins::MultiBlockSignal { red_lamp, yellow_lamp } => red_lamp.reliable()
                && yellow_lamp.reliable(),
            ExtraKsPins::MainSignal { red_lamp } => red_lamp.reliable(),
            ExtraKsPins::AnnouncementSignal { yellow_lamp } => yellow_lamp.reliable(),
        }
    }

    /// Whether a red lamp is installed.
    fn has_red_lamp(&self) -> (r: bool)
        ensures
            r == (self.red_state() is Some),
    {
        match self {
            ExtraKsPins::MultiBlockSignal { .. } => true,
            ExtraKsPins::MainSignal { .. } => true,
            ExtraKsPins::AnnouncementSignal { .. } => false,
        }
    }

    /// Whether a yellow lamp is installed.
    fn has_yellow_lamp(&self) -> (r: bool)
        ensures
            r == (self.yellow_state() is Some),
    {
        match self {
            ExtraKsPins::MultiBlockSignal { .. } => true,
            ExtraKsPins::MainSignal { .. } => false,
            ExtraKsPins::AnnouncementSignal { .. } => true,
        }
    }
}

/// A signal in the Ks signalling system.
///
/// The type is generic over the lamp output used. The green lamp is always
/// installed; the red and yellow lamps depend on the signal's role and the
/// notice lamp is optional.
pub struct KsSignal<L: Lamp> {
    other_pins: ExtraKsPins<L>,
    green_lamp: L,
    notice_lamp: Option<L>,
    trace: Ghost<Seq<LampOp<KsLamp>>>,
}

impl<L: Lamp> KsSignal<L> {
    /// The current lamp states.
    pub closed spec fn states(&self) -> KsLamps {
        KsLamps {
            red: self.other_pins.red_state(),
            yellow: self.other_pins.yellow_state(),
            green: self.green_lamp.lamp_on(),
            notice: match self.notice_lamp {
                Some(l) => Some(l.lamp_on()),
                None => None,
            },
        }
    }

    /// Every pin operation this signal has performed, in order.
    pub closed spec fn pin_trace(&self) -> Seq<LampOp<KsLamp>> {
        self.trace@
    }

    /// Whether this signal can display `aspect`.
    pub open spec fn supports(&self, aspect: KsSignalAspect) -> bool {
        ks_supports(self.states(), aspect)
    }

    /// Whether every installed lamp output is reliable, that is, never
    /// reports a failure.
    pub closed spec fn lamps_reliable(&self) -> bool {
        &&& self.other_pins.pins_reliable()
        &&& self.green_lamp.reliable()
        &&& match self.notice_lamp {
            Some(l) => l.reliable(),
            None => true,
        }
    }

    /// Creates a Ks main signal, with a red and a green lamp.
    pub fn new_main(red_lamp: L, green_lamp: L) -> (s: Self)
        ensures
            s.states() == (KsLamps {
                red: Some(red_lamp.lamp_on()),
                yellow: None,
                green: green_lamp.lamp_on(),
                notice: None,
            }),
            s.pin_trace() == Seq::<LampOp<KsLamp>>::empty(),
            s.lamps_reliable() == (red_lamp.reliable() && green_lamp.reliable()),
    {
        Self {
            other_pins: ExtraKsPins::MainSignal { red_lamp },
            green_lamp,
            notice_lamp: None,
            trace: Ghost(Seq::empty()),
        }
    }

    /// Creates a Ks announcement signal, with a green and a yellow lamp.
    pub fn new_announcement(green_lamp: L, yellow_lamp: L) -> (s: Self)
        ensures
            s.states() == (KsLamps {
                red: None,
                yellow: Some(yellow_lamp.lamp_on()),
                green: green_lamp.lamp_on(),
                notice: None,
            }),
            s.pin_trace() == Seq::<LampOp<KsLamp>>::empty(),
            s.lamps_reliable() == (yellow_lamp.reliable() && green_lamp.reliable()),
    {
        Self {
            other_pins: ExtraKsPins::AnnouncementSignal { yellow_lamp },
            green_lamp,
            notice_lamp: None,
            trace: Ghost(Seq::empty()),
        }
    }

    /// Creates a Ks multi-aspect block signal, with red, green and yellow
    /// lamps.
    pub fn new_multi_block(red_lamp: L, green_lamp: L, yellow_lamp: L) -> (s: Self)
        ensures
            s.states() == (KsLamps {
                red: Some(red_lamp.lamp_on()),
                yellow: Some(yellow_lamp.lamp_on()),
                green: green_lamp.lamp_on(),
                notice: None,
            }),
            s.pin_trace() == Seq::<LampOp<KsLamp>>::empty(),
            s.lamps_reliable() == (red_lamp.reliable() && green_lamp.reliable()
                && yellow_lamp.reliable()),
    {
        Self {
            other_pins: ExtraKsPins::MultiBlockSignal { red_lamp, yellow_lamp },
            green_lamp,
            notice_lamp: None,
            trace: Ghost(Seq::empty()),
        }
    }

    /// Adds a notice lamp to this signal.
    pub fn with_notice_lamp(self, notice_lamp: L) -> (s: Self)
        ensures
            s.states() == (KsLamps { notice: Some(notice_lamp.lamp_on()), ..self.states() }),
            s.pin_trace() == self.pin_trace(),
            self.lamps_reliable() && notice_lamp.reliable() ==> s.lamps_reliable(),
    {
        Self { notice_lamp: Some(notice_lamp), ..self }
    }

    /// Returns whether this signal supports the given aspect, since some
    /// aspects require optional lamps.
    pub fn supports_aspect(&self, aspect: KsSignalAspect) -> (r: bool)
        ensures
            r == self.supports(aspect),
    {
        match aspect {
            KsSignalAspect::Dark => true,
            KsSignalAspect::Proceed => true,
            KsSignalAspect::Stop => self.other_pins.has_red_lamp(),
            KsSignalAspect::ExpectStop => self.other_pins.has_yellow_lamp(),
            KsSignalAspect::Deactivated => self.notice_lamp.is_some(),
        }
    }

    /// Reads back the current lamp states.
    pub fn lamp_states(&self) -> (r: KsLamps)
        ensures
            r == self.states(),
    {
        KsLamps {
            red: match &self.other_pins {
                ExtraKsPins::MultiBlockSignal { red_lamp, .. } => Some(red_lamp.is_on()),
                ExtraKsPins::MainSignal { red_lamp } => Some(red_lamp.is_on()),
                ExtraKsPins::AnnouncementSignal { .. } => None,
            },
            yellow: match &self.other_pins {
                ExtraKsPins::MultiBlockSignal { yellow_lamp, .. } => Some(yellow_lamp.is_on()),
                ExtraKsPins::MainSignal { .. } => None,
                ExtraKsPins::AnnouncementSignal { yellow_lamp } => Some(yellow_lamp.is_on()),
            },
            green: self.green_lamp.is_on(),
            notice: match &self.notice_lamp {
                Some(l) => Some(l.is_on()),
                None => None,
            },
        }
    }

    /// Performs one pin operation and records it in the trace. An operation
    /// on an absent lamp does nothing.
    fn apply(&mut self, which: KsLamp, on: bool) -> (r: Result<(), LampFault>)
        ensures
            final(self).states().red is Some <==> old(self).states().red is Some,
            final(self).states().yellow is Some <==> old(self).states().yellow is Some,
            final(self).states().notice is Some <==> old(self).states().notice is Some,
            final(self).lamps_reliable() == old(self).lamps_reliable(),
            old(self).lamps_reliable() ==> r is Ok,
            r is Ok ==> final(self).states() == ks_apply(old(self).states(), lamp_op(which, on)),
            r is Ok ==> final(self).pin_trace() == old(self).pin_trace() + (if ks_lamp_present(
                old(self).states(),
                which,
            ) {
                seq![lamp_op(which, on)]
            } else {
                Seq::<LampOp<KsLamp>>::empty()
            }),
            r is Err ==> final(self).pin_trace() == old(self).pin_trace(),
    {
        match which {
            KsLamp::Green => {
                self.green_lamp.set_on(on)?;
            },
            KsLamp::Red => {
                match &mut self.other_pins {
                    ExtraKsPins::MultiBlockSignal { red_lamp, .. } => {
                        red_lamp.set_on(on)?;
                    },
                    ExtraKsPins::MainSignal { red_lamp } => {
                        red_lamp.set_on(on)?;
                    },
                    ExtraKsPins::AnnouncementSignal { .. } => {
                        proof {
                            assert(self.pin_trace() + Seq::<LampOp<KsLamp>>::empty()
                                =~= self.pin_trace());
                        }
                        return Ok(());
                    },
                }
            },
            KsLamp::Yellow => {
                match &mut self.other_pins {
                    ExtraKsPins::MultiBlockSignal { yellow_lamp, .. } => {
                        yellow_lamp.set_on(on)?;
                    },
                    ExtraKsPins::AnnouncementSignal { yellow_lamp } => {
                        yellow_lamp.set_on(on)?;
                    },
                    ExtraKsPins::MainSignal { .. } => {
                        proof {
                            assert(self.pin_trace() + Seq::<LampOp<KsLamp>>::empty()
                                =~= self.pin_trace());
                        }
                        return Ok(());
                    },
                }
            },
            KsLamp::Notice => {
                match &mut self.notice_lamp {
                    Some(l) => {
                        l.set_on(on)?;
                    },
                    None => {
                        proof {
                            assert(self.pin_trace() + Seq::<LampOp<KsLamp>>::empty()
                                =~= self.pin_trace());
                        }
                        return Ok(());
                    },
                }
            },
        }
        self.trace = Ghost(self.trace@.push(lamp_op(which, on)));
        proof {
            assert(old(self).pin_trace().push(lamp_op(which, on)) =~= old(self).pin_trace()
                + seq![lamp_op(which, on)]);
        }
        Ok(())
    }

    /// Switches this signal to the given aspect, performing the pin
    /// operations of [`ks_plan`] one by one in their planned order.
    ///
    /// Callers must check [`Self::supports_aspect`] first: commanding an
    /// aspect the hardware cannot show is a logic fault, not a recoverable
    /// error. The first lamp failure is returned as a fault and stops the
    /// transition at once — the operations performed are then a prefix of
    /// the plan and no further lamp is written. Over reliable lamps the
    /// switch always succeeds.
    pub fn switch_to_aspect(&mut self, aspect: KsSignalAspect) -> (r: Result<(), LampFault>)
        requires
            old(self).supports(aspect),
        ensures
            final(self).states().red is Some <==> old(self).states().red is Some,
            final(self).states().yellow is Some <==> old(self).states().yellow is Some,
            final(self).states().notice is Some <==> old(self).states().notice is Some,
            final(self).lamps_reliable() == old(self).lamps_reliable(),
            old(self).lamps_reliable() ==> r is Ok,
            r is Ok ==> final(self).states() == ks_target(old(self).states(), aspect),
            r is Ok ==> final(self).pin_trace() == old(self).pin_trace() + ks_plan(
                old(self).states(),
                aspect,
            ),
            r is Err ==> trace_extended_by_prefix(
                old(self).pin_trace(),
                final(self).pin_trace(),
                ks_plan(old(self).states(), aspect),
            ),
    {
        let ghost plan = ks_plan(old(self).states(), aspect);
        let start = self.lamp_states();
        let ops = ks_transition_ops(&start, aspect);
        proof {
            assert(old(self).pin_trace() + plan.take(0) =~= old(self).pin_trace());
        }
        let mut i: usize = 0;
        while i < ops.len()
            invariant
                i <= ops@.len(),
                ops@ == plan,
                plan == ks_plan(old(self).states(), aspect),
                old(self).supports(aspect),
                forall|j: int| 0 <= j < plan.len() ==> ks_lamp_present(
                    old(self).states(),
                    plan[j].lamp,
                ),
                self.states().red is Some <==> old(self).states().red is Some,
                self.states().yellow is Some <==> old(self).states().yellow is Some,
                self.states().notice is Some <==> old(self).states().notice is Some,
                self.lamps_reliable() == old(self).lamps_reliable(),
                self.states() == ks_apply_all(old(self).states(), plan.take(i as int)),
                self.pin_trace() == old(self).pin_trace() + plan.take(i as int),
            decreases ops@.len() - i,
        {
            let op = ops[i];
            proof {
                lemma_ks_apply_all_take_step(old(self).states(), plan, i as int);
            }
            match self.apply(op.lamp, op.on) {
                Ok(()) => {},
                Err(e) => {
                    proof {
                        assert(self.pin_trace() == old(self).pin_trace() + plan.take(i as int));
                        assert(trace_extended_by_prefix(
                            old(self).pin_trace(),
                            self.pin_trace(),
                            plan,
                        ));
                    }
                    return Err(e);
                },
            }
            proof {
                assert((old(self).pin_trace() + plan.take(i as int)) + seq![plan[i as int]]
                    =~= old(self).pin_trace() + plan.take(i + 1));
            }
            i += 1;
        }
        proof {
            assert(plan.take(plan.len() as int) =~= plan);
            lemma_ks_plan_reaches_target(old(self).states(), aspect);
        }
        Ok(())
    }
}

/// The effect of a sequence of pin operations, applied oldest first.
pub open spec fn ks_apply_all(s: KsLamps, ops: Seq<LampOp<KsLamp>>) -> KsLamps
    decreases ops.len(),
{
    if ops.len() == 0 {
        s
    } else {
        ks_apply_all(ks_apply(s, ops[0]), ops.skip(1))
    }
}

/// One step of [`ks_apply_all`] over a growing prefix.
pub proof fn lemma_ks_apply_all_take_step(s: KsLamps, p: Seq<LampOp<KsLamp>>, i: int)
    requires
        0 <= i < p.len(),
    ensures
        ks_apply_all(s, p.take(i + 1)) == ks_apply(ks_apply_all(s, p.take(i)), p[i]),
    decreases i,
{
    reveal_with_fuel(ks_apply_all, 2);
    if i == 0 {
        assert(p.take(0) =~= Seq::<LampOp<KsLamp>>::empty());
        assert(p.take(1)[0] == p[0]);
        assert(p.take(1).skip(1) =~= Seq::<LampOp<KsLamp>>::empty());
    } else {
        let q = p.skip(1);
        assert(p.take(i + 1)[0] == p[0]);
        assert(p.take(i)[0] == p[0]);
        assert(p.take(i + 1).skip(1) =~= q.take(i));
        assert(p.take(i).skip(1) =~= q.take(i - 1));
        lemma_ks_apply_all_take_step(ks_apply(s, p[0]), q, i - 1);
        assert(q[i - 1] == p[i]);
    }
}

/// Law: the planned operations, applied in their planned order, produce
/// exactly the target lamp set of the aspect.
#[verifier::rlimit(60)]
pub proof fn lemma_ks_plan_reaches_target(s: KsLamps, aspect: KsSignalAspect)
    requires
        ks_supports(s, aspect),
    ensures
        ks_apply_all(s, ks_plan(s, aspect)) == ks_target(s, aspect),
{
    reveal_with_fuel(ks_apply_all, 6);
    let p = ks_plan(s, aspect);
    assert forall|k: int| 0 <= k < p.len() implies p.skip(k)[0] == p[k] by {}
    match aspect {
        KsSignalAspect::Stop => {
            assert(ks_apply_all(s, p) == ks_target(s, aspect));
        },
        KsSignalAspect::Proceed => {
            assert(ks_apply_all(s, p) == ks_target(s, aspect));
        },
        KsSignalAspect::ExpectStop => {
            assert(ks_apply_all(s, p) == ks_target(s, aspect));
        },
        KsSignalAspect::Deactivated => {
            assert(ks_apply_all(s, p) == ks_target(s, aspect));
        },
        KsSignalAspect::Dark => {
            assert(ks_apply_all(s, p) == ks_target(s, aspect));
        },
    }
}

/// The pin operations a Ks signal with lamps `s` performs to reach
/// `aspect`, in the order they are performed; see [`ks_plan`]. Every
/// planned operation drives an installed lamp.
pub fn ks_transition_ops(s: &KsLamps, aspect: KsSignalAspect) -> (v: Vec<LampOp<KsLamp>>)
    ensures
        v@ == ks_plan(*s, aspect),
        forall|j: int| 0 <= j < v@.len() ==> ks_lamp_present(*s, v@[j].lamp),
{
    let mut v: Vec<LampOp<KsLamp>> = Vec::new();
    match aspect {
        KsSignalAspect::Stop => {
            if s.red.is_some() {
                v.push(LampOp { lamp: KsLamp::Red, on: true });
            }
            v.push(LampOp { lamp: KsLamp::Green, on: false });
            if s.yellow.is_some() {
                v.push(LampOp { lamp: KsLamp::Yellow, on: false });
            }
            if s.notice.is_some() {
                v.push(LampOp { lamp: KsLamp::Notice, on: false });
            }
        },
        KsSignalAspect::Proceed => {
            v.push(LampOp { lamp: KsLamp::Green, on: true });
            if s.red.is_some() {
                v.push(LampOp { lamp: KsLamp::Red, on: false });
            }
            if s.yellow.is_some() {
                v.push(LampOp { lamp: KsLamp::Yellow, on: false });
            }
            if s.notice.is_some() {
                v.push(LampOp { lamp: KsLamp::Notice, on: false });
            }
        },
        KsSignalAspect::ExpectStop => {
            if s.yellow.is_some() {
                v.push(LampOp { lamp: KsLamp::Yellow, on: true });
            }
            v.push(LampOp { lamp: KsLamp::Green, on: false });
            if s.red.is_some() {
                v.push(LampOp { lamp: KsLamp::Red, on: false });
            }
            if s.notice.is_some() {
                v.push(LampOp { lamp: KsLamp::Notice, on: false });
            }
        },
        KsSignalAspect::Deactivated => {
            if s.notice.is_some() {
                v.push(LampOp { lamp: KsLamp::Notice, on: true });
            }
            v.push(LampOp { lamp: KsLamp::Green, on: false });
            if s.yellow.is_some() {
                v.push(LampOp { lamp: KsLamp::Yellow, on: false });
            }
            if s.red.is_some() {
                v.push(LampOp { lamp: KsLamp::Red, on: false });
            }
        },
        KsSignalAspect::Dark => {
            if s.notice.is_some() {
                v.push(LampOp { lamp: KsLamp::Notice, on: false });
            }
            v.push(LampOp { lamp: KsLamp::Green, on: false });
            if s.yellow.is_some() {
                v.push(LampOp { lamp: KsLamp::Yellow, on: false });
            }
            if s.red.is_some() {
                v.push(LampOp { lamp: KsLamp::Red, on: false });
            }
        },
    }
    proof {
        assert(v@ =~= ks_plan(*s, aspect));
    }
    v
}

/// Whether the lamp position `lamp` is installed on a Ks signal with lamps
/// `s`.
pub open spec fn ks_lamp_present(s: KsLamps, lamp: KsLamp) -> bool {
    match lamp {
        KsLamp::Green => true,
        KsLamp::Red => s.red is Some,
        KsLamp::Yellow => s.yellow is Some,
        KsLamp::Notice => s.notice is Some,
    }
}

/// Law: an aspect whose required lamp is absent from the lamp set is not
/// supported — Stop needs the red lamp, the expect-stop aspect the yellow
/// lamp, deactivation the notice lamp.
pub proof fn lemma_ks_missing_lamp_unsupported(s: KsLamps)
    ensures
        s.red is None ==> !ks_supports(s, KsSignalAspect::Stop),
        s.yellow is None ==> !ks_supports(s, KsSignalAspect::ExpectStop),
        s.notice is None ==> !ks_supports(s, KsSignalAspect::Deactivated),
{
}

/// Law: entering the expect-stop aspect, the restrictive yellow lamp is
/// commanded on strictly before the green lamp is cleared, so the signal
/// never goes blank on the way to a restrictive aspect.
pub proof fn lemma_ks_expect_stop_sets_yellow_first(s: KsLamps)
    requires
        s.yellow is Some,
    ensures
        ks_plan(s, KsSignalAspect::ExpectStop)[0] == lamp_op(KsLamp::Yellow, true),
        ks_plan(s, KsSignalAspect::ExpectStop)[1] == lamp_op(KsLamp::Green, false),
{
}

} // verus!