//! Signals of the H/V signalling system: the main signal, the announcement
//! signal, and their grouping.
//!
//! Every transition follows a fixed, fail-safe order of pin operations:
//! lamps of the new aspect come on before the lamps of the old aspect go
//! out; the restrictive yellow lamp comes on before the permissive green
//! one, and the permissive green lamp goes out before the restrictive
//! yellow one. The planned order is stated by [`hv_main_plan`] and
//! [`hv_announcement_plan`]; each switch records the operations it
//! performed, in order, in a ghost trace that its contract ties to the
//! plan.

use vstd::prelude::*;

use crate::commands::AspectCommand;
use crate::lamps::Lamp;
use crate::lamps::LampFault;
use crate::lamps::LampOp;
use crate::lamps::lamp_op;
use crate::lamps::lemma_unchanged_trace_is_prefix;
use crate::lamps::lemma_whole_plan_is_prefix;
use crate::lamps::trace_extended_by_prefix;

verus! {

/// An optical main signal aspect in the H/V signalling system.
///
/// `Stop` halts a train; `Proceed` clears it at line speed; `ProceedSlow`
/// clears it at reduced speed. `Deactivated` marks a signal administratively
/// switched off, shown by the notice lamp alone; `Dark` extinguishes every
/// lamp because a superior train control system governs instead.
#[derive(Clone, Copy, Debug, PartialEq, Eq, Structural)]
pub enum HVMainSignalAspect {
    Stop,
    Proceed,
    ProceedSlow,
    Deactivated,
    Dark,
}

/// The wire identifier of each main aspect, as one byte.
pub open spec fn hv_main_code_byte(aspect: HVMainSignalAspect) -> u8 {
    match aspect {
        HVMainSignalAspect::Stop => '0' as u8,
        HVMainSignalAspect::Proceed => '1' as u8,
        HVMainSignalAspect::ProceedSlow => '2' as u8,
        HVMainSignalAspect::Deactivated => 'A' as u8,
        HVMainSignalAspect::Dark => 'D' as u8,
    }
}

/// The main aspect a wire identifier stands for, when it is one byte long
/// and recognized.
pub open spec fn hv_main_aspect_for_code(code: Seq<u8>) -> Option<HVMainSignalAspect> {
    if code == seq!['0' as u8] {
        Some(HVMainSignalAspect::Stop)
    } else if code == seq!['1' as u8] {
        Some(HVMainSignalAspect::Proceed)
    } else if code == seq!['2' as u8] {
        Some(HVMainSignalAspect::ProceedSlow)
    } else if code == seq!['A' as u8] {
        Some(HVMainSignalAspect::Deactivated)
    } else if code == seq!['D' as u8] {
        Some(HVMainSignalAspect::Dark)
    } else {
        None
    }
}

impl HVMainSignalAspect {
    /// The wire identifier of this aspect, used in commands, in
    /// acknowledgements and in the persisted state.
    pub fn command_id(self) -> (r: &'static str)
        ensures
            r@ == seq![hv_main_code_char(self)],
    {
        proof {
            reveal_strlit("0");
            reveal_strlit("1");
            reveal_strlit("2");
            reveal_strlit("A");
            reveal_strlit("D");
        }
        match self {
            Self::Stop => "0",
            Self::Proceed => "1",
            Self::ProceedSlow => "2",
            Self::Deactivated => "A",
            Self::Dark => "D",
        }
    }

    /// The wire identifier of this aspect as one byte.
    pub fn command_byte(self) -> (r: u8)
        ensures
            r == hv_main_code_byte(self),
    {
        match self {
            Self::Stop => '0' as u8,
            Self::Proceed => '1' as u8,
            Self::ProceedSlow => '2' as u8,
            Self::Deactivated => 'A' as u8,
            Self::Dark => 'D' as u8,
        }
    }

    /// The aspect a persisted or received wire identifier stands for.
    pub fn from_command_id(command_id: &[u8]) -> (r: Option<Self>)
        ensures
            r == hv_main_aspect_for_code(command_id@),
    {
        proof {
            if command_id@.len() == 1 {
                assert(command_id@ =~= seq![command_id@[0]]);
            }
            assert(seq!['0' as u8][0] == '0' as u8);
            assert(seq!['1' as u8][0] == '1' as u8);
            assert(seq!['2' as u8][0] == '2' as u8);
            assert(seq!['A' as u8][0] == 'A' as u8);
            assert(seq!['D' as u8][0] == 'D' as u8);
        }
        if command_id.len() != 1 {
            return None;
        }
        let c = *vstd::slice::slice_index_get(command_id, 0);
        if c == '0' as u8 {
            Some(Self::Stop)
        } else if c == '1' as u8 {
            Some(Self::Proceed)
        } else if c == '2' as u8 {
            Some(Self::ProceedSlow)
        } else if c == 'A' as u8 {
            Some(Self::Deactivated)
        } else if c == 'D' as u8 {
            Some(Self::Dark)
        } else {
            None
        }
    }
}

/// The wire identifier of each main aspect, as one character.
pub open spec fn hv_main_code_char(aspect: HVMainSignalAspect) -> char {
    match aspect {
        HVMainSignalAspect::Stop => '0',
        HVMainSignalAspect::Proceed => '1',
        HVMainSignalAspect::ProceedSlow => '2',
        HVMainSignalAspect::Deactivated => 'A',
        HVMainSignalAspect::Dark => 'D',
    }
}

/// The main aspect each abstract command asks for.
pub open spec fn hv_main_aspect_of_command(command: AspectCommand) -> HVMainSignalAspect {
    match command {
        AspectCommand::Zero => HVMainSignalAspect::Stop,
        AspectCommand::One => HVMainSignalAspect::Proceed,
        AspectCommand::Two => HVMainSignalAspect::ProceedSlow,
        AspectCommand::Deactivated => HVMainSignalAspect::Deactivated,
        AspectCommand::Dark => HVMainSignalAspect::Dark,
    }
}

impl From<AspectCommand> for HVMainSignalAspect {
    fn from(value: AspectCommand) -> (r: Self) {
        match value {
            AspectCommand::Zero => Self::Stop,
            AspectCommand::One => Self::Proceed,
            AspectCommand::Two => Self::ProceedSlow,
            AspectCommand::Deactivated => Self::Deactivated,
            AspectCommand::Dark => Self::Dark,
        }
    }
}

impl vstd::std_specs::convert::FromSpecImpl<AspectCommand> for HVMainSignalAspect {
    open spec fn obeys_from_spec() -> bool {
        true
    }

    open spec fn from_spec(value: AspectCommand) -> Self {
        hv_main_aspect_of_command(value)
    }
}

/// An optical announcement signal aspect in the H/V signalling system.
///
/// An announcement signal previews the aspect of the main signal one block
/// ahead. `Deactivated` and `Dark` mean the same as for the main signal.
#[derive(Clone, Copy, Debug, PartialEq, Eq, Structural)]
pub enum HVAnnouncementSignalAspect {
    ExpectStop,
    ExpectProceed,
    ExpectProceedSlow,
    Deactivated,
    Dark,
}

/// The announcement aspect that previews each main aspect.
pub open spec fn hv_announcement_of_main(aspect: HVMainSignalAspect) -> HVAnnouncementSignalAspect {
    match aspect {
        HVMainSignalAspect::Stop => HVAnnouncementSignalAspect::ExpectStop,
        HVMainSignalAspect::Proceed => HVAnnouncementSignalAspect::ExpectProceed,
        HVMainSignalAspect::ProceedSlow => HVAnnouncementSignalAspect::ExpectProceedSlow,
        HVMainSignalAspect::Deactivated => HVAnnouncementSignalAspect::Deactivated,
        HVMainSignalAspect::Dark => HVAnnouncementSignalAspect::Dark,
    }
}

impl From<HVMainSignalAspect> for HVAnnouncementSignalAspect {
    fn from(value: HVMainSignalAspect) -> (r: Self) {
        match value {
            HVMainSignalAspect::Stop => Self::ExpectStop,
            HVMainSignalAspect::Proceed => Self::ExpectProceed,
            HVMainSignalAspect::ProceedSlow => Self::ExpectProceedSlow,
            HVMainSignalAspect::Deactivated => Self::Deactivated,
            HVMainSignalAspect::Dark => Self::Dark,
        }
    }
}

impl vstd::std_specs::convert::FromSpecImpl<HVMainSignalAspect> for HVAnnouncementSignalAspect {
    open spec fn obeys_from_spec() -> bool {
        true
    }

    open spec fn from_spec(value: HVMainSignalAspect) -> Self {
        hv_announcement_of_main(value)
    }
}

/// The lamp positions of a main signal.
#[derive(Clone, Copy, Debug, PartialEq, Eq, Structural)]
pub enum HVMainLamp {
    Red1,
    Yellow,
    Green,
    Notice,
}

/// The lamp states of a main signal. `None` marks a lamp that is not
/// installed on this device; presence is fixed at construction time.
#[derive(Clone, Copy, Debug, PartialEq, Eq)]
pub struct HVMainLamps {
    pub red: bool,
    pub yellow: Option<bool>,
    pub green: bool,
    pub notice: Option<bool>,
}

/// Whether a main signal with lamps `s` can display `aspect`: every lamp
/// the aspect requires must be installed.
pub open spec fn hv_main_supports(s: HVMainLamps, aspect: HVMainSignalAspect) -> bool {
    match aspect {
        HVMainSignalAspect::Stop => true,
        HVMainSignalAspect::Proceed => true,
        HVMainSignalAspect::Dark => true,
        HVMainSignalAspect::ProceedSlow => s.yellow is Some,
        HVMainSignalAspect::Deactivated => s.notice is Some,
    }
}

/// The lamp states a main signal shows once `aspect` is fully applied:
/// exactly the lamps of the aspect are lit, every other installed lamp is
/// out.
pub open spec fn hv_main_target(s: HVMainLamps, aspect: HVMainSignalAspect) -> HVMainLamps {
    HVMainLamps {
        red: aspect is Stop,
        yellow: if s.yellow is Some {
            Some(aspect is ProceedSlow)
        } else {
            None
        },
        green: aspect is Proceed || aspect is ProceedSlow,
        notice: if s.notice is Some {
            Some(aspect is Deactivated)
        } else {
            None
        },
    }
}

/// Whether the lamp position `lamp` is installed on a signal with lamps
/// `s`.
pub open spec fn hv_main_present(s: HVMainLamps, lamp: HVMainLamp) -> bool {
    match lamp {
        HVMainLamp::Red1 => true,
        HVMainLamp::Green => true,
        HVMainLamp::Yellow => s.yellow is Some,
        HVMainLamp::Notice => s.notice is Some,
    }
}

/// The effect of one pin operation on the lamp states; an operation on a
/// lamp that is not installed changes nothing.
pub open spec fn hv_main_apply(s: HVMainLamps, op: LampOp<HVMainLamp>) -> HVMainLamps {
    match op.lamp {
        HVMainLamp::Red1 => HVMainLamps { red: op.on, ..s },
        HVMainLamp::Green => HVMainLamps { green: op.on, ..s },
        HVMainLamp::Yellow => if s.yellow is Some {
            HVMainLamps { yellow: Some(op.on), ..s }
        } else {
            s
        },
        HVMainLamp::Notice => if s.notice is Some {
            HVMainLamps { notice: Some(op.on), ..s }
        } else {
            s
        },
    }
}

/// The planned, fail-safe order of pin operations for switching a main
/// signal with lamps `s` to `aspect`: the new aspect's lamps come on before
/// the old aspect's lamps go out; entering an aspect, the restrictive
/// yellow lamp comes on before the permissive green one, and leaving one,
/// the permissive green lamp goes out before the restrictive yellow one.
/// Operations on absent lamps are omitted.
pub open spec fn hv_main_plan(s: HVMainLamps, aspect: HVMainSignalAspect) -> Seq<
    LampOp<HVMainLamp>,
> {
    let yellow_off: Seq<LampOp<HVMainLamp>> = if s.yellow is Some {
        seq![lamp_op(HVMainLamp::Yellow, false)]
    } else {
        Seq::empty()
    };
    let notice_off: Seq<LampOp<HVMainLamp>> = if s.notice is Some {
        seq![lamp_op(HVMainLamp::Notice, false)]
    } else {
        Seq::empty()
    };
    match aspect {
        HVMainSignalAspect::Stop => seq![
            lamp_op(HVMainLamp::Red1, true),
            lamp_op(HVMainLamp::Green, false),
        ] + yellow_off + notice_off,
        HVMainSignalAspect::Proceed => seq![
            lamp_op(HVMainLamp::Green, true),
            lamp_op(HVMainLamp::Red1, false),
        ] + yellow_off + notice_off,
        HVMainSignalAspect::ProceedSlow => seq![
            lamp_op(HVMainLamp::Yellow, true),
            lamp_op(HVMainLamp::Green, true),
            lamp_op(HVMainLamp::Red1, false),
        ] + notice_off,
        HVMainSignalAspect::Deactivated => seq![
            lamp_op(HVMainLamp::Notice, true),
            lamp_op(HVMainLamp::Green, false),
        ] + yellow_off + seq![lamp_op(HVMainLamp::Red1, false)],
        HVMainSignalAspect::Dark => notice_off + seq![lamp_op(HVMainLamp::Green, false)]
            + yellow_off + seq![lamp_op(HVMainLamp::Red1, false)],
    }
}

/// An optical main signal in the H/V signalling system.
///
/// The type is generic over the lamp output used. The red and green lamps
/// are always installed; the yellow (slow) and notice lamps are optional
/// and fixed at construction time.
pub struct HVMainSignal<L: Lamp> {
    red_lamp_1: L,
    yellow_lamp: Option<L>,
    green_lamp: L,
    notice_lamp: Option<L>,
    trace: Ghost<Seq<LampOp<HVMainLamp>>>,
}

impl<L: Lamp> HVMainSignal<L> {
    /// The current lamp states.
    pub closed spec fn states(&self) -> HVMainLamps {
        HVMainLamps {
            red: self.red_lamp_1.lamp_on(),
            yellow: match self.yellow_lamp {
                Some(l) => Some(l.lamp_on()),
                None => None,
            },
            green: self.green_lamp.lamp_on(),
            notice: match self.notice_lamp {
                Some(l) => Some(l.lamp_on()),
                None => None,
            },
        }
    }

    /// Every pin operation this signal has performed, in order.
    pub closed spec fn pin_trace(&self) -> Seq<LampOp<HVMainLamp>> {
        self.trace@
    }

    /// Whether this signal can display `aspect`.
    pub open spec fn supports(&self, aspect: HVMainSignalAspect) -> bool {
        hv_main_supports(self.states(), aspect)
    }

    /// Whether the yellow (slow) lamp is installed.
    pub open spec fn has_yellow(&self) -> bool {
        self.states().yellow is Some
    }

    /// Whether the notice lamp is installed.
    pub open spec fn has_notice(&self) -> bool {
        self.states().notice is Some
    }

    /// Whether every installed lamp output is reliable, that is, never
    /// reports a failure.
    pub closed spec fn lamps_reliable(&self) -> bool {
        &&& self.red_lamp_1.reliable()
        &&& self.green_lamp.reliable()
        &&& match self.yellow_lamp {
            Some(l) => l.reliable(),
            None => true,
        }
        &&& match self.notice_lamp {
            Some(l) => l.reliable(),
            None => true,
        }
    }

    /// Creates a main signal with the two mandatory lamps.
    pub fn new(red_lamp: L, green_lamp: L) -> (s: Self)
        ensures
            s.states() == (HVMainLamps {
                red: red_lamp.lamp_on(),
                yellow: None,
                green: green_lamp.lamp_on(),
                notice: None,
            }),
            s.pin_trace() == Seq::<LampOp<HVMainLamp>>::empty(),
            s.lamps_reliable() == (red_lamp.reliable() && green_lamp.reliable()),
    {
        Self {
            red_lamp_1: red_lamp,
            yellow_lamp: None,
            green_lamp,
            notice_lamp: None,
            trace: Ghost(Seq::empty()),
        }
    }

    /// Adds a yellow lamp to this main signal.
    pub fn with_yellow_lamp(self, yellow_lamp: L) -> (s: Self)
        ensures
            s.states() == (HVMainLamps { yellow: Some(yellow_lamp.lamp_on()), ..self.states() }),
            s.pin_trace() == self.pin_trace(),
            self.lamps_reliable() && yellow_lamp.reliable() ==> s.lamps_reliable(),
    {
        Self { yellow_lamp: Some(yellow_lamp), ..self }
    }

    /// Adds a notice lamp to this main signal.
    pub fn with_notice_lamp(self, notice_lamp: L) -> (s: Self)
        ensures
            s.states() == (HVMainLamps { notice: Some(notice_lamp.lamp_on()), ..self.states() }),
            s.pin_trace() == self.pin_trace(),
            self.lamps_reliable() && notice_lamp.reliable() ==> s.lamps_reliable(),
    {
        Self { notice_lamp: Some(notice_lamp), ..self }
    }

    /// Returns whether this signal supports the given aspect, since some
    /// aspects require optional lamps.
    pub fn supports_aspect(&self, aspect: HVMainSignalAspect) -> (r: bool)
        ensures
            r == self.supports(aspect),
    {
        match aspect {
            HVMainSignalAspect::Stop => true,
            HVMainSignalAspect::Dark => true,
            HVMainSignalAspect::Proceed => true,
            HVMainSignalAspect::ProceedSlow => self.yellow_lamp.is_some(),
            HVMainSignalAspect::Deactivated => self.notice_lamp.is_some(),
        }
    }

    /// Reads back the current lamp states.
    pub fn lamp_states(&self) -> (r: HVMainLamps)
        ensures
            r == self.states(),
    {
        HVMainLamps {
            red: self.red_lamp_1.is_on(),
            yellow: match &self.yellow_lamp {
                Some(l) => Some(l.is_on()),
                None => None,
            },
            green: self.green_lamp.is_on(),
            notice: match &self.notice_lamp {
                Some(l) => Some(l.is_on()),
                None => None,
            },
        }
    }

    /// Performs one pin operation and records it in the trace. An operation
    /// on an absent lamp does nothing.
    fn apply(&mut self, which: HVMainLamp, on: bool) -> (r: Result<(), LampFault>)
        ensures
            final(self).has_yellow() == old(self).has_yellow(),
            final(self).has_notice() == old(self).has_notice(),
            final(self).lamps_reliable() == old(self).lamps_reliable(),
            old(self).lamps_reliable() ==> r is Ok,
            r is Ok ==> final(self).states() == hv_main_apply(
                old(self).states(),
                lamp_op(which, on),
            ),
            r is Ok ==> final(self).pin_trace() == old(self).pin_trace() + (if hv_main_present(
                old(self).states(),
                which,
            ) {
                seq![lamp_op(which, on)]
            } else {
                Seq::<LampOp<HVMainLamp>>::empty()
            }),
            r is Err ==> final(self).pin_trace() == old(self).pin_trace(),
    {
        match which {
            HVMainLamp::Red1 => {
                self.red_lamp_1.set_on(on)?;
            },
            HVMainLamp::Green => {
                self.green_lamp.set_on(on)?;
            },
            HVMainLamp::Yellow => {
                match &mut self.yellow_lamp {
                    Some(l) => {
                        l.set_on(on)?;
                    },
                    None => {
                        proof {
                            assert(self.pin_trace() + Seq::<LampOp<HVMainLamp>>::empty()
                                =~= self.pin_trace());
                        }
                        return Ok(());
                    },
                }
            },
            HVMainLamp::Notice => {
                match &mut self.notice_lamp {
                    Some(l) => {
                        l.set_on(on)?;
                    },
                    None => {
                        proof {
                            assert(self.pin_trace() + Seq::<LampOp<HVMainLamp>>::empty()
                                =~= self.pin_trace());
                        }
                        return Ok(());
                    },
                }
            },
        }
        self.trace = Ghost(self.trace@.push(lamp_op(which, on)));
        proof {
            assert(old(self).pin_trace().push(lamp_op(which, on)) =~= old(self).pin_trace()
                + seq![lamp_op(which, on)]);
        }
        Ok(())
    }

    /// Switches this signal to the given aspect, performing the pin
    /// operations of [`hv_main_plan`] one by one in their planned order.
    ///
    /// Callers must check [`Self::supports_aspect`] first: commanding an
    /// aspect the hardware cannot show is a logic fault, not a recoverable
    /// error. The first lamp failure is returned as a fault and stops the
    /// transition at once — the operations performed are then a prefix of
    /// the plan and no further lamp is written; there is no safe partial
    /// state to resume from. Over reliable lamps the switch always
    /// succeeds.
    pub fn switch_to_aspect(&mut self, aspect: HVMainSignalAspect) -> (r: Result<(), LampFault>)
        requires
            old(self).supports(aspect),
        ensures
            final(self).has_yellow() == old(self).has_yellow(),
            final(self).has_notice() == old(self).has_notice(),
            final(self).lamps_reliable() == old(self).lamps_reliable(),
            old(self).lamps_reliable() ==> r is Ok,
            r is Ok ==> final(self).states() == hv_main_target(old(self).states(), aspect),
            r is Ok ==> final(self).pin_trace() == old(self).pin_trace() + hv_main_plan(
                old(self).states(),
                aspect,
            ),
            r is Err ==> trace_extended_by_prefix(
                old(self).pin_trace(),
                final(self).pin_trace(),
                hv_main_plan(old(self).states(), aspect),
            ),
    {
        let ghost plan = hv_main_plan(old(self).states(), aspect);
        let start = self.lamp_states();
        let ops = hv_main_transition_ops(&start, aspect);
        proof {
            assert(old(self).pin_trace() + plan.take(0) =~= old(self).pin_trace());
        }
        let mut i: usize = 0;
        while i < ops.len()
            invariant
                i <= ops@.len(),
                ops@ == plan,
                plan == hv_main_plan(old(self).states(), aspect),
                old(self).supports(aspect),
                forall|j: int| 0 <= j < plan.len() ==> hv_main_present(
                    old(self).states(),
                    plan[j].lamp,
                ),
                self.has_yellow() == old(self).has_yellow(),
                self.has_notice() == old(self).has_notice(),
                self.lamps_reliable() == old(self).lamps_reliable(),
                self.states() == hv_main_apply_all(old(self).states(), plan.take(i as int)),
                self.pin_trace() == old(self).pin_trace() + plan.take(i as int),
            decreases ops@.len() - i,
        {
            let op = ops[i];
            proof {
                lemma_hv_main_apply_all_take_step(old(self).states(), plan, i as int);
            }
            match self.apply(op.lamp, op.on) {
                Ok(()) => {},
                Err(e) => {
                    proof {
                        assert(self.pin_trace() == old(self).pin_trace() + plan.take(i as int));
                        assert(trace_extended_by_prefix(
                            old(self).pin_trace(),
                            self.pin_trace(),
                            plan,
                        ));
                    }
                    return Err(e);
                },
            }
            proof {
                assert((old(self).pin_trace() + plan.take(i as int)) + seq![plan[i as int]]
                    =~= old(self).pin_trace() + plan.take(i + 1));
            }
            i += 1;
        }
        proof {
            assert(plan.take(plan.len() as int) =~= plan);
            lemma_plan_reaches_target(old(self).states(), aspect);
        }
        Ok(())
    }
}

/// Law: entering the slow-proceed aspect, the slow (yellow) lamp is
/// commanded on strictly before the proceed (green) lamp, so no observer
/// ever sees a transient unrestricted proceed indication.
pub proof fn lemma_proceed_slow_sets_slow_lamp_first(s: HVMainLamps)
    ensures
        hv_main_plan(s, HVMainSignalAspect::ProceedSlow)[0] == lamp_op(HVMainLamp::Yellow, true),
        hv_main_plan(s, HVMainSignalAspect::ProceedSlow)[1] == lamp_op(HVMainLamp::Green, true),
        forall|k: int|
            0 <= k < hv_main_plan(s, HVMainSignalAspect::ProceedSlow).len() && hv_main_plan(
                s,
                HVMainSignalAspect::ProceedSlow,
            )[k] == lamp_op(HVMainLamp::Green, true) ==> k == 1,
{
}

/// Law: entering Stop, the stop (red) lamp is commanded on strictly before
/// the proceed (green) lamp is cleared, so the signal never goes blank on
/// the way to Stop.
pub proof fn lemma_stop_sets_red_before_clearing_green(s: HVMainLamps)
    ensures
        hv_main_plan(s, HVMainSignalAspect::Stop)[0] == lamp_op(HVMainLamp::Red1, true),
        hv_main_plan(s, HVMainSignalAspect::Stop)[1] == lamp_op(HVMainLamp::Green, false),
{
}

/// Law: switching is idempotent — the lamp set an aspect settles on does
/// not depend on the lamp states it started from, so applying the same
/// aspect twice leaves the very same lamp set.
pub proof fn lemma_switch_idempotent(s: HVMainLamps, aspect: HVMainSignalAspect)
    ensures
        hv_main_target(hv_main_target(s, aspect), aspect) == hv_main_target(s, aspect),
{
}

/// Law: an aspect whose required lamp is absent from the lamp set is not
/// supported — the slow aspect needs the yellow lamp, deactivation needs
/// the notice lamp, on the main and announcement signal alike.
pub proof fn lemma_missing_lamp_unsupported(s: HVMainLamps, a: HVAnnouncementLamps)
    ensures
        s.yellow is None ==> !hv_main_supports(s, HVMainSignalAspect::ProceedSlow),
        s.notice is None ==> !hv_main_supports(s, HVMainSignalAspect::Deactivated),
        a.notice is None ==> !hv_announcement_supports(a, HVAnnouncementSignalAspect::Deactivated),
{
}

/// The effect of a sequence of pin operations, applied oldest first.
pub open spec fn hv_main_apply_all(s: HVMainLamps, ops: Seq<LampOp<HVMainLamp>>) -> HVMainLamps
    decreases ops.len(),
{
    if ops.len() == 0 {
        s
    } else {
        hv_main_apply_all(hv_main_apply(s, ops[0]), ops.skip(1))
    }
}

/// Law: the planned operations, applied in their planned order, produce
/// exactly the target lamp set of the aspect.
pub proof fn lemma_plan_reaches_target(s: HVMainLamps, aspect: HVMainSignalAspect)
    requires
        hv_main_supports(s, aspect),
    ensures
        hv_main_apply_all(s, hv_main_plan(s, aspect)) == hv_main_target(s, aspect),
{
    reveal_with_fuel(hv_main_apply_all, 6);
    let p = hv_main_plan(s, aspect);
    assert forall|k: int| 0 <= k < p.len() implies p.skip(k)[0] == p[k] by {}
    assert(hv_main_apply_all(s, p) == hv_main_target(s, aspect));
}

/// A lamp combination that reads as an unrestricted proceed: the green lamp
/// lit without the yellow slow-indicator beside it.
pub open spec fn hv_main_shows_unrestricted_proceed(s: HVMainLamps) -> bool {
    s.green && s.yellow != Some(true)
}

/// Law (fail-safe transition): switching to any aspect, no intermediate
/// lamp combination shows an unrestricted proceed unless the transition
/// begins or ends in one — the permissive green lamp goes out before the
/// restrictive yellow one, so an observer mid-transition may see an
/// unclear or more restrictive combination, never a spurious clear run.
pub proof fn lemma_no_transient_unrestricted_proceed(
    s: HVMainLamps,
    aspect: HVMainSignalAspect,
    k: int,
)
    requires
        hv_main_supports(s, aspect),
        0 <= k <= hv_main_plan(s, aspect).len(),
    ensures
        hv_main_shows_unrestricted_proceed(
            hv_main_apply_all(s, hv_main_plan(s, aspect).take(k)),
        ) ==> hv_main_shows_unrestricted_proceed(s) || hv_main_shows_unrestricted_proceed(
            hv_main_target(s, aspect),
        ),
{
    reveal_with_fuel(hv_main_apply_all, 6);
    let p = hv_main_plan(s, aspect);
    let q = p.take(k);
    assert forall|j: int| 0 <= j < k implies q.skip(j)[0] == p[j] by {}
    assert(hv_main_shows_unrestricted_proceed(hv_main_apply_all(s, q))
        ==> hv_main_shows_unrestricted_proceed(s) || hv_main_shows_unrestricted_proceed(
        hv_main_target(s, aspect),
    ));
}

/// The pin operations a main signal with lamps `s` performs to reach
/// `aspect`, in the order they are performed; see [`hv_main_plan`]. For a
/// supported aspect, every planned operation drives an installed lamp.
pub fn hv_main_transition_ops(s: &HVMainLamps, aspect: HVMainSignalAspect) -> (v: Vec<
    LampOp<HVMainLamp>,
>)
    ensures
        v@ == hv_main_plan(*s, aspect),
        hv_main_supports(*s, aspect) ==> forall|j: int|
            0 <= j < v@.len() ==> hv_main_present(*s, v@[j].lamp),
{
    let mut v: Vec<LampOp<HVMainLamp>> = Vec::new();
    match aspect {
        HVMainSignalAspect::Stop => {
            v.push(LampOp { lamp: HVMainLamp::Red1, on: true });
            v.push(LampOp { lamp: HVMainLamp::Green, on: false });
            if s.yellow.is_some() {
                v.push(LampOp { lamp: HVMainLamp::Yellow, on: false });
            }
            if s.notice.is_some() {
                v.push(LampOp { lamp: HVMainLamp::Notice, on: false });
            }
        },
        HVMainSignalAspect::Proceed => {
            v.push(LampOp { lamp: HVMainLamp::Green, on: true });
            v.push(LampOp { lamp: HVMainLamp::Red1, on: false });
            if s.yellow.is_some() {
                v.push(LampOp { lamp: HVMainLamp::Yellow, on: false });
            }
            if s.notice.is_some() {
                v.push(LampOp { lamp: HVMainLamp::Notice, on: false });
            }
        },
        HVMainSignalAspect::ProceedSlow => {
            v.push(LampOp { lamp: HVMainLamp::Yellow, on: true });
            v.push(LampOp { lamp: HVMainLamp::Green, on: true });
            v.push(LampOp { lamp: HVMainLamp::Red1, on: false });
            if s.notice.is_some() {
                v.push(LampOp { lamp: HVMainLamp::Notice, on: false });
            }
        },
        HVMainSignalAspect::Deactivated => {
            v.push(LampOp { lamp: HVMainLamp::Notice, on: true });
            v.push(LampOp { lamp: HVMainLamp::Green, on: false });
            if s.yellow.is_some() {
                v.push(LampOp { lamp: HVMainLamp::Yellow, on: false });
            }
            v.push(LampOp { lamp: HVMainLamp::Red1, on: false });
        },
        HVMainSignalAspect::Dark => {
            if s.notice.is_some() {
                v.push(LampOp { lamp: HVMainLamp::Notice, on: false });
            }
            v.push(LampOp { lamp: HVMainLamp::Green, on: false });
            if s.yellow.is_some() {
                v.push(LampOp { lamp: HVMainLamp::Yellow, on: false });
            }
            v.push(LampOp { lamp: HVMainLamp::Red1, on: false });
        },
    }
    proof {
        assert(v@ =~= hv_main_plan(*s, aspect));
    }
    v
}

/// One step of [`hv_main_apply_all`] over a growing prefix: applying one
/// more planned operation to the state the previous prefix reached.
pub proof fn lemma_hv_main_apply_all_take_step(
    s: HVMainLamps,
    p: Seq<LampOp<HVMainLamp>>,
    i: int,
)
    requires
        0 <= i < p.len(),
    ensures
        hv_main_apply_all(s, p.take(i + 1)) == hv_main_apply(
            hv_main_apply_all(s, p.take(i)),
            p[i],
        ),
    decreases i,
{
    reveal_with_fuel(hv_main_apply_all, 2);
    if i == 0 {
        assert(p.take(0) =~= Seq::<LampOp<HVMainLamp>>::empty());
        assert(p.take(1)[0] == p[0]);
        assert(p.take(1).skip(1) =~= Seq::<LampOp<HVMainLamp>>::empty());
    } else {
        let q = p.skip(1);
        assert(p.take(i + 1)[0] == p[0]);
        assert(p.take(i)[0] == p[0]);
        assert(p.take(i + 1).skip(1) =~= q.take(i));
        assert(p.take(i).skip(1) =~= q.take(i - 1));
        lemma_hv_main_apply_all_take_step(hv_main_apply(s, p[0]), q, i - 1);
        assert(q[i - 1] == p[i]);
    }
}

/// The lamp positions of an announcement signal.
#[derive(Clone, Copy, Debug, PartialEq, Eq, Structural)]
pub enum HVAnnouncementLamp {
    GreenUpper,
    GreenLower,
    YellowUpper,
    YellowLower,
    Notice,
}

/// The lamp states of an announcement signal. The four aspect lamps are
/// always installed; `None` marks an absent notice lamp.
#[derive(Clone, Copy, Debug, PartialEq, Eq)]
pub struct HVAnnouncementLamps {
    pub green_upper: bool,
    pub green_lower: bool,
    pub yellow_upper: bool,
    pub yellow_lower: bool,
    pub notice: Option<bool>,
}

/// Whether an announcement signal with lamps `s` can display `aspect`.
pub open spec fn hv_announcement_supports(
    s: HVAnnouncementLamps,
    aspect: HVAnnouncementSignalAspect,
) -> bool {
    match aspect {
        HVAnnouncementSignalAspect::Deactivated => s.notice is Some,
        _ => true,
    }
}

/// The lamp states an announcement signal shows once `aspect` is fully
/// applied. Outside the `Deactivated` and `Dark` aspects the notice lamp
/// reflects `repeater`: it is lit on a repeater signal or one at reduced
/// braking distance.
pub open spec fn hv_announcement_target(
    s: HVAnnouncementLamps,
    aspect: HVAnnouncementSignalAspect,
    repeater: bool,
) -> HVAnnouncementLamps {
    let notice = if s.notice is Some {
        Some(
            match aspect {
                HVAnnouncementSignalAspect::Deactivated => true,
                HVAnnouncementSignalAspect::Dark => false,
                _ => repeater,
            },
        )
    } else {
        None
    };
    match aspect {
        HVAnnouncementSignalAspect::ExpectStop => HVAnnouncementLamps {
            green_upper: false,
            green_lower: false,
            yellow_upper: true,
            yellow_lower: true,
            notice,
        },
        HVAnnouncementSignalAspect::ExpectProceed => HVAnnouncementLamps {
            green_upper: true,
            green_lower: true,
            yellow_upper: false,
            yellow_lower: false,
            notice,
        },
        HVAnnouncementSignalAspect::ExpectProceedSlow => HVAnnouncementLamps {
            green_upper: true,
            green_lower: false,
            yellow_upper: false,
            yellow_lower: true,
            notice,
        },
        HVAnnouncementSignalAspect::Deactivated => HVAnnouncementLamps {
            green_upper: false,
            green_lower: false,
            yellow_upper: false,
            yellow_lower: false,
            notice,
        },
        HVAnnouncementSignalAspect::Dark => HVAnnouncementLamps {
            green_upper: false,
            green_lower: false,
            yellow_upper: false,
            yellow_lower: false,
            notice,
        },
    }
}

/// The effect of one pin operation on announcement lamp states; an
/// operation on an absent notice lamp changes nothing.
pub open spec fn hv_announcement_apply(
    s: HVAnnouncementLamps,
    op: LampOp<HVAnnouncementLamp>,
) -> HVAnnouncementLamps {
    match op.lamp {
        HVAnnouncementLamp::GreenUpper => HVAnnouncementLamps { green_upper: op.on, ..s },
        HVAnnouncementLamp::GreenLower => HVAnnouncementLamps { green_lower: op.on, ..s },
        HVAnnouncementLamp::YellowUpper => HVAnnouncementLamps { yellow_upper: op.on, ..s },
        HVAnnouncementLamp::YellowLower => HVAnnouncementLamps { yellow_lower: op.on, ..s },
        HVAnnouncementLamp::Notice => if s.notice is Some {
            HVAnnouncementLamps { notice: Some(op.on), ..s }
        } else {
            s
        },
    }
}

/// Whether the lamp position `lamp` is installed on an announcement signal
/// with lamps `s`; only the notice lamp is optional.
pub open spec fn hv_announcement_present(s: HVAnnouncementLamps, lamp: HVAnnouncementLamp) -> bool {
    match lamp {
        HVAnnouncementLamp::Notice => s.notice is Some,
        _ => true,
    }
}

/// The effect of a sequence of pin operations, applied oldest first.
pub open spec fn hv_announcement_apply_all(
    s: HVAnnouncementLamps,
    ops: Seq<LampOp<HVAnnouncementLamp>>,
) -> HVAnnouncementLamps
    decreases ops.len(),
{
    if ops.len() == 0 {
        s
    } else {
        hv_announcement_apply_all(hv_announcement_apply(s, ops[0]), ops.skip(1))
    }
}

/// One step of [`hv_announcement_apply_all`] over a growing prefix.
pub proof fn lemma_hv_announcement_apply_all_take_step(
    s: HVAnnouncementLamps,
    p: Seq<LampOp<HVAnnouncementLamp>>,
    i: int,
)
    requires
        0 <= i < p.len(),
    ensures
        hv_announcement_apply_all(s, p.take(i + 1)) == hv_announcement_apply(
            hv_announcement_apply_all(s, p.take(i)),
            p[i],
        ),
    decreases i,
{
    reveal_with_fuel(hv_announcement_apply_all, 2);
    if i == 0 {
        assert(p.take(0) =~= Seq::<LampOp<HVAnnouncementLamp>>::empty());
        assert(p.take(1)[0] == p[0]);
        assert(p.take(1).skip(1) =~= Seq::<LampOp<HVAnnouncementLamp>>::empty());
    } else {
        let q = p.skip(1);
        assert(p.take(i + 1)[0] == p[0]);
        assert(p.take(i)[0] == p[0]);
        assert(p.take(i + 1).skip(1) =~= q.take(i));
        assert(p.take(i).skip(1) =~= q.take(i - 1));
        lemma_hv_announcement_apply_all_take_step(hv_announcement_apply(s, p[0]), q, i - 1);
        assert(q[i - 1] == p[i]);
    }
}

/// The planned order of pin operations for switching an announcement
/// signal: the notice lamp is first restored to its distance-dependent
/// state, then the new aspect's lamps come on before the old aspect's
/// lamps go out, the permissive green pair before the restrictive yellow
/// pair when clearing. Operations on an absent notice lamp are omitted.
pub open spec fn hv_announcement_plan(
    s: HVAnnouncementLamps,
    aspect: HVAnnouncementSignalAspect,
    repeater: bool,
) -> Seq<LampOp<HVAnnouncementLamp>> {
    let notice_distance: Seq<LampOp<HVAnnouncementLamp>> = if s.notice is Some {
        seq![lamp_op(HVAnnouncementLamp::Notice, repeater)]
    } else {
        Seq::empty()
    };
    let notice_on: Seq<LampOp<HVAnnouncementLamp>> = if s.notice is Some {
        seq![lamp_op(HVAnnouncementLamp::Notice, true)]
    } else {
        Seq::empty()
    };
    let notice_off: Seq<LampOp<HVAnnouncementLamp>> = if s.notice is Some {
        seq![lamp_op(HVAnnouncementLamp::Notice, false)]
    } else {
        Seq::empty()
    };
    notice_distance + match aspect {
        HVAnnouncementSignalAspect::ExpectStop => seq![
            lamp_op(HVAnnouncementLamp::YellowUpper, true),
            lamp_op(HVAnnouncementLamp::YellowLower, true),
            lamp_op(HVAnnouncementLamp::GreenLower, false),
            lamp_op(HVAnnouncementLamp::GreenUpper, false),
        ],
        HVAnnouncementSignalAspect::ExpectProceed => seq![
            lamp_op(HVAnnouncementLamp::GreenLower, true),
            lamp_op(HVAnnouncementLamp::GreenUpper, true),
            lamp_op(HVAnnouncementLamp::YellowUpper, false),
            lamp_op(HVAnnouncementLamp::YellowLower, false),
        ],
        HVAnnouncementSignalAspect::ExpectProceedSlow => seq![
            lamp_op(HVAnnouncementLamp::YellowLower, true),
            lamp_op(HVAnnouncementLamp::GreenUpper, true),
            lamp_op(HVAnnouncementLamp::YellowUpper, false),
            lamp_op(HVAnnouncementLamp::GreenLower, false),
        ],
        HVAnnouncementSignalAspect::Deactivated => notice_on + seq![
            lamp_op(HVAnnouncementLamp::GreenLower, false),
            lamp_op(HVAnnouncementLamp::GreenUpper, false),
            lamp_op(HVAnnouncementLamp::YellowUpper, false),
            lamp_op(HVAnnouncementLamp::YellowLower, false),
        ],
        HVAnnouncementSignalAspect::Dark => seq![
            lamp_op(HVAnnouncementLamp::GreenLower, false),
            lamp_op(HVAnnouncementLamp::GreenUpper, false),
            lamp_op(HVAnnouncementLamp::YellowUpper, false),
            lamp_op(HVAnnouncementLamp::YellowLower, false),
        ] + notice_off,
    }
}

/// An optical announcement signal in the H/V signalling system.
///
/// The type is generic over the lamp output used. The four aspect lamps
/// are always installed; the notice lamp is optional and fixed at
/// construction time.
pub struct HVAnnouncementSignal<L: Lamp> {
    green_lamp_upper: L,
    green_lamp_lower: L,
    yellow_lamp_upper: L,
    yellow_lamp_lower: L,
    notice_lamp: Option<L>,
    /// Whether this signal is a repeater signal or stands at reduced
    /// braking distance from the corresponding main signal.
    pub is_repeater_or_reduced_distance: bool,
    trace: Ghost<Seq<LampOp<HVAnnouncementLamp>>>,
}

impl<L: Lamp> HVAnnouncementSignal<L> {
    /// The current lamp states.
    pub closed spec fn states(&self) -> HVAnnouncementLamps {
        HVAnnouncementLamps {
            green_upper: self.green_lamp_upper.lamp_on(),
            green_lower: self.green_lamp_lower.lamp_on(),
            yellow_upper: self.yellow_lamp_upper.lamp_on(),
            yellow_lower: self.yellow_lamp_lower.lamp_on(),
            notice: match self.notice_lamp {
                Some(l) => Some(l.lamp_on()),
                None => None,
            },
        }
    }

    /// Every pin operation this signal has performed, in order.
    pub closed spec fn pin_trace(&self) -> Seq<LampOp<HVAnnouncementLamp>> {
        self.trace@
    }

    /// Whether this signal is a repeater signal or stands at reduced
    /// braking distance from the corresponding main signal.
    pub closed spec fn repeater(&self) -> bool {
        self.is_repeater_or_reduced_distance
    }

    /// Whether this signal can display `aspect`.
    pub open spec fn supports(&self, aspect: HVAnnouncementSignalAspect) -> bool {
        hv_announcement_supports(self.states(), aspect)
    }

    /// Whether the notice lamp is installed.
    pub open spec fn has_notice(&self) -> bool {
        self.states().notice is Some
    }

    /// Whether every installed lamp output is reliable, that is, never
    /// reports a failure.
    pub closed spec fn lamps_reliable(&self) -> bool {
        &&& self.green_lamp_upper.reliable()
        &&& self.green_lamp_lower.reliable()
        &&& self.yellow_lamp_upper.reliable()
        &&& self.yellow_lamp_lower.reliable()
        &&& match self.notice_lamp {
            Some(l) => l.reliable(),
            None => true,
        }
    }

    /// Creates an announcement signal with the four mandatory lamps.
    pub fn new(
        green_lamp_upper: L,
        green_lamp_lower: L,
        yellow_lamp_upper: L,
        yellow_lamp_lower: L,
    ) -> (s: Self)
        ensures
            s.states() == (HVAnnouncementLamps {
                green_upper: green_lamp_upper.lamp_on(),
                green_lower: green_lamp_lower.lamp_on(),
                yellow_upper: yellow_lamp_upper.lamp_on(),
                yellow_lower: yellow_lamp_lower.lamp_on(),
                notice: None,
            }),
            !s.repeater(),
            s.pin_trace() == Seq::<LampOp<HVAnnouncementLamp>>::empty(),
            s.lamps_reliable() == (green_lamp_upper.reliable() && green_lamp_lower.reliable()
                && yellow_lamp_upper.reliable() && yellow_lamp_lower.reliable()),
    {
        Self {
            green_lamp_upper,
            green_lamp_lower,
            yellow_lamp_upper,
            yellow_lamp_lower,
            notice_lamp: None,
            is_repeater_or_reduced_distance: false,
            trace: Ghost(Seq::empty()),
        }
    }

    /// Adds a notice lamp to this announcement signal.
    pub fn with_notice_lamp(self, notice_lamp: L) -> (s: Self)
        ensures
            s.states() == (HVAnnouncementLamps {
                notice: Some(notice_lamp.lamp_on()),
                ..self.states()
            }),
            s.repeater() == self.repeater(),
            s.pin_trace() == self.pin_trace(),
            self.lamps_reliable() && notice_lamp.reliable() ==> s.lamps_reliable(),
    {
        Self { notice_lamp: Some(notice_lamp), ..self }
    }

    /// Returns whether this signal supports the given aspect, since some
    /// aspects require optional lamps.
    pub fn supports_aspect(&self, aspect: HVAnnouncementSignalAspect) -> (r: bool)
        ensures
            r == self.supports(aspect),
    {
        match aspect {
            HVAnnouncementSignalAspect::Deactivated => self.notice_lamp.is_some(),
            _ => true,
        }
    }

    /// Reads back the current lamp states.
    pub fn lamp_states(&self) -> (r: HVAnnouncementLamps)
        ensures
            r == self.states(),
    {
        HVAnnouncementLamps {
            green_upper: self.green_lamp_upper.is_on(),
            green_lower: self.green_lamp_lower.is_on(),
            yellow_upper: self.yellow_lamp_upper.is_on(),
            yellow_lower: self.yellow_lamp_lower.is_on(),
            notice: match &self.notice_lamp {
                Some(l) => Some(l.is_on()),
                None => None,
            },
        }
    }

    /// The resting state of the notice lamp: lit on a repeater signal or
    /// one at reduced braking distance, out otherwise.
    fn notice_lamp_for_distance(&self) -> (r: bool)
        ensures
            r == self.repeater(),
    {
        self.is_repeater_or_reduced_distance
    }

    /// Performs one pin operation and records it in the trace. An operation
    /// on an absent notice lamp does nothing.
    fn apply(&mut self, which: HVAnnouncementLamp, on: bool) -> (r: Result<(), LampFault>)
        ensures
            final(self).has_notice() == old(self).has_notice(),
            final(self).repeater() == old(self).repeater(),
            final(self).lamps_reliable() == old(self).lamps_reliable(),
            old(self).lamps_reliable() ==> r is Ok,
            r is Ok ==> final(self).states() == hv_announcement_apply(
                old(self).states(),
                lamp_op(which, on),
            ),
            r is Ok ==> final(self).pin_trace() == old(self).pin_trace()
                + (if hv_announcement_present(old(self).states(), which) {
                seq![lamp_op(which, on)]
            } else {
                Seq::<LampOp<HVAnnouncementLamp>>::empty()
            }),
            r is Err ==> final(self).pin_trace() == old(self).pin_trace(),
    {
        match which {
            HVAnnouncementLamp::GreenUpper => {
                self.green_lamp_upper.set_on(on)?;
            },
            HVAnnouncementLamp::GreenLower => {
                self.green_lamp_lower.set_on(on)?;
            },
            HVAnnouncementLamp::YellowUpper => {
                self.yellow_lamp_upper.set_on(on)?;
            },
            HVAnnouncementLamp::YellowLower => {
                self.yellow_lamp_lower.set_on(on)?;
            },
            HVAnnouncementLamp::Notice => {
                match &mut self.notice_lamp {
                    Some(l) => {
                        l.set_on(on)?;
                    },
                    None => {
                        proof {
                            assert(self.pin_trace() + Seq::<LampOp<HVAnnouncementLamp>>::empty()
                                =~= self.pin_trace());
                        }
                        return Ok(());
                    },
                }
            },
        }
        self.trace = Ghost(self.trace@.push(lamp_op(which, on)));
        proof {
            assert(old(self).pin_trace().push(lamp_op(which, on)) =~= old(self).pin_trace()
                + seq![lamp_op(which, on)]);
        }
        Ok(())
    }

    /// Switches this signal to the given aspect, performing the pin
    /// operations of [`hv_announcement_plan`] one by one in their planned
    /// order.
    ///
    /// Callers must check [`Self::supports_aspect`] first: commanding an
    /// aspect the hardware cannot show is a logic fault, not a recoverable
    /// error. The first lamp failure is returned as a fault and stops the
    /// transition at once — the operations performed are then a prefix of
    /// the plan and no further lamp is written. Over reliable lamps the
    /// switch always succeeds.
    pub fn switch_to_aspect(&mut self, aspect: HVAnnouncementSignalAspect) -> (r: Result<
        (),
        LampFault,
    >)
        requires
            old(self).supports(aspect),
        ensures
            final(self).has_notice() == old(self).has_notice(),
            final(self).repeater() == old(self).repeater(),
            final(self).lamps_reliable() == old(self).lamps_reliable(),
            old(self).lamps_reliable() ==> r is Ok,
            r is Ok ==> final(self).states() == hv_announcement_target(
                old(self).states(),
                aspect,
                old(self).repeater(),
            ),
            r is Ok ==> final(self).pin_trace() == old(self).pin_trace() + hv_announcement_plan(
                old(self).states(),
                aspect,
                old(self).repeater(),
            ),
            r is Err ==> trace_extended_by_prefix(
                old(self).pin_trace(),
                final(self).pin_trace(),
                hv_announcement_plan(old(self).states(), aspect, old(self).repeater()),
            ),
    {
        let ghost plan = hv_announcement_plan(old(self).states(), aspect, old(self).repeater());
        let normal_notice_lamp_state = self.notice_lamp_for_distance();
        let start = self.lamp_states();
        let ops = hv_announcement_transition_ops(&start, aspect, normal_notice_lamp_state);
        proof {
            assert(old(self).pin_trace() + plan.take(0) =~= old(self).pin_trace());
        }
        let mut i: usize = 0;
        while i < ops.len()
            invariant
                i <= ops@.len(),
                ops@ == plan,
                plan == hv_announcement_plan(old(self).states(), aspect, old(self).repeater()),
                old(self).supports(aspect),
                forall|j: int| 0 <= j < plan.len() ==> hv_announcement_present(
                    old(self).states(),
                    plan[j].lamp,
                ),
                self.has_notice() == old(self).has_notice(),
                self.repeater() == old(self).repeater(),
                self.lamps_reliable() == old(self).lamps_reliable(),
                self.states() == hv_announcement_apply_all(old(self).states(), plan.take(i as int)),
                self.pin_trace() == old(self).pin_trace() + plan.take(i as int),
            decreases ops@.len() - i,
        {
            let op = ops[i];
            proof {
                lemma_hv_announcement_apply_all_take_step(old(self).states(), plan, i as int);
            }
            match self.apply(op.lamp, op.on) {
                Ok(()) => {},
                Err(e) => {
                    proof {
                        assert(self.pin_trace() == old(self).pin_trace() + plan.take(i as int));
                        assert(trace_extended_by_prefix(
                            old(self).pin_trace(),
                            self.pin_trace(),
                            plan,
                        ));
                    }
                    return Err(e);
                },
            }
            proof {
                assert((old(self).pin_trace() + plan.take(i as int)) + seq![plan[i as int]]
                    =~= old(self).pin_trace() + plan.take(i + 1));
            }
            i += 1;
        }
        proof {
            assert(plan.take(plan.len() as int) =~= plan);
            lemma_announcement_plan_reaches_target(
                old(self).states(),
                aspect,
                old(self).repeater(),
            );
        }
        Ok(())
    }
}

/// Law: the planned announcement operations, applied in their planned
/// order, produce exactly the target lamp set of the aspect.
pub proof fn lemma_announcement_plan_reaches_target(
    s: HVAnnouncementLamps,
    aspect: HVAnnouncementSignalAspect,
    repeater: bool,
)
    requires
        hv_announcement_supports(s, aspect),
    ensures
        hv_announcement_apply_all(s, hv_announcement_plan(s, aspect, repeater))
            == hv_announcement_target(s, aspect, repeater),
{
    reveal_with_fuel(hv_announcement_apply_all, 8);
    let p = hv_announcement_plan(s, aspect, repeater);
    assert forall|k: int| 0 <= k < p.len() implies p.skip(k)[0] == p[k] by {}
    assert(hv_announcement_apply_all(s, p) == hv_announcement_target(s, aspect, repeater));
}

/// The pin operations an announcement signal with lamps `s` performs to
/// reach `aspect`, in the order they are performed; see
/// [`hv_announcement_plan`]. Every planned operation drives an installed
/// lamp.
pub fn hv_announcement_transition_ops(
    s: &HVAnnouncementLamps,
    aspect: HVAnnouncementSignalAspect,
    repeater: bool,
) -> (v: Vec<LampOp<HVAnnouncementLamp>>)
    ensures
        v@ == hv_announcement_plan(*s, aspect, repeater),
        forall|j: int| 0 <= j < v@.len() ==> hv_announcement_present(*s, v@[j].lamp),
{
    let mut v: Vec<LampOp<HVAnnouncementLamp>> = Vec::new();
    if s.notice.is_some() {
        v.push(LampOp { lamp: HVAnnouncementLamp::Notice, on: repeater });
    }
    match aspect {
        HVAnnouncementSignalAspect::ExpectStop => {
            v.push(LampOp { lamp: HVAnnouncementLamp::YellowUpper, on: true });
            v.push(LampOp { lamp: HVAnnouncementLamp::YellowLower, on: true });
            v.push(LampOp { lamp: HVAnnouncementLamp::GreenLower, on: false });
            v.push(LampOp { lamp: HVAnnouncementLamp::GreenUpper, on: false });
        },
        HVAnnouncementSignalAspect::ExpectProceed => {
            v.push(LampOp { lamp: HVAnnouncementLamp::GreenLower, on: true });
            v.push(LampOp { lamp: HVAnnouncementLamp::GreenUpper, on: true });
            v.push(LampOp { lamp: HVAnnouncementLamp::YellowUpper, on: false });
            v.push(LampOp { lamp: HVAnnouncementLamp::YellowLower, on: false });
        },
        HVAnnouncementSignalAspect::ExpectProceedSlow => {
            v.push(LampOp { lamp: HVAnnouncementLamp::YellowLower, on: true });
            v.push(LampOp { lamp: HVAnnouncementLamp::GreenUpper, on: true });
            v.push(LampOp { lamp: HVAnnouncementLamp::YellowUpper, on: false });
            v.push(LampOp { lamp: HVAnnouncementLamp::GreenLower, on: false });
        },
        HVAnnouncementSignalAspect::Deactivated => {
            if s.notice.is_some() {
                v.push(LampOp { lamp: HVAnnouncementLamp::Notice, on: true });
            }
            v.push(LampOp { lamp: HVAnnouncementLamp::GreenLower, on: false });
            v.push(LampOp { lamp: HVAnnouncementLamp::GreenUpper, on: false });
            v.push(LampOp { lamp: HVAnnouncementLamp::YellowUpper, on: false });
            v.push(LampOp { lamp: HVAnnouncementLamp::YellowLower, on: false });
        },
        HVAnnouncementSignalAspect::Dark => {
            v.push(LampOp { lamp: HVAnnouncementLamp::GreenLower, on: false });
            v.push(LampOp { lamp: HVAnnouncementLamp::GreenUpper, on: false });
            v.push(LampOp { lamp: HVAnnouncementLamp::YellowUpper, on: false });
            v.push(LampOp { lamp: HVAnnouncementLamp::YellowLower, on: false });
            if s.notice.is_some() {
                v.push(LampOp { lamp: HVAnnouncementLamp::Notice, on: false });
            }
        },
    }
    proof {
        assert(v@ =~= hv_announcement_plan(*s, aspect, repeater));
    }
    v
}

/// A grouping of an announcement and a main signal in the H/V signalling
/// system, with an optional repeater notice lamp.
///
/// The group keeps two invariants. An aspect is supported only when both
/// the main signal and the derived announcement aspect are individually
/// supported. And on every switch the main signal is switched first, so
/// the announcement signal never announces a main aspect that is not yet
/// active.
pub struct HVSignalGroup<L: Lamp> {
    main_signal: HVMainSignal<L>,
    announcement_signal: HVAnnouncementSignal<L>,
    // A repeater signal's notice lamp. Other repeater wiring is connected
    // to the normal announcement lamps, since it is always identical.
    repeater_signal_notice_lamp: Option<L>,
}

impl<L: Lamp> HVSignalGroup<L> {
    /// The current lamp states of the main signal.
    pub closed spec fn main_states(&self) -> HVMainLamps {
        self.main_signal.states()
    }

    /// The current lamp states of the announcement signal.
    pub closed spec fn announcement_states(&self) -> HVAnnouncementLamps {
        self.announcement_signal.states()
    }

    /// Whether the announcement signal is marked as a repeater or as
    /// standing at reduced braking distance.
    pub closed spec fn reduced_distance(&self) -> bool {
        self.announcement_signal.repeater()
    }

    /// The state of the repeater notice lamp; `None` when no repeater
    /// signal is attached.
    pub closed spec fn repeater_notice(&self) -> Option<bool> {
        match self.repeater_signal_notice_lamp {
            Some(l) => Some(l.lamp_on()),
            None => None,
        }
    }

    /// Every pin operation the main signal has performed, in order.
    pub closed spec fn main_pin_trace(&self) -> Seq<LampOp<HVMainLamp>> {
        self.main_signal.pin_trace()
    }

    /// Every pin operation the announcement signal has performed, in
    /// order.
    pub closed spec fn announcement_pin_trace(&self) -> Seq<LampOp<HVAnnouncementLamp>> {
        self.announcement_signal.pin_trace()
    }

    /// Whether the whole group can display `aspect`: the main signal must
    /// support it and the announcement signal must support the derived
    /// announcement aspect.
    pub open spec fn supports(&self, aspect: HVMainSignalAspect) -> bool {
        hv_main_supports(self.main_states(), aspect) && hv_announcement_supports(
            self.announcement_states(),
            hv_announcement_of_main(aspect),
        )
    }

    /// Whether every installed lamp output of the group is reliable, that
    /// is, never reports a failure.
    pub closed spec fn lamps_reliable(&self) -> bool {
        &&& self.main_signal.lamps_reliable()
        &&& self.announcement_signal.lamps_reliable()
        &&& match self.repeater_signal_notice_lamp {
            Some(l) => l.reliable(),
            None => true,
        }
    }

    /// Creates a new signal group without a slow aspect.
    pub fn new(
        main_red_lamp: L,
        main_green_lamp: L,
        announcement_green_lamp_upper: L,
        announcement_green_lamp_lower: L,
        announcement_yellow_lamp_upper: L,
        announcement_yellow_lamp_lower: L,
    ) -> (s: Self)
        ensures
            s.main_states() == (HVMainLamps {
                red: main_red_lamp.lamp_on(),
                yellow: None,
                green: main_green_lamp.lamp_on(),
                notice: None,
            }),
            s.announcement_states() == (HVAnnouncementLamps {
                green_upper: announcement_green_lamp_upper.lamp_on(),
                green_lower: announcement_green_lamp_lower.lamp_on(),
                yellow_upper: announcement_yellow_lamp_upper.lamp_on(),
                yellow_lower: announcement_yellow_lamp_lower.lamp_on(),
                notice: None,
            }),
            !s.reduced_distance(),
            s.repeater_notice() is None,
            s.main_pin_trace() == Seq::<LampOp<HVMainLamp>>::empty(),
            s.announcement_pin_trace() == Seq::<LampOp<HVAnnouncementLamp>>::empty(),
            s.lamps_reliable() == (main_red_lamp.reliable() && main_green_lamp.reliable()
                && announcement_green_lamp_upper.reliable()
                && announcement_green_lamp_lower.reliable()
                && announcement_yellow_lamp_upper.reliable()
                && announcement_yellow_lamp_lower.reliable()),
    {
        Self {
            main_signal: HVMainSignal::new(main_red_lamp, main_green_lamp),
            announcement_signal: HVAnnouncementSignal::new(
                announcement_green_lamp_upper,
                announcement_green_lamp_lower,
                announcement_yellow_lamp_upper,
                announcement_yellow_lamp_lower,
            ),
            repeater_signal_notice_lamp: None,
        }
    }

    /// Adds the ability to signal a slow aspect on the main signal.
    pub fn with_slow_aspect(self, main_yellow_lamp: L) -> (s: Self)
        ensures
            s.main_states() == (HVMainLamps {
                yellow: Some(main_yellow_lamp.lamp_on()),
                ..self.main_states()
            }),
            s.announcement_states() == self.announcement_states(),
            s.reduced_distance() == self.reduced_distance(),
            s.repeater_notice() == self.repeater_notice(),
            s.main_pin_trace() == self.main_pin_trace(),
            s.announcement_pin_trace() == self.announcement_pin_trace(),
            self.lamps_reliable() && main_yellow_lamp.reliable() ==> s.lamps_reliable(),
    {
        Self {
            main_signal: self.main_signal.with_yellow_lamp(main_yellow_lamp),
            ..self
        }
    }

    /// Marks this signal group as having a reduced braking distance
    /// between announcement and main signal. If a notice lamp was already
    /// provided, it does not need to be provided a second time.
    pub fn with_reduced_distance(self, announcement_notice_lamp: Option<L>) -> (s: Self)
        ensures
            s.main_states() == self.main_states(),
            s.announcement_states() == (match announcement_notice_lamp {
                Some(l) => HVAnnouncementLamps {
                    notice: Some(l.lamp_on()),
                    ..self.announcement_states()
                },
                None => self.announcement_states(),
            }),
            s.reduced_distance(),
            s.repeater_notice() == self.repeater_notice(),
            s.main_pin_trace() == self.main_pin_trace(),
            s.announcement_pin_trace() == self.announcement_pin_trace(),
            self.lamps_reliable() && (match announcement_notice_lamp {
                Some(l) => l.reliable(),
                None => true,
            }) ==> s.lamps_reliable(),
    {
        let mut updated = self;
        match announcement_notice_lamp {
            Some(lamp) => {
                updated.announcement_signal = updated.announcement_signal.with_notice_lamp(lamp);
            },
            None => {},
        }
        updated.announcement_signal.is_repeater_or_reduced_distance = true;
        updated
    }

    /// Adds deactivation capability to the signals in the signal group.
    pub fn with_deactivation_capability(
        self,
        main_notice_lamp: L,
        announcement_notice_lamp: L,
    ) -> (s: Self)
        ensures
            s.main_states() == (HVMainLamps {
                notice: Some(main_notice_lamp.lamp_on()),
                ..self.main_states()
            }),
            s.announcement_states() == (HVAnnouncementLamps {
                notice: Some(announcement_notice_lamp.lamp_on()),
                ..self.announcement_states()
            }),
            s.reduced_distance() == self.reduced_distance(),
            s.repeater_notice() == self.repeater_notice(),
            s.main_pin_trace() == self.main_pin_trace(),
            s.announcement_pin_trace() == self.announcement_pin_trace(),
            self.lamps_reliable() && main_notice_lamp.reliable()
                && announcement_notice_lamp.reliable() ==> s.lamps_reliable(),
    {
        Self {
            main_signal: self.main_signal.with_notice_lamp(main_notice_lamp),
            announcement_signal: self.announcement_signal.with_notice_lamp(
                announcement_notice_lamp,
            ),
            ..self
        }
    }

    /// Adds a notice lamp for a repeater signal, which otherwise shares
    /// pins with the announcement signal.
    pub fn with_repeater_signal(self, repeater_notice_lamp: L) -> (s: Self)
        ensures
            s.main_states() == self.main_states(),
            s.announcement_states() == self.announcement_states(),
            s.reduced_distance() == self.reduced_distance(),
            s.repeater_notice() == Some(repeater_notice_lamp.lamp_on()),
            s.main_pin_trace() == self.main_pin_trace(),
            s.announcement_pin_trace() == self.announcement_pin_trace(),
            self.lamps_reliable() && repeater_notice_lamp.reliable() ==> s.lamps_reliable(),
    {
        Self { repeater_signal_notice_lamp: Some(repeater_notice_lamp), ..self }
    }

    /// Returns whether the whole group supports the given aspect.
    pub fn supports_aspect(&self, aspect: HVMainSignalAspect) -> (r: bool)
        ensures
            r == self.supports(aspect),
    {
        self.main_signal.supports_aspect(aspect) && self.announcement_signal.supports_aspect(
            HVAnnouncementSignalAspect::from(aspect),
        )
    }

    /// Reads back the current lamp states of the main signal.
    pub fn main_lamp_states(&self) -> (r: HVMainLamps)
        ensures
            r == self.main_states(),
    {
        self.main_signal.lamp_states()
    }

    /// Reads back the current lamp states of the announcement signal.
    pub fn announcement_lamp_states(&self) -> (r: HVAnnouncementLamps)
        ensures
            r == self.announcement_states(),
    {
        self.announcement_signal.lamp_states()
    }

    /// Reads back the state of the repeater notice lamp, when present.
    pub fn repeater_lamp_state(&self) -> (r: Option<bool>)
        ensures
            r == self.repeater_notice(),
    {
        match &self.repeater_signal_notice_lamp {
            Some(l) => Some(l.is_on()),
            None => None,
        }
    }

    /// Switches the whole group to the given main aspect: first the main
    /// signal, then the derived aspect on the announcement signal, then the
    /// repeater notice lamp, which is lit whenever the group is not dark.
    ///
    /// The order enforces the cross-signal invariant: the announcement
    /// signal never announces a main aspect that is not yet active.
    /// Callers must check [`Self::supports_aspect`] first.
    pub fn switch_to_aspect(&mut self, aspect: HVMainSignalAspect) -> (r: Result<(), LampFault>)
        requires
            old(self).supports(aspect),
        ensures
            final(self).reduced_distance() == old(self).reduced_distance(),
            final(self).repeater_notice() is Some <==> old(self).repeater_notice() is Some,
            final(self).main_states().yellow is Some <==> old(self).main_states().yellow is Some,
            final(self).main_states().notice is Some <==> old(self).main_states().notice is Some,
            final(self).announcement_states().notice is Some <==> old(
                self,
            ).announcement_states().notice is Some,
            r is Ok ==> final(self).main_states() == hv_main_target(
                old(self).main_states(),
                aspect,
            ),
            r is Ok ==> final(self).announcement_states() == hv_announcement_target(
                old(self).announcement_states(),
                hv_announcement_of_main(aspect),
                old(self).reduced_distance(),
            ),
            r is Ok ==> final(self).repeater_notice() == (match old(self).repeater_notice() {
                Some(_) => Some(!(aspect is Dark)),
                None => None::<bool>,
            }),
            r is Ok ==> final(self).main_pin_trace() == old(self).main_pin_trace()
                + hv_main_plan(old(self).main_states(), aspect),
            r is Ok ==> final(self).announcement_pin_trace() == old(self).announcement_pin_trace()
                + hv_announcement_plan(
                old(self).announcement_states(),
                hv_announcement_of_main(aspect),
                old(self).reduced_distance(),
            ),
            // On a fault each signal still stops on a prefix of its plan.
            r is Err ==> trace_extended_by_prefix(
                old(self).main_pin_trace(),
                final(self).main_pin_trace(),
                hv_main_plan(old(self).main_states(), aspect),
            ),
            r is Err ==> trace_extended_by_prefix(
                old(self).announcement_pin_trace(),
                final(self).announcement_pin_trace(),
                hv_announcement_plan(
                    old(self).announcement_states(),
                    hv_announcement_of_main(aspect),
                    old(self).reduced_distance(),
                ),
            ),
            // Staging: the announcement signal is touched only once the
            // main signal has completed its whole plan, and the repeater
            // lamp only once the announcement has completed its whole
            // plan — the announcement never gets ahead of the main signal,
            // even on a fault.
            final(self).main_pin_trace() != old(self).main_pin_trace() + hv_main_plan(
                old(self).main_states(),
                aspect,
            ) ==> final(self).announcement_pin_trace() == old(self).announcement_pin_trace()
                && final(self).announcement_states() == old(self).announcement_states()
                && final(self).repeater_notice() == old(self).repeater_notice(),
            final(self).announcement_pin_trace() != old(self).announcement_pin_trace()
                + hv_announcement_plan(
                old(self).announcement_states(),
                hv_announcement_of_main(aspect),
                old(self).reduced_distance(),
            ) ==> final(self).repeater_notice() == old(self).repeater_notice(),
            // Over reliable lamps the whole transition succeeds.
            final(self).lamps_reliable() == old(self).lamps_reliable(),
            old(self).lamps_reliable() ==> r is Ok,
    {
        let ghost main_plan = hv_main_plan(old(self).main_states(), aspect);
        let ghost announcement_plan = hv_announcement_plan(
            old(self).announcement_states(),
            hv_announcement_of_main(aspect),
            old(self).reduced_distance(),
        );
        match self.main_signal.switch_to_aspect(aspect) {
            Ok(()) => {},
            Err(e) => {
                proof {
                    lemma_unchanged_trace_is_prefix(
                        old(self).announcement_pin_trace(),
                        announcement_plan,
                    );
                }
                return Err(e);
            },
        }
        match self.announcement_signal.switch_to_aspect(HVAnnouncementSignalAspect::from(aspect)) {
            Ok(()) => {},
            Err(e) => {
                proof {
                    lemma_whole_plan_is_prefix(old(self).main_pin_trace(), main_plan);
                }
                return Err(e);
            },
        }
        match &mut self.repeater_signal_notice_lamp {
            Some(l) => {
                if let Err(e) = l.set_on(aspect != HVMainSignalAspect::Dark) {
                    proof {
                        lemma_whole_plan_is_prefix(old(self).main_pin_trace(), main_plan);
                        lemma_whole_plan_is_prefix(
                            old(self).announcement_pin_trace(),
                            announcement_plan,
                        );
                    }
                    return Err(e);
                }
            },
            None => {},
        }
        Ok(())
    }
}


} // verus!
