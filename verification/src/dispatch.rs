//! Command dispatch: what the foreground loop must do with one received
//! line, and which aspect to restore at boot.
//!
//! Dispatch itself changes no state. It classifies the line, checks the
//! requested aspect against the signal group's lamp capabilities, and hands
//! the caller an outcome that spells out the required actions and their
//! order: persist the wire identifier first, then switch the lamps, then
//! send the acknowledgement.

use vstd::prelude::*;

use crate::commands::CommandError;
use crate::commands::LineOutcome;
use crate::commands::get_next_command;
use crate::commands::parse_line;
use crate::commands::push_str_bytes;
use crate::commands::str_bytes;
use crate::lamps::Lamp;
use crate::signal_id_bytes;
use crate::signal_id_vec;
use crate::signals::HVMainSignalAspect;
use crate::signals::HVSignalGroup;
use crate::signals::hv_main_aspect_for_code;
use crate::signals::hv_main_aspect_of_command;
use crate::signals::hv_main_code_byte;

verus! {

/// The acknowledgement line sent after an aspect was applied.
pub open spec fn ack_line(aspect: HVMainSignalAspect) -> Seq<u8> {
    signal_id_bytes() + str_bytes(":A:") + seq![hv_main_code_byte(aspect)] + str_bytes("\n")
}

/// The response to a well-formed command whose aspect this device's lamps
/// cannot display.
pub open spec fn capability_error_line() -> Seq<u8> {
    signal_id_bytes() + str_bytes(":E:1\n")
}

/// What the foreground loop must do with one received line.
pub enum CommandOutcome {
    /// Send nothing and change nothing.
    Ignore,
    /// Send the report line back; device state is unchanged.
    Reply(Vec<u8>),
    /// The command parsed, but this device's lamps cannot display the
    /// aspect: send the capability-error line back; device state is
    /// unchanged.
    Unsupported(Vec<u8>),
    /// Persist `persist` at the fixed non-volatile address, then switch
    /// the group to `aspect`, then send `ack` back — in that order, so a
    /// crash between persisting and switching merely re-applies the same
    /// aspect at the next boot.
    Apply { aspect: HVMainSignalAspect, persist: u8, ack: Vec<u8> },
}

/// Builds the acknowledgement line for an applied aspect.
fn ack_vec(aspect: HVMainSignalAspect) -> (v: Vec<u8>)
    ensures
        v@ == ack_line(aspect),
{
    let mut v = signal_id_vec();
    push_str_bytes(&mut v, ":A:");
    v.push(aspect.command_byte());
    push_str_bytes(&mut v, "\n");
    proof {
        assert(v@ =~= ack_line(aspect));
    }
    v
}

/// Builds the capability-error line.
fn capability_error_vec() -> (v: Vec<u8>)
    ensures
        v@ == capability_error_line(),
{
    let mut v = signal_id_vec();
    push_str_bytes(&mut v, ":E:1\n");
    v
}

/// Decides what one received line requires, without performing any of it.
///
/// The returned outcome follows [`parse_line`] exactly; a command is
/// applied only when the whole group supports the requested aspect, and
/// the persisted byte is the aspect's wire identifier.
pub fn dispatch_command<L: Lamp>(group: &HVSignalGroup<L>, line: &[u8]) -> (r: CommandOutcome)
    ensures
        ({
            let out = parse_line(line@);
            match r {
                CommandOutcome::Ignore => out is Ignored,
                CommandOutcome::Reply(m) => out == LineOutcome::Rejected(m@),
                CommandOutcome::Unsupported(m) => {
                    &&& m@ == capability_error_line()
                    &&& out matches LineOutcome::Command(cmd) && !group.supports(
                        hv_main_aspect_of_command(cmd),
                    )
                },
                CommandOutcome::Apply { aspect, persist, ack } => {
                    &&& out matches LineOutcome::Command(cmd) && aspect
                        == hv_main_aspect_of_command(cmd)
                    &&& group.supports(aspect)
                    &&& persist == hv_main_code_byte(aspect)
                    &&& ack@ == ack_line(aspect)
                },
            }
        }),
{
    match get_next_command(line) {
        Err(CommandError(None)) => CommandOutcome::Ignore,
        Err(CommandError(Some(message))) => CommandOutcome::Reply(message),
        Ok(command) => {
            let aspect = HVMainSignalAspect::from(command);
            if !group.supports_aspect(aspect) {
                CommandOutcome::Unsupported(capability_error_vec())
            } else {
                CommandOutcome::Apply {
                    aspect,
                    persist: aspect.command_byte(),
                    ack: ack_vec(aspect),
                }
            }
        },
    }
}

/// Decides which aspect to restore at boot from the persisted byte.
///
/// The saved byte wins only when it is a recognized wire identifier of an
/// aspect the group currently supports; anything else leaves the device at
/// the safe boot aspect.
pub fn restore_aspect<L: Lamp>(group: &HVSignalGroup<L>, saved: u8) -> (r: Option<
    HVMainSignalAspect,
>)
    ensures
        ({
            let parsed = hv_main_aspect_for_code(seq![saved]);
            match r {
                Some(aspect) => parsed == Some(aspect) && group.supports(aspect),
                None => match parsed {
                    Some(aspect) => !group.supports(aspect),
                    None => true,
                },
            }
        }),
{
    let mut saved_bytes: Vec<u8> = Vec::new();
    saved_bytes.push(saved);
    proof {
        assert(saved_bytes@ =~= seq![saved]);
    }
    match HVMainSignalAspect::from_command_id(saved_bytes.as_slice()) {
        Some(aspect) => {
            if group.supports_aspect(aspect) {
                Some(aspect)
            } else {
                None
            }
        },
        None => None,
    }
}

} // verus!
