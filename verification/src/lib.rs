//! Control logic for a trackside railway light signal.
//!
//! The library covers three coupled subsystems: the line-oriented command
//! protocol (parsing one textual line into an aspect change or a classified
//! error), the serial line assembler (turning an asynchronous byte stream
//! into discrete newline-terminated lines under fixed memory bounds), and
//! the signal state machines that map abstract aspects onto lamp sets with
//! a fail-safe switching order.

pub mod assembler;
pub mod commands;
pub mod dispatch;
pub mod ks;
pub mod lamps;
pub mod scan;
pub mod signals;

use vstd::prelude::*;

verus! {

/// The wire identifier of this device. A command line is acted on only when
/// its leading section equals this identifier, byte for byte.
pub open spec fn signal_id_bytes() -> Seq<u8> {
    seq!['F' as u8]
}

/// Returns the device identifier as bytes, for building response lines.
pub fn signal_id_vec() -> (v: Vec<u8>)
    ensures
        v@ == signal_id_bytes(),
{
    let mut v: Vec<u8> = Vec::new();
    v.push('F' as u8);
    proof {
        assert(v@ =~= signal_id_bytes());
    }
    v
}

} // verus!
