//! The line-oriented command protocol.
//!
//! One newline-terminated line carries one command: `<ID>:<CODE>`, where
//! `<ID>` must equal this device's identifier and `<CODE>` selects an
//! aspect. Everything from the first `#` on is a comment; surrounding ASCII
//! whitespace (including the line terminator) is ignored. A line addressed
//! to another identifier, or an empty or comment-only line, is silently
//! ignored; a malformed line addressed to this device is answered with a
//! report line ready to be sent back to the command sender.

use vstd::prelude::*;
use vstd::string::StringSliceAdditionalSpecFns;

use crate::scan::find_byte_in;
use crate::scan::is_ascii_ws;
use crate::scan::is_ascii_ws_byte;
use crate::scan::lemma_first_index;
use crate::scan::lemma_no_index;
use crate::signal_id_bytes;
use crate::signal_id_vec;

verus! {

/// The comment introducer.
pub const HASH: u8 = '#' as u8;

/// The section separator.
pub const COLON: u8 = ':' as u8;

/// The abstract command carried by one protocol line, one variant per wire
/// code: `0`, `1`, `2`, `A` and `D`.
#[derive(Clone, Copy, Debug, PartialEq, Eq, Structural)]
pub enum AspectCommand {
    Zero,
    One,
    Two,
    Deactivated,
    Dark,
}

/// The negative result of parsing one line.
///
/// When the field is `None`, the line was empty, comment-only or addressed
/// to another device, and is ignored without any response. Otherwise the
/// field holds a complete report line to be sent back to the command
/// sender.
#[derive(Debug, PartialEq, Eq)]
pub struct CommandError(pub Option<Vec<u8>>);

impl Default for CommandError {
    /// The ignorable, responseless error.
    fn default() -> (r: Self)
        ensures
            r.0 is None,
    {
        CommandError(None)
    }
}

/// The bytes of a `&str`, used to state message contents.
pub open spec fn str_bytes(s: &str) -> Seq<u8> {
    s.spec_bytes()
}

/// `line` up to, but not including, its first `#`.
pub open spec fn strip_comment(line: Seq<u8>) -> Seq<u8> {
    match line.index_of_first(HASH) {
        Some(i) => line.take(i),
        None => line,
    }
}

/// `s` without its leading ASCII whitespace.
pub open spec fn trim_front(s: Seq<u8>) -> Seq<u8>
    decreases s.len(),
{
    if s.len() > 0 && is_ascii_ws(s[0]) {
        trim_front(s.drop_first())
    } else {
        s
    }
}

/// `s` without its trailing ASCII whitespace.
pub open spec fn trim_back(s: Seq<u8>) -> Seq<u8>
    decreases s.len(),
{
    if s.len() > 0 && is_ascii_ws(s.last()) {
        trim_back(s.drop_last())
    } else {
        s
    }
}

/// The body of a line: the comment stripped, then surrounding ASCII
/// whitespace removed.
pub open spec fn cleaned(line: Seq<u8>) -> Seq<u8> {
    trim_back(trim_front(strip_comment(line)))
}

/// The leading section of a body: everything before the first `:`, or the
/// whole body when it has no `:`.
pub open spec fn id_section(body: Seq<u8>) -> Seq<u8> {
    match body.index_of_first(COLON) {
        Some(i) => body.take(i),
        None => body,
    }
}

/// Whether the body has a command section, that is, at least one `:`.
pub open spec fn has_command_section(body: Seq<u8>) -> bool {
    body.index_of_first(COLON) is Some
}

/// The command section of a body: everything between the first `:` and the
/// second `:` or the end.
pub open spec fn command_section(body: Seq<u8>) -> Seq<u8>
    recommends
        has_command_section(body),
{
    let rest = body.skip(body.index_of_first(COLON).unwrap() + 1);
    match rest.index_of_first(COLON) {
        Some(j) => rest.take(j),
        None => rest,
    }
}

/// The report line for a body that names this device but has no command
/// section.
pub open spec fn missing_command_message(body: Seq<u8>) -> Seq<u8> {
    signal_id_bytes() + str_bytes(":E:0#Missing command in \"") + body + str_bytes("\"\n")
}

/// The report line for a command section that matches no known code.
pub open spec fn unknown_command_message(command: Seq<u8>) -> Seq<u8> {
    signal_id_bytes() + str_bytes(":E:0#Unknown command \"") + command + str_bytes("\"\n")
}

/// What parsing one line yields.
pub enum LineOutcome {
    /// No response at all: the line is empty, comment-only, or addressed to
    /// another device.
    Ignored,
    /// A well-formed command addressed to this device.
    Command(AspectCommand),
    /// A malformed line addressed to this device; the field is the report
    /// line to send back.
    Rejected(Seq<u8>),
}

/// The command code bytes of each [`AspectCommand`], as they appear on the
/// wire.
pub open spec fn command_code(command: AspectCommand) -> Seq<u8> {
    match command {
        AspectCommand::Zero => seq!['0' as u8],
        AspectCommand::One => seq!['1' as u8],
        AspectCommand::Two => seq!['2' as u8],
        AspectCommand::Deactivated => seq!['A' as u8],
        AspectCommand::Dark => seq!['D' as u8],
    }
}

/// The meaning of one line, from addressing down to the command code.
pub open spec fn parse_line(line: Seq<u8>) -> LineOutcome {
    let body = cleaned(line);
    if id_section(body) != signal_id_bytes() {
        LineOutcome::Ignored
    } else if !has_command_section(body) {
        LineOutcome::Rejected(missing_command_message(body))
    } else {
        let cmd = command_section(body);
        if cmd == command_code(AspectCommand::Deactivated) {
            LineOutcome::Command(AspectCommand::Deactivated)
        } else if cmd == command_code(AspectCommand::Dark) {
            LineOutcome::Command(AspectCommand::Dark)
        } else if cmd == command_code(AspectCommand::Zero) {
            LineOutcome::Command(AspectCommand::Zero)
        } else if cmd == command_code(AspectCommand::One) {
            LineOutcome::Command(AspectCommand::One)
        } else if cmd == command_code(AspectCommand::Two) {
            LineOutcome::Command(AspectCommand::Two)
        } else {
            LineOutcome::Rejected(unknown_command_message(cmd))
        }
    }
}

/// Appends a byte slice to a vector.
fn push_bytes(out: &mut Vec<u8>, s: &[u8])
    ensures
        final(out)@ == old(out)@ + s@,
{
    let mut i: usize = 0;
    while i < s.len()
        invariant
            i <= s@.len(),
            out@ == old(out)@ + s@.take(i as int),
        decreases s@.len() - i,
    {
        out.push(s[i]);
        i += 1;
        proof {
            assert(old(out)@ + s@.take(i as int) =~= (old(out)@ + s@.take(i - 1)).push(
                s@[i - 1],
            ));
        }
    }
    proof {
        assert(s@.take(s@.len() as int) =~= s@);
    }
}

/// Appends the bytes of a string literal to a vector.
pub(crate) fn push_str_bytes(out: &mut Vec<u8>, s: &str)
    ensures
        final(out)@ == old(out)@ + str_bytes(s),
{
    push_bytes(out, s.as_bytes());
}

/// Builds a report line: the device identifier, the error code, a note, and
/// the offending bytes in quotes.
fn build_report(note: &str, offending: &[u8]) -> (v: Vec<u8>)
    ensures
        v@ == signal_id_bytes() + str_bytes(note) + offending@ + str_bytes("\"\n"),
{
    let mut v = signal_id_vec();
    push_str_bytes(&mut v, note);
    push_bytes(&mut v, offending);
    push_str_bytes(&mut v, "\"\n");
    v
}

/// Establishes that `trim_front(s)` removes exactly the first `j` bytes
/// when those and no more are whitespace.
proof fn lemma_trim_front_skip(s: Seq<u8>, j: int)
    requires
        0 <= j <= s.len(),
        forall|k: int| 0 <= k < j ==> is_ascii_ws(s[k]),
        j == s.len() || !is_ascii_ws(s[j]),
    ensures
        trim_front(s) == s.skip(j),
    decreases j,
{
    if j == 0 {
        assert(s.skip(0) =~= s);
    } else {
        let t = s.drop_first();
        lemma_trim_front_skip(t, j - 1);
        assert(t.skip(j - 1) =~= s.skip(j));
    }
}

/// Establishes that `trim_back(s)` keeps exactly the first `j` bytes when
/// everything after them, and nothing before, is trailing whitespace.
proof fn lemma_trim_back_take(s: Seq<u8>, j: int)
    requires
        0 <= j <= s.len(),
        forall|k: int| j <= k < s.len() ==> is_ascii_ws(s[k]),
        j == 0 || !is_ascii_ws(s[j - 1]),
    ensures
        trim_back(s) == s.take(j),
    decreases s.len(),
{
    if j == s.len() {
        assert(s.take(j) =~= s);
    } else {
        let t = s.drop_last();
        lemma_trim_back_take(t, j);
        assert(t.take(j) =~= s.take(j));
    }
}

/// Parses the next command from the single line input given.
///
/// The result is either the aspect command that this signal is asked to
/// switch to, or an error: an ignorable one (no response owed) or a report
/// line to send back, as [`parse_line`] describes.
pub fn get_next_command(line: &[u8]) -> (r: Result<AspectCommand, CommandError>)
    ensures
        ({
            let out = parse_line(line@);
            match r {
                Ok(cmd) => out == LineOutcome::Command(cmd),
                Err(e) => match e.0 {
                    Some(m) => out == LineOutcome::Rejected(m@),
                    None => out is Ignored,
                },
            }
        }),
{
    let n = line.len();
    let end = match find_byte_in(line, 0, n, HASH) {
        Some(i) => {
            proof {
                lemma_first_index(line@, HASH, i as int);
            }
            i
        },
        None => {
            proof {
                lemma_no_index(line@, HASH);
            }
            n
        },
    };
    assert(strip_comment(line@) == line@.take(end as int));

    let mut lo: usize = 0;
    while lo < end && is_ascii_ws_byte(line[lo])
        invariant
            lo <= end <= line@.len(),
            forall|k: int| 0 <= k < lo ==> is_ascii_ws(line@[k]),
        decreases end - lo,
    {
        lo += 1;
    }
    let mut hi: usize = end;
    while hi > lo && is_ascii_ws_byte(line[hi - 1])
        invariant
            lo <= hi <= end <= line@.len(),
            forall|k: int| 0 <= k < lo ==> is_ascii_ws(line@[k]),
            forall|k: int| hi <= k < end ==> is_ascii_ws(line@[k]),
        decreases hi,
    {
        hi -= 1;
    }
    proof {
        let s = line@.take(end as int);
        lemma_trim_front_skip(s, lo as int);
        lemma_trim_back_take(s.skip(lo as int), hi - lo);
        assert(s.skip(lo as int).take(hi - lo) =~= line@.subrange(lo as int, hi as int));
    }
    let body = vstd::slice::slice_subrange(line, lo, hi);
    assert(body@ == cleaned(line@));

    let m = body.len();
    let colon1 = find_byte_in(body, 0, m, COLON);
    proof {
        match colon1 {
            Some(i) => lemma_first_index(body@, COLON, i as int),
            None => lemma_no_index(body@, COLON),
        }
    }
    let id_end = match colon1 {
        Some(i) => i,
        None => m,
    };
    assert(id_section(body@) == body@.take(id_end as int));

    let id_matches = id_end == 1 && *vstd::slice::slice_index_get(body, 0) == 'F' as u8;
    proof {
        if id_end == 1 {
            assert(body@.take(1) =~= seq![body@[0]]);
        }
        if id_section(body@) == signal_id_bytes() {
            assert(body@.take(id_end as int).len() == id_end);
            assert(body@.take(1)[0] == body@[0]);
        }
        assert(id_matches == (id_section(body@) == signal_id_bytes()));
    }
    if !id_matches {
        return Err(CommandError(None));
    }

    match colon1 {
        None => Err(
            CommandError(
                Some(build_report(":E:0#Missing command in \"", body)),
            ),
        ),
        Some(i) => {
            let rest_start = i + 1;
            let cmd_end = match find_byte_in(body, rest_start, m, COLON) {
                Some(j) => j,
                None => m,
            };
            let command = vstd::slice::slice_subrange(body, rest_start, cmd_end);
            proof {
                let rest = body@.skip(rest_start as int);
                if cmd_end < m {
                    lemma_first_index(rest, COLON, cmd_end - rest_start);
                } else {
                    lemma_no_index(rest, COLON);
                    assert(rest.take(rest.len() as int) =~= rest);
                }
                assert(command@ =~= command_section(body@));
            }
            proof {
                assert(command_code(AspectCommand::Deactivated)[0] == 'A' as u8);
                assert(command_code(AspectCommand::Dark)[0] == 'D' as u8);
                assert(command_code(AspectCommand::Zero)[0] == '0' as u8);
                assert(command_code(AspectCommand::One)[0] == '1' as u8);
                assert(command_code(AspectCommand::Two)[0] == '2' as u8);
            }
            if cmd_end - rest_start == 1 {
                let c = *vstd::slice::slice_index_get(body, rest_start);
                proof {
                    assert(command@ =~= seq![body@[rest_start as int]]);
                    assert(command@[0] == body@[rest_start as int]);
                }
                if c == 'A' as u8 {
                    return Ok(AspectCommand::Deactivated);
                } else if c == 'D' as u8 {
                    return Ok(AspectCommand::Dark);
                } else if c == '0' as u8 {
                    return Ok(AspectCommand::Zero);
                } else if c == '1' as u8 {
                    return Ok(AspectCommand::One);
                } else if c == '2' as u8 {
                    return Ok(AspectCommand::Two);
                }
            }
            Err(
                CommandError(
                    Some(build_report(":E:0#Unknown command \"", command)),
                ),
            )
        },
    }
}

/// Law: every line of the exact form `<ID>:<CODE>`, for each of the five
/// known codes, parses to the command of that code.
pub proof fn lemma_valid_line_parses(command: AspectCommand)
    ensures
        parse_line(signal_id_bytes() + seq![COLON] + command_code(command))
            == LineOutcome::Command(command),
{
    let l = signal_id_bytes() + seq![COLON] + command_code(command);
    let cb = command_code(command)[0];
    assert(signal_id_bytes().len() == 1);
    assert(command_code(command).len() == 1);
    assert(l.len() == 3);
    assert(l[0] == 'F' as u8);
    assert(l[1] == COLON);
    assert(l[2] == cb);
    assert(cb == '0' as u8 || cb == '1' as u8 || cb == '2' as u8 || cb == 'A' as u8 || cb
        == 'D' as u8);
    assert(forall|k: int| 0 <= k < l.len() ==> l[k] != HASH);
    lemma_no_index(l, HASH);
    assert(strip_comment(l) == l);
    assert(!is_ascii_ws(l[0]));
    assert(trim_front(l) == l);
    assert(!is_ascii_ws(l.last()));
    assert(trim_back(l) == l);
    assert(cleaned(l) == l);
    assert(l[0] != COLON);
    lemma_first_index(l, COLON, 1);
    assert(l.take(1) =~= signal_id_bytes());
    let rest = l.skip(2);
    assert(rest.len() == 1);
    assert(rest[0] == cb);
    assert(forall|k: int| 0 <= k < rest.len() ==> rest[k] != COLON);
    lemma_no_index(rest, COLON);
    assert(command_section(l) == rest);
    assert(rest =~= command_code(command));
    assert(command_code(AspectCommand::Deactivated)[0] == 'A' as u8);
    assert(command_code(AspectCommand::Dark)[0] == 'D' as u8);
    assert(command_code(AspectCommand::Zero)[0] == '0' as u8);
    assert(command_code(AspectCommand::One)[0] == '1' as u8);
    assert(command_code(AspectCommand::Two)[0] == '2' as u8);
}

/// Law: the newline-terminated wire form of a valid command parses the
/// same way — the terminator is trimmed as whitespace.
pub proof fn lemma_valid_terminated_line_parses(command: AspectCommand)
    ensures
        parse_line(signal_id_bytes() + seq![COLON] + command_code(command) + seq![('\n' as u8)])
            == LineOutcome::Command(command),
{
    lemma_valid_line_parses(command);
    let l = signal_id_bytes() + seq![COLON] + command_code(command);
    let t = l + seq![('\n' as u8)];
    assert(signal_id_bytes().len() == 1);
    assert(command_code(command).len() == 1);
    assert(t.len() == 4);
    assert(forall|k: int| 0 <= k < l.len() ==> t[k] == l[k]);
    assert(forall|k: int| 0 <= k < l.len() ==> l[k] != HASH);
    assert(forall|k: int| 0 <= k < t.len() ==> t[k] != HASH);
    lemma_no_index(t, HASH);
    assert(strip_comment(t) == t);
    assert(!is_ascii_ws(t[0]));
    assert(trim_front(t) == t);
    assert(is_ascii_ws(t.last()));
    assert(t.drop_last() =~= l);
    assert(trim_back(t) == trim_back(l));
    lemma_no_index(l, HASH);
    assert(strip_comment(l) == l);
    assert(!is_ascii_ws(l[0]));
    assert(trim_front(l) == l);
    assert(cleaned(t) == cleaned(l));
}

/// Law: a line whose leading identifier does not equal this device's
/// identifier is ignored, whatever the rest of the line holds.
pub proof fn lemma_foreign_line_ignored(line: Seq<u8>)
    requires
        id_section(cleaned(line)) != signal_id_bytes(),
    ensures
        parse_line(line) is Ignored,
{
}

/// Law: everything from the first `#` on is excluded from parsing — a line
/// parses exactly like its prefix before the first `#`.
pub proof fn lemma_comment_excluded(line: Seq<u8>, i: int)
    requires
        0 <= i < line.len(),
        line[i] == HASH,
        forall|k: int| 0 <= k < i ==> line[k] != HASH,
    ensures
        parse_line(line) == parse_line(line.take(i)),
{
    lemma_first_index(line, HASH, i);
    assert(strip_comment(line) == line.take(i));
    let prefix = line.take(i);
    assert(forall|k: int| 0 <= k < prefix.len() ==> prefix[k] != HASH);
    lemma_no_index(prefix, HASH);
    assert(strip_comment(prefix) == prefix);
}


} // verus!
