//! End-to-end scenarios: bytes in, response lines and lamp states out,
//! with persistence across a simulated restart.

use light_signal::assembler::LineAssembler;
use light_signal::assembler::RxQueue;
use light_signal::dispatch::CommandOutcome;
use light_signal::dispatch::dispatch_command;
use light_signal::dispatch::restore_aspect;
use light_signal::lamps::ModelLamp;
use light_signal::signals::HVMainLamps;
use light_signal::signals::HVMainSignalAspect;
use light_signal::signals::HVSignalGroup;

fn lamp() -> ModelLamp {
    ModelLamp::off()
}

/// A group as wired for a device with a slow aspect and no deactivation
/// capability.
fn slow_capable_group() -> HVSignalGroup<ModelLamp> {
    HVSignalGroup::new(lamp(), lamp(), lamp(), lamp(), lamp(), lamp()).with_slow_aspect(lamp())
}

/// A group as wired for a device without a slow-indicator lamp.
fn bare_group() -> HVSignalGroup<ModelLamp> {
    HVSignalGroup::new(lamp(), lamp(), lamp(), lamp(), lamp(), lamp())
}

/// One foreground-loop pass: receive the bytes, assemble the line,
/// dispatch it, persist before switching, and return the response sent.
fn run_line(
    group: &mut HVSignalGroup<ModelLamp>,
    persisted: &mut Option<u8>,
    bytes: &[u8],
) -> Option<Vec<u8>> {
    let mut queue = RxQueue::new();
    let mut assembler = LineAssembler::new();
    for b in bytes {
        assert!(queue.push_byte(*b));
    }
    queue.drain_into(&mut assembler);
    let line = assembler.next_line().expect("the input must hold one full line");
    match dispatch_command(group, &line) {
        CommandOutcome::Ignore => None,
        CommandOutcome::Reply(message) => Some(message),
        CommandOutcome::Unsupported(message) => Some(message),
        CommandOutcome::Apply { aspect, persist, ack } => {
            *persisted = Some(persist);
            assert!(group.supports_aspect(aspect));
            group.switch_to_aspect(aspect).unwrap();
            Some(ack)
        },
    }
}

#[test]
fn proceed_command_is_acknowledged_and_applied() {
    let mut group = slow_capable_group();
    let mut persisted = None;
    let response = run_line(&mut group, &mut persisted, b"F:1\n");
    assert_eq!(response, Some(b"F:A:1\n".to_vec()));
    assert_eq!(
        group.main_lamp_states(),
        HVMainLamps { red: false, yellow: Some(false), green: true, notice: None },
    );
}

#[test]
fn unsupported_aspect_is_refused_without_side_effect() {
    let mut group = bare_group();
    let mut persisted = None;
    group.switch_to_aspect(HVMainSignalAspect::Stop).unwrap();
    let before = group.main_lamp_states();

    let response = run_line(&mut group, &mut persisted, b"F:2 # slow down\n");
    assert_eq!(response, Some(b"F:E:1\n".to_vec()));
    assert_eq!(group.main_lamp_states(), before);
    assert_eq!(persisted, None);
}

#[test]
fn foreign_identifier_gets_no_response_and_no_side_effect() {
    let mut group = slow_capable_group();
    let mut persisted = None;
    group.switch_to_aspect(HVMainSignalAspect::Stop).unwrap();
    let before = group.main_lamp_states();

    let response = run_line(&mut group, &mut persisted, b"G:1\n");
    assert_eq!(response, None);
    assert_eq!(group.main_lamp_states(), before);
    assert_eq!(persisted, None);
}

#[test]
fn empty_command_section_reports_code_zero_without_side_effect() {
    let mut group = slow_capable_group();
    let mut persisted = None;
    group.switch_to_aspect(HVMainSignalAspect::Stop).unwrap();
    let before = group.main_lamp_states();

    let response = run_line(&mut group, &mut persisted, b"F:\n").expect("a report is owed");
    assert!(response.starts_with(b"F:E:0#"));
    assert_eq!(group.main_lamp_states(), before);
    assert_eq!(persisted, None);
}

#[test]
fn applied_aspect_is_persisted_and_restored() {
    let mut group = slow_capable_group();
    let mut persisted = None;
    let response = run_line(&mut group, &mut persisted, b"F:2\n");
    assert_eq!(response, Some(b"F:A:2\n".to_vec()));
    assert_eq!(persisted, Some(b'2'));

    // Simulated restart: a fresh group reads the persisted byte back.
    let mut rebooted = slow_capable_group();
    rebooted.switch_to_aspect(HVMainSignalAspect::Stop).unwrap();
    let saved = restore_aspect(&rebooted, persisted.unwrap());
    assert_eq!(saved, Some(HVMainSignalAspect::ProceedSlow));
    rebooted.switch_to_aspect(saved.unwrap()).unwrap();
    assert_eq!(
        rebooted.main_lamp_states(),
        HVMainLamps { red: false, yellow: Some(true), green: true, notice: None },
    );
}

#[test]
fn unrecognized_or_unsupported_persisted_byte_is_ignored() {
    let group = bare_group();
    assert_eq!(restore_aspect(&group, b'z'), None);
    assert_eq!(restore_aspect(&group, 0), None);
    // Recognized, but the bare device has no slow-indicator lamp.
    assert_eq!(restore_aspect(&group, b'2'), None);
    // Recognized and supported.
    assert_eq!(restore_aspect(&group, b'1'), Some(HVMainSignalAspect::Proceed));
}

#[test]
fn persistence_comes_before_switching() {
    // The dispatch outcome carries the persist byte and the aspect
    // together; this test pins the byte for every aspect.
    let group = slow_capable_group();
    for (line, byte) in [
        (b"F:0\n".as_slice(), b'0'),
        (b"F:1\n".as_slice(), b'1'),
        (b"F:2\n".as_slice(), b'2'),
        (b"F:D\n".as_slice(), b'D'),
    ] {
        match dispatch_command(&group, line) {
            CommandOutcome::Apply { persist, .. } => assert_eq!(persist, byte),
            _ => panic!("expected the command {:?} to be applicable", line),
        }
    }
}
