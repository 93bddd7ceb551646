//! Tests of the signal state machines: lamp sets, capability checks and
//! the fail-safe transition order.

use light_signal::ks::KsLamps;
use light_signal::ks::KsSignal;
use light_signal::ks::KsSignalAspect;
use light_signal::lamps::BrokenLamp;
use light_signal::lamps::LampOp;
use light_signal::lamps::ModelLamp;
use light_signal::signals::HVAnnouncementLamps;
use light_signal::signals::HVAnnouncementSignal;
use light_signal::signals::HVAnnouncementSignalAspect;
use light_signal::signals::HVMainLamp;
use light_signal::signals::HVMainLamps;
use light_signal::signals::HVMainSignal;
use light_signal::signals::HVMainSignalAspect;
use light_signal::signals::HVSignalGroup;
use light_signal::signals::hv_main_transition_ops;

fn lamp() -> ModelLamp {
    ModelLamp::off()
}

fn full_group() -> HVSignalGroup<ModelLamp> {
    HVSignalGroup::new(lamp(), lamp(), lamp(), lamp(), lamp(), lamp())
        .with_slow_aspect(lamp())
        .with_deactivation_capability(lamp(), lamp())
}

#[test]
fn aspect_codes_round_trip() {
    for aspect in [
        HVMainSignalAspect::Stop,
        HVMainSignalAspect::Proceed,
        HVMainSignalAspect::ProceedSlow,
        HVMainSignalAspect::Deactivated,
        HVMainSignalAspect::Dark,
    ] {
        let id = aspect.command_id();
        assert_eq!(HVMainSignalAspect::from_command_id(id.as_bytes()), Some(aspect));
        assert_eq!(id.as_bytes(), [aspect.command_byte()]);
    }
    assert_eq!(HVMainSignalAspect::from_command_id(b"x"), None);
    assert_eq!(HVMainSignalAspect::from_command_id(b""), None);
    assert_eq!(HVMainSignalAspect::from_command_id(b"00"), None);
}

#[test]
fn switch_shows_exactly_the_required_lamps() {
    let mut signal = HVMainSignal::new(lamp(), lamp()).with_yellow_lamp(lamp());
    signal.switch_to_aspect(HVMainSignalAspect::Proceed).unwrap();
    let expected = HVMainLamps { red: false, yellow: Some(false), green: true, notice: None };
    assert_eq!(signal.lamp_states(), expected);
    // Idempotent: applying the same aspect twice leaves the same lamp set.
    signal.switch_to_aspect(HVMainSignalAspect::Proceed).unwrap();
    assert_eq!(signal.lamp_states(), expected);

    signal.switch_to_aspect(HVMainSignalAspect::ProceedSlow).unwrap();
    assert_eq!(
        signal.lamp_states(),
        HVMainLamps { red: false, yellow: Some(true), green: true, notice: None },
    );

    signal.switch_to_aspect(HVMainSignalAspect::Stop).unwrap();
    assert_eq!(
        signal.lamp_states(),
        HVMainLamps { red: true, yellow: Some(false), green: false, notice: None },
    );

    signal.switch_to_aspect(HVMainSignalAspect::Dark).unwrap();
    assert_eq!(
        signal.lamp_states(),
        HVMainLamps { red: false, yellow: Some(false), green: false, notice: None },
    );
}

#[test]
fn deactivated_lights_only_the_notice_lamp() {
    let mut signal = HVMainSignal::new(lamp(), lamp()).with_notice_lamp(lamp());
    signal.switch_to_aspect(HVMainSignalAspect::Deactivated).unwrap();
    assert_eq!(
        signal.lamp_states(),
        HVMainLamps { red: false, yellow: None, green: false, notice: Some(true) },
    );
}

#[test]
fn aspects_needing_absent_lamps_are_unsupported() {
    let bare = HVMainSignal::new(lamp(), lamp());
    assert!(bare.supports_aspect(HVMainSignalAspect::Stop));
    assert!(bare.supports_aspect(HVMainSignalAspect::Proceed));
    assert!(bare.supports_aspect(HVMainSignalAspect::Dark));
    assert!(!bare.supports_aspect(HVMainSignalAspect::ProceedSlow));
    assert!(!bare.supports_aspect(HVMainSignalAspect::Deactivated));

    let announcement = HVAnnouncementSignal::new(lamp(), lamp(), lamp(), lamp());
    assert!(!announcement.supports_aspect(HVAnnouncementSignalAspect::Deactivated));
    assert!(announcement.supports_aspect(HVAnnouncementSignalAspect::ExpectStop));
}

#[test]
fn slow_lamp_is_commanded_before_the_green_lamp() {
    let states = HVMainLamps { red: true, yellow: Some(false), green: false, notice: None };
    let ops = hv_main_transition_ops(&states, HVMainSignalAspect::ProceedSlow);
    assert_eq!(ops[0], LampOp { lamp: HVMainLamp::Yellow, on: true });
    assert_eq!(ops[1], LampOp { lamp: HVMainLamp::Green, on: true });
    let green_on_positions: Vec<usize> = ops
        .iter()
        .enumerate()
        .filter(|(_, op)| op.lamp == HVMainLamp::Green && op.on)
        .map(|(i, _)| i)
        .collect();
    assert_eq!(green_on_positions, vec![1]);
}

/// Applies one planned operation to a lamp-state snapshot, mirroring what
/// the signal does to its outputs.
fn apply_op(mut s: HVMainLamps, op: &LampOp<HVMainLamp>) -> HVMainLamps {
    match op.lamp {
        HVMainLamp::Red1 => s.red = op.on,
        HVMainLamp::Green => s.green = op.on,
        HVMainLamp::Yellow => {
            if s.yellow.is_some() {
                s.yellow = Some(op.on);
            }
        },
        HVMainLamp::Notice => {
            if s.notice.is_some() {
                s.notice = Some(op.on);
            }
        },
    }
    s
}

#[test]
fn no_intermediate_state_shows_unrestricted_proceed() {
    // Stop to ProceedSlow, step by step: green alone must never appear.
    let mut states = HVMainLamps { red: true, yellow: Some(false), green: false, notice: None };
    for op in hv_main_transition_ops(&states, HVMainSignalAspect::ProceedSlow) {
        states = apply_op(states, &op);
        assert!(
            !(states.green && states.yellow != Some(true)),
            "transient unrestricted proceed at {:?}",
            states,
        );
    }
    assert_eq!(
        states,
        HVMainLamps { red: false, yellow: Some(true), green: true, notice: None },
    );
}

#[test]
fn leaving_proceed_slow_never_shows_unrestricted_proceed() {
    // From ProceedSlow (yellow and green lit) into every other aspect, the
    // green lamp goes out before the yellow one: green alone never appears.
    for aspect in [
        HVMainSignalAspect::Stop,
        HVMainSignalAspect::Deactivated,
        HVMainSignalAspect::Dark,
    ] {
        let start = HVMainLamps {
            red: false,
            yellow: Some(true),
            green: true,
            notice: Some(false),
        };
        let mut states = start;
        for op in hv_main_transition_ops(&start, aspect) {
            states = apply_op(states, &op);
            assert!(
                !(states.green && states.yellow != Some(true)),
                "transient unrestricted proceed at {:?} entering {:?}",
                states,
                aspect,
            );
        }
    }
}

#[test]
fn red_lamp_is_set_before_the_green_lamp_is_cleared() {
    let states = HVMainLamps { red: false, yellow: Some(false), green: true, notice: None };
    let ops = hv_main_transition_ops(&states, HVMainSignalAspect::Stop);
    assert_eq!(ops[0], LampOp { lamp: HVMainLamp::Red1, on: true });
    assert_eq!(ops[1], LampOp { lamp: HVMainLamp::Green, on: false });
}

#[test]
fn group_announcement_reflects_the_main_aspect() {
    let mut group = full_group();
    group.switch_to_aspect(HVMainSignalAspect::Stop).unwrap();
    assert_eq!(
        group.announcement_lamp_states(),
        HVAnnouncementLamps {
            green_upper: false,
            green_lower: false,
            yellow_upper: true,
            yellow_lower: true,
            notice: Some(false),
        },
    );

    group.switch_to_aspect(HVMainSignalAspect::ProceedSlow).unwrap();
    assert_eq!(
        group.announcement_lamp_states(),
        HVAnnouncementLamps {
            green_upper: true,
            green_lower: false,
            yellow_upper: false,
            yellow_lower: true,
            notice: Some(false),
        },
    );
    assert_eq!(
        group.main_lamp_states(),
        HVMainLamps { red: false, yellow: Some(true), green: true, notice: Some(false) },
    );
}

#[test]
fn group_deactivation_and_darkness() {
    let mut group = full_group();
    group.switch_to_aspect(HVMainSignalAspect::Deactivated).unwrap();
    assert_eq!(
        group.main_lamp_states(),
        HVMainLamps { red: false, yellow: Some(false), green: false, notice: Some(true) },
    );
    assert_eq!(
        group.announcement_lamp_states(),
        HVAnnouncementLamps {
            green_upper: false,
            green_lower: false,
            yellow_upper: false,
            yellow_lower: false,
            notice: Some(true),
        },
    );

    group.switch_to_aspect(HVMainSignalAspect::Dark).unwrap();
    assert_eq!(
        group.main_lamp_states(),
        HVMainLamps { red: false, yellow: Some(false), green: false, notice: Some(false) },
    );
    assert_eq!(group.announcement_lamp_states().notice, Some(false));
}

#[test]
fn group_supports_needs_both_signals() {
    // The main signal has a notice lamp but the announcement signal's
    // deactivation wiring is what with_deactivation_capability adds; without
    // it the group cannot be deactivated.
    let group = HVSignalGroup::new(lamp(), lamp(), lamp(), lamp(), lamp(), lamp());
    assert!(!group.supports_aspect(HVMainSignalAspect::Deactivated));
    assert!(!group.supports_aspect(HVMainSignalAspect::ProceedSlow));
    assert!(group.supports_aspect(HVMainSignalAspect::Proceed));
    let group = group.with_slow_aspect(lamp());
    assert!(group.supports_aspect(HVMainSignalAspect::ProceedSlow));
}

#[test]
fn reduced_distance_lights_the_announcement_notice_lamp() {
    let mut group = HVSignalGroup::new(lamp(), lamp(), lamp(), lamp(), lamp(), lamp())
        .with_reduced_distance(Some(lamp()));
    group.switch_to_aspect(HVMainSignalAspect::Proceed).unwrap();
    assert_eq!(group.announcement_lamp_states().notice, Some(true));
    group.switch_to_aspect(HVMainSignalAspect::Dark).unwrap();
    assert_eq!(group.announcement_lamp_states().notice, Some(false));
}

#[test]
fn repeater_lamp_follows_darkness() {
    let mut group = HVSignalGroup::new(lamp(), lamp(), lamp(), lamp(), lamp(), lamp())
        .with_repeater_signal(lamp());
    group.switch_to_aspect(HVMainSignalAspect::Proceed).unwrap();
    assert_eq!(group.repeater_lamp_state(), Some(true));
    group.switch_to_aspect(HVMainSignalAspect::Dark).unwrap();
    assert_eq!(group.repeater_lamp_state(), Some(false));
}

#[test]
fn hardware_fault_is_reported() {
    let mut signal = HVMainSignal::new(BrokenLamp, BrokenLamp);
    assert!(signal.switch_to_aspect(HVMainSignalAspect::Stop).is_err());
}

#[test]
fn ks_roles_decide_capabilities() {
    let main = KsSignal::new_main(lamp(), lamp());
    assert!(main.supports_aspect(KsSignalAspect::Stop));
    assert!(!main.supports_aspect(KsSignalAspect::ExpectStop));
    assert!(!main.supports_aspect(KsSignalAspect::Deactivated));

    let announcement = KsSignal::new_announcement(lamp(), lamp());
    assert!(!announcement.supports_aspect(KsSignalAspect::Stop));
    assert!(announcement.supports_aspect(KsSignalAspect::ExpectStop));

    let multi = KsSignal::new_multi_block(lamp(), lamp(), lamp()).with_notice_lamp(lamp());
    assert!(multi.supports_aspect(KsSignalAspect::Stop));
    assert!(multi.supports_aspect(KsSignalAspect::ExpectStop));
    assert!(multi.supports_aspect(KsSignalAspect::Deactivated));
}

#[test]
fn ks_switch_shows_exactly_the_required_lamps() {
    let mut signal = KsSignal::new_multi_block(lamp(), lamp(), lamp());
    signal.switch_to_aspect(KsSignalAspect::Proceed).unwrap();
    assert_eq!(
        signal.lamp_states(),
        KsLamps { red: Some(false), yellow: Some(false), green: true, notice: None },
    );
    signal.switch_to_aspect(KsSignalAspect::ExpectStop).unwrap();
    assert_eq!(
        signal.lamp_states(),
        KsLamps { red: Some(false), yellow: Some(true), green: false, notice: None },
    );
    signal.switch_to_aspect(KsSignalAspect::Stop).unwrap();
    assert_eq!(
        signal.lamp_states(),
        KsLamps { red: Some(true), yellow: Some(false), green: false, notice: None },
    );
}
