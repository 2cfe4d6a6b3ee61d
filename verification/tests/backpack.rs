use pdcan::backpack::status::{encode_ws2812_pwm, render, Rgb, StatusState, STATUS_WORDS, WS2812_DATA_BITS};
use pdcan::backpack::supervisor::{
    elapsed, ProgressDeadlines, ProgressSnapshot, StalledSubsystems, Supervisor, SupervisorDecision,
};

#[test]
fn ws2812_encoding_uses_grb_wire_order() {
    assert_eq!(Rgb { red: 1, green: 2, blue: 3 }.ws2812_grb(), [2, 1, 3]);
}

#[test]
fn emergency_and_fault_render_as_highest_severity_red() {
    assert_eq!(render(StatusState::EmergencyLatched), render(StatusState::Fault));
}

#[test]
fn pwm_encoding_is_msb_first_grb_and_ends_with_reset_low() {
    let mut words = [u16::MAX; STATUS_WORDS];
    encode_ws2812_pwm(Rgb { red: 0, green: 0x80, blue: 0 }, 100, &mut words);

    assert_eq!(words[0], 56);
    assert!(words[1..WS2812_DATA_BITS].iter().all(|word| *word == 28));
    assert!(words[WS2812_DATA_BITS..].iter().all(|word| *word == 0));
}

#[test]
fn pwm_high_times_saturate_for_long_periods() {
    let mut words = [0u16; STATUS_WORDS];
    encode_ws2812_pwm(Rgb { red: 0xFF, green: 0, blue: 0 }, u16::MAX, &mut words);
    assert_eq!(words[0], u16::MAX / 100);
    assert_eq!(words[8], u16::MAX / 100);
    assert_eq!(render(StatusState::Healthy), Rgb { red: 0, green: 24, blue: 0 });
    assert_eq!(Rgb::OFF(), Rgb { red: 0, green: 0, blue: 0 });
}

#[test]
fn every_mandatory_subsystem_must_continue_progressing() {
    let mut supervisor = Supervisor::new(ProgressDeadlines::PROVISIONAL(), 0);
    assert_eq!(
        supervisor.evaluate(1_000, ProgressSnapshot { controller: 1, pd_bus: 1, can: 1 }, false),
        SupervisorDecision::FeedWatchdog
    );
    let SupervisorDecision::WithholdWatchdog { stalled } =
        supervisor.evaluate(4_100, ProgressSnapshot { controller: 2, pd_bus: 2, can: 1 }, false)
    else {
        panic!("CAN must be stale")
    };
    assert_eq!(stalled.bits(), StalledSubsystems::CAN);
}

#[test]
fn flash_allowance_is_bounded_not_an_unlimited_exemption() {
    let mut supervisor = Supervisor::new(ProgressDeadlines::PROVISIONAL(), 0);
    let SupervisorDecision::WithholdWatchdog { stalled } =
        supervisor.evaluate(4_500, ProgressSnapshot::default(), true)
    else {
        panic!("the controller must be stale")
    };
    assert_eq!(stalled.bits(), StalledSubsystems::CONTROLLER);
    let SupervisorDecision::WithholdWatchdog { stalled } =
        supervisor.evaluate(5_100, ProgressSnapshot::default(), true)
    else {
        panic!("bounded flash allowance must expire")
    };
    assert_eq!(
        stalled.bits(),
        StalledSubsystems::CONTROLLER | StalledSubsystems::PD_BUS | StalledSubsystems::CAN
    );
}

#[test]
fn elapsed_time_handles_millisecond_counter_wrap() {
    assert_eq!(elapsed(5, u32::MAX - 4), 10);
}

#[test]
fn progress_is_measured_from_the_latest_change_of_each_counter() {
    let mut supervisor = Supervisor::new(ProgressDeadlines::PROVISIONAL(), 0);
    let p = ProgressSnapshot { controller: 1, pd_bus: 1, can: 1 };
    assert_eq!(supervisor.evaluate(1_000, p, false), SupervisorDecision::FeedWatchdog);
    assert_eq!(supervisor.evaluate(2_500, ProgressSnapshot { controller: 2, ..p }, false), SupervisorDecision::FeedWatchdog);
    // The PD bus and CAN counters last changed at 1000 ms, the controller's at 2500 ms.
    let SupervisorDecision::WithholdWatchdog { stalled } =
        supervisor.evaluate(4_100, ProgressSnapshot { controller: 2, ..p }, false)
    else {
        panic!("the PD bus and CAN task must be stale")
    };
    assert_eq!(stalled.bits(), StalledSubsystems::PD_BUS | StalledSubsystems::CAN);
}
