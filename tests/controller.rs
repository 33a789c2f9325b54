use lichtwecker::controller::{Action, Event, FadeController, Phase, RunEnd};
use lichtwecker::light::{Light, LightRange, LightState};
use lichtwecker::schedule::{Alarm, LocalTime, ScheduleError};

const MINUTE: u64 = 60_000_000;
const HOUR: u64 = 60 * MINUTE;

fn ranges() -> Vec<LightRange> {
    vec![
        LightRange::new(0, 255, 153, 500).unwrap(),
        LightRange::new(1, 100, 200, 210).unwrap(),
    ]
}

/// A controller whose cycle has begun and whose baseline has been sent.
fn started() -> FadeController {
    let mut c = FadeController::new();
    let alarm = Alarm { end: 7 * HOUR, fade_duration: 30 * MINUTE };
    let a = c.begin_cycle(&alarm, &LocalTime { day: 0, micros: 6 * HOUR }, &ranges());
    assert_eq!(a, Action::Sleep(30 * MINUTE));
    assert_eq!(c.handle(Event::Slept), Action::SendStates);
    assert_eq!(c.phase(), Phase::RampingToBaseline);
    assert_eq!(
        c.states(),
        vec![
            LightState { on: true, brightness: 0, color_temperature: 500 },
            LightState { on: true, brightness: 1, color_temperature: 210 },
        ]
    );
    assert_eq!(c.handle(Event::Sent { failed: 0 }), Action::ReadFlag);
    c
}

#[test]
fn full_cycle_is_monotonic_bounded_and_loops() {
    let mut c = started();
    let mut prev = c.states();
    for i in 0..256u64 {
        assert_eq!(c.phase(), Phase::Checking(i));
        assert_eq!(c.handle(Event::Flag(true)), Action::Sleep(7_031_250));
        assert_eq!(c.handle(Event::Slept), Action::SendStates);
        let now = c.states();
        for (p, n) in prev.iter().zip(now.iter()) {
            assert!(n.brightness >= p.brightness);
            assert!(n.color_temperature <= p.color_temperature);
            assert!(n.on);
        }
        let k = i as u16 + 1;
        assert_eq!(now[0].brightness, k.min(255));
        assert_eq!(now[0].color_temperature, 500 - k);
        assert_eq!(now[1].brightness, (1 + k).min(100));
        assert_eq!(now[1].color_temperature, (210 - k.min(10)).max(200));
        prev = now;
        let next = c.handle(Event::Sent { failed: 0 });
        assert_eq!(next, Action::ReadFlag);
    }
    assert_eq!(c.phase(), Phase::CycleComplete);
    assert_eq!(c.handle(Event::Flag(true)), Action::BeginCycle);
    assert_eq!(c.phase(), Phase::ComputingWindow);
    assert_eq!(
        prev,
        vec![
            LightState { on: true, brightness: 255, color_temperature: 244 },
            LightState { on: true, brightness: 100, color_temperature: 200 },
        ]
    );
}

#[test]
fn deactivation_at_step_one_hundred_exits() {
    let mut c = started();
    for _ in 0..100 {
        assert_eq!(c.handle(Event::Flag(true)), Action::Sleep(7_031_250));
        assert_eq!(c.handle(Event::Slept), Action::SendStates);
        assert_eq!(c.handle(Event::Sent { failed: 0 }), Action::ReadFlag);
    }
    assert_eq!(c.phase(), Phase::Checking(100));
    assert_eq!(c.handle(Event::Flag(false)), Action::Exit(RunEnd::Deactivated));
    assert_eq!(c.phase(), Phase::Exited(RunEnd::Deactivated));
    for ev in [Event::Slept, Event::Sent { failed: 0 }, Event::Flag(true)] {
        assert_eq!(c.handle(ev), Action::Exit(RunEnd::Deactivated));
    }
    let alarm = Alarm { end: HOUR, fade_duration: MINUTE };
    let a = c.begin_cycle(&alarm, &LocalTime { day: 0, micros: 0 }, &ranges());
    assert_eq!(a, Action::Exit(RunEnd::Deactivated));
}

#[test]
fn failed_commands_do_not_stop_the_fade() {
    let mut a = started();
    let mut b = started();
    for c in [&mut a, &mut b] {
        c.handle(Event::Flag(true));
        c.handle(Event::Slept);
    }
    assert_eq!(a.handle(Event::Sent { failed: 2 }), Action::ReadFlag);
    assert_eq!(b.handle(Event::Sent { failed: 0 }), Action::ReadFlag);
    assert_eq!(a.phase(), Phase::Checking(1));
    assert_eq!(a.phase(), b.phase());
    assert_eq!(a.states(), b.states());
}

#[test]
fn new_schedule_mid_cycle_is_ignored() {
    let mut c = started();
    let before = c.states();
    let other = Alarm { end: 9 * HOUR, fade_duration: 5 * MINUTE };
    let a = c.begin_cycle(&other, &LocalTime { day: 0, micros: 0 }, &vec![]);
    assert_eq!(a, Action::ReadFlag);
    assert_eq!(c.phase(), Phase::Checking(0));
    assert_eq!(c.states(), before);
}

#[test]
fn unexpected_event_repeats_pending_action() {
    let mut c = FadeController::new();
    assert_eq!(c.handle(Event::Slept), Action::BeginCycle);
    let mut c = started();
    assert_eq!(c.handle(Event::Slept), Action::ReadFlag);
    assert_eq!(c.pending_action(), Action::ReadFlag);
}

#[test]
fn bad_schedule_ends_the_run() {
    let mut c = FadeController::new();
    let alarm = Alarm { end: 25 * HOUR, fade_duration: MINUTE };
    let a = c.begin_cycle(&alarm, &LocalTime { day: 0, micros: 0 }, &ranges());
    assert_eq!(a, Action::Exit(RunEnd::Schedule(ScheduleError::WakeTimeOutOfRange)));
}

#[test]
fn light_steps_saturate_at_bounds() {
    let r = LightRange::new(10, 20, 30, 40).unwrap();
    let mut l = Light::baseline(r);
    assert_eq!(l.state, LightState { on: true, brightness: 10, color_temperature: 40 });
    l.advance(7, 7);
    assert_eq!((l.state.brightness, l.state.color_temperature), (17, 33));
    l.advance(7, 7);
    assert_eq!((l.state.brightness, l.state.color_temperature), (20, 30));
    l.advance(u16::MAX, u16::MAX);
    assert_eq!((l.state.brightness, l.state.color_temperature), (20, 30));
    let mut m = Light::baseline(LightRange::new(0, u16::MAX, 0, u16::MAX).unwrap());
    m.advance(u16::MAX, u16::MAX);
    assert_eq!((m.state.brightness, m.state.color_temperature), (u16::MAX, 0));
}

#[test]
fn inverted_range_is_refused() {
    assert_eq!(LightRange::new(5, 4, 0, 0), None);
    assert_eq!(LightRange::new(0, 0, 9, 8), None);
    assert!(LightRange::new(3, 3, 8, 8).is_some());
}

#[test]
fn deactivation_during_last_step_exits_instead_of_next_cycle() {
    let mut c = started();
    for _ in 0..256 {
        assert_eq!(c.handle(Event::Flag(true)), Action::Sleep(7_031_250));
        assert_eq!(c.handle(Event::Slept), Action::SendStates);
        assert_eq!(c.handle(Event::Sent { failed: 0 }), Action::ReadFlag);
    }
    assert_eq!(c.phase(), Phase::CycleComplete);
    assert_eq!(c.handle(Event::Flag(false)), Action::Exit(RunEnd::Deactivated));
    assert_eq!(c.phase(), Phase::Exited(RunEnd::Deactivated));
    let alarm = Alarm { end: 7 * HOUR, fade_duration: 30 * MINUTE };
    let a = c.begin_cycle(&alarm, &LocalTime { day: 1, micros: 0 }, &ranges());
    assert_eq!(a, Action::Exit(RunEnd::Deactivated));
    assert_eq!(c.handle(Event::Slept), Action::Exit(RunEnd::Deactivated));
}
