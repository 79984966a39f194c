use candy_weigher::round_robin_select::{
    round_robin_select, round_robin_select3, round_robin_select4, unbiased_select_slice, PollFirst2, PollFirst3,
    PollFirst4, RoundRobinSelectSlice,
};
use candy_weigher::state::effect::{ButtonEvent, Event, TimerEvent};
use candy_weigher::state::DisplayBacklightState;
use candy_weigher::hardware_controllers::pimoroni_display_leds::Percentage;
use candy_weigher::tasks::{
    backlight_brightness, keep_pending, ButtonInput, ButtonMessage, ButtonWait, CalibrationAverager,
    CalibrationStage, HoldableButton, RepeatingButton, TimerKind,
};
use candy_weigher::utils::ScaleRawWeight;

#[test]
fn poll_first_cycles() {
    let mut p = PollFirst2::A;
    p.next();
    assert_eq!(p, PollFirst2::B);
    p.next();
    assert_eq!(p, PollFirst2::A);
    let mut p = PollFirst3::C;
    p.next();
    assert_eq!(p, PollFirst3::A);
    let mut p = PollFirst4::D;
    p.next();
    assert_eq!(p, PollFirst4::A);
    p.next();
    p.next();
    assert_eq!(p, PollFirst4::C);
    assert_eq!(PollFirst4::C.order(), vec![2, 3, 0, 1]);
    assert_eq!(PollFirst3::B.order(), vec![1, 2, 0]);
}

#[test]
fn selections_take_turns() {
    let mut p = PollFirst2::B;
    {
        let mut sel = round_robin_select(&mut p, "a", "b");
        assert_eq!(sel.a, "a");
        assert_eq!(sel.start_poll(), vec![1, 0]);
        assert_eq!(sel.start_poll(), vec![0, 1]);
        assert_eq!(sel.start_poll(), vec![1, 0]);
    }
    assert_eq!(p, PollFirst2::A);
    let mut p3 = PollFirst3::A;
    {
        let mut sel = round_robin_select3(&mut p3, 1, 2, 3);
        assert_eq!(sel.start_poll(), vec![0, 1, 2]);
        assert_eq!(sel.c, 3);
    }
    assert_eq!(p3, PollFirst3::B);
    let mut p4 = PollFirst4::B;
    {
        let mut sel = round_robin_select4(&mut p4, 1, 2, 3, 4);
        assert_eq!(sel.start_poll(), vec![1, 2, 3, 0]);
        assert_eq!(sel.d, 4);
    }
    assert_eq!(p4, PollFirst4::C);
}

#[test]
fn slice_selection_polls_everyone_once() {
    let mut futures = [10, 20, 30, 40, 50];
    let mut sel = unbiased_select_slice(3, &mut futures);
    assert_eq!(sel.poll_next_idx, 3);
    let start = sel.poll_next_idx;
    let order = sel.start_poll().unwrap();
    let expected: Vec<usize> = (0..5).map(|i| (start + i) % 5).collect();
    assert_eq!(order, expected);
    assert_eq!(sel.poll_next_idx, (start + 1) % 5);
    let mut sorted = order.clone();
    sorted.sort();
    assert_eq!(sorted, vec![0, 1, 2, 3, 4]);

    let mut empty: [u8; 0] = [];
    let mut sel = unbiased_select_slice(0, &mut empty);
    assert_eq!(sel.poll_next_idx, 0);
    assert_eq!(sel.start_poll(), None);
}

#[test]
fn repeating_button() {
    let mut b = RepeatingButton::Idle;
    assert_eq!(b.step(ButtonInput::WentLow, 1000, 100), (Some(ButtonMessage::Pressed), ButtonWait::HighOrTimeout(1000)));
    assert_eq!(b.step(ButtonInput::TimedOut, 1000, 100), (Some(ButtonMessage::Repeated), ButtonWait::HighOrTimeout(100)));
    assert_eq!(b.step(ButtonInput::TimedOut, 1000, 100), (Some(ButtonMessage::Repeated), ButtonWait::HighOrTimeout(100)));
    assert_eq!(b.step(ButtonInput::WentHigh, 1000, 100), (Some(ButtonMessage::Released), ButtonWait::Low));
    assert_eq!(b, RepeatingButton::Idle);
    // A short press: pressed then released, no repeat.
    b.step(ButtonInput::WentLow, 1000, 100);
    assert_eq!(b.step(ButtonInput::WentHigh, 1000, 100), (Some(ButtonMessage::Released), ButtonWait::Low));
    assert_eq!(b.step(ButtonInput::WentHigh, 1000, 100), (None, ButtonWait::Low));
}

#[test]
fn holdable_button() {
    let mut b = HoldableButton::Idle;
    assert_eq!(b.step(ButtonInput::WentLow, 1000), (Some(ButtonMessage::Pressed), ButtonWait::HighOrTimeout(1000)));
    assert_eq!(b.step(ButtonInput::TimedOut, 1000), (Some(ButtonMessage::Held), ButtonWait::High));
    assert_eq!(b.step(ButtonInput::TimedOut, 1000), (None, ButtonWait::High));
    assert_eq!(b.step(ButtonInput::WentHigh, 1000), (Some(ButtonMessage::Released), ButtonWait::Low));
    b.step(ButtonInput::WentLow, 1000);
    assert_eq!(b.step(ButtonInput::WentHigh, 1000), (Some(ButtonMessage::Released), ButtonWait::Low));
}

#[test]
fn calibration_average() {
    let mut a = CalibrationAverager::new();
    for i in 0..99 {
        assert_eq!(a.push(i), None);
    }
    // Readings 0..=99 average to 49.5 counts: 4950 hundredths.
    assert_eq!(a.push(99), Some(ScaleRawWeight(4950)));
    // The oldest reading (0) is replaced by 200: 51.5 counts.
    assert_eq!(a.push(200), Some(ScaleRawWeight(5150)));
    let mut n = 101;
    while !a.is_done() {
        a.push(7);
        n += 1;
    }
    assert_eq!(n, 501);
    let mut b = CalibrationAverager::new();
    for _ in 0..100 {
        b.push(-3);
    }
    assert_eq!(b.push(-3), Some(ScaleRawWeight(-300)));
}

#[test]
fn calibration_average_keeps_the_fraction() {
    let mut a = CalibrationAverager::new();
    for _ in 0..99 {
        assert_eq!(a.push(0), None);
    }
    // 99 zeros and one 150 average to 1.5 counts, not 2.
    assert_eq!(a.push(150), Some(ScaleRawWeight(150)));
    assert_eq!(ScaleRawWeight(150).whole_counts(), 1);
}

#[test]
fn calibration_stages_cycle() {
    let mut s = CalibrationStage::Tare;
    s.advance();
    assert_eq!(s, CalibrationStage::FiftyGram);
    s.advance();
    assert_eq!(s, CalibrationStage::Finish);
    s.advance();
    assert_eq!(s, CalibrationStage::Tare);
}

#[test]
fn backlight_brightness_levels() {
    assert_eq!(backlight_brightness(DisplayBacklightState::Off), None);
    assert_eq!(backlight_brightness(DisplayBacklightState::LowPower { on_at: 1 }), Some(Percentage(20)));
    assert_eq!(backlight_brightness(DisplayBacklightState::On { on_at: 1 }), Some(Percentage(100)));
}

#[test]
fn new_timer_replaces_its_kind() {
    let led = Event::Timer(TimerEvent::FadeoutLEDs { start_time: 1 });
    let dim = Event::Timer(TimerEvent::DimOrSleepDisplay { start_time: 1 });
    assert!(!keep_pending(Some(&led), TimerKind::FadeoutLEDs));
    assert!(keep_pending(Some(&led), TimerKind::DimOrSleepDisplay));
    assert!(!keep_pending(Some(&dim), TimerKind::DimOrSleepDisplay));
    assert!(keep_pending(Some(&dim), TimerKind::FadeoutLEDs));
    assert!(!keep_pending(None, TimerKind::FadeoutLEDs));
    assert!(keep_pending(Some(&Event::Button(ButtonEvent::APressed)), TimerKind::FadeoutLEDs));
}

#[test]
fn slice_selection_with_a_given_first_turn() {
    let mut futures = [1, 2, 3];
    let mut sel = RoundRobinSelectSlice::new(&mut futures, 2);
    assert_eq!(sel.start_poll(), Some(vec![2, 0, 1]));
    assert_eq!(sel.start_poll(), Some(vec![0, 1, 2]));
}

#[test]
fn slice_selection_first_turn_is_the_drawn_index() {
    let mut futures = [1, 2, 3, 4];
    let mut sel = unbiased_select_slice(0, &mut futures);
    assert_eq!(sel.start_poll(), Some(vec![0, 1, 2, 3]));
    let mut sel = unbiased_select_slice(3, &mut futures);
    assert_eq!(sel.start_poll(), Some(vec![3, 0, 1, 2]));
    assert_eq!(sel.poll_next_idx, 0);
}

#[test]
fn two_selections_hand_the_first_turn_on() {
    let mut p = PollFirst2::A;
    let first = round_robin_select(&mut p, 1, 2).start_poll();
    let second = round_robin_select(&mut p, 1, 2).start_poll();
    assert_eq!(first, vec![0, 1]);
    assert_eq!(second, vec![1, 0]);
    assert_eq!(p, PollFirst2::A);
    let mut p4 = PollFirst4::C;
    for _ in 0..4 {
        round_robin_select4(&mut p4, 1, 2, 3, 4).start_poll();
    }
    assert_eq!(p4, PollFirst4::C);
}

#[test]
fn repeating_button_messages_form_groups() {
    let inputs = [
        ButtonInput::WentLow,
        ButtonInput::TimedOut,
        ButtonInput::WentLow,
        ButtonInput::TimedOut,
        ButtonInput::WentHigh,
        ButtonInput::WentHigh,
        ButtonInput::TimedOut,
        ButtonInput::WentLow,
    ];
    let mut b = RepeatingButton::Idle;
    let mut msgs = Vec::new();
    for i in inputs {
        if let (Some(m), _) = b.step(i, 500, 100) {
            msgs.push(m);
        }
    }
    assert_eq!(
        msgs,
        vec![
            ButtonMessage::Pressed,
            ButtonMessage::Repeated,
            ButtonMessage::Repeated,
            ButtonMessage::Released,
            ButtonMessage::Pressed,
        ]
    );
    assert_eq!(b, RepeatingButton::AwaitingFirstRepeat);
}

#[test]
fn holdable_button_reports_one_long_press() {
    let inputs = [
        ButtonInput::WentLow,
        ButtonInput::TimedOut,
        ButtonInput::TimedOut,
        ButtonInput::WentLow,
        ButtonInput::WentHigh,
        ButtonInput::TimedOut,
    ];
    let mut b = HoldableButton::Idle;
    let mut msgs = Vec::new();
    for i in inputs {
        if let (Some(m), _) = b.step(i, 1000) {
            msgs.push(m);
        }
    }
    assert_eq!(msgs, vec![ButtonMessage::Pressed, ButtonMessage::Held, ButtonMessage::Released]);
    assert_eq!(b, HoldableButton::Idle);
}

#[test]
fn calibration_stage_reports_the_latest_hundred() {
    let mut a = CalibrationAverager::new();
    let readings: Vec<i32> = (0..501).map(|i| (i * 37 % 101) - 50).collect();
    let mut reports = 0;
    for (n, r) in readings.iter().enumerate() {
        let out = a.push(*r);
        if n + 1 < 100 {
            assert_eq!(out, None);
        } else {
            let latest: i64 = readings[n + 1 - 100..=n].iter().map(|x| *x as i64).sum();
            assert_eq!(out, Some(ScaleRawWeight(latest)));
            reports += 1;
        }
    }
    assert!(a.is_done());
    assert_eq!(reports, 402);
}
