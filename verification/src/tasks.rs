//! Decisions of the firmware's tasks: how a button's presses become
//! messages, and how calibration readings are averaged.
use vstd::prelude::*;
use crate::config_consts::LOW_BACKLIGHT_PERCENTAGE;
use crate::hardware_controllers::pimoroni_display_leds::Percentage;
use crate::state::effect::{Event, TimerEvent};
use crate::state::DisplayBacklightState;
use crate::utils::ScaleRawWeight;

verus! {

/// A change seen on a button's input (active low), or the end of a wait.
#[derive(Copy, Clone, Debug, PartialEq, Eq, Structural)]
pub enum ButtonInput {
    WentLow,
    WentHigh,
    TimedOut,
}

/// What a button task waits for next.
#[derive(Copy, Clone, Debug, PartialEq, Eq, Structural)]
pub enum ButtonWait {
    /// The button to be pressed.
    Low,
    /// The button to be released.
    High,
    /// The button to be released, or the given number of milliseconds to pass.
    HighOrTimeout(u64),
}

/// A message that a button task sends.
#[derive(Copy, Clone, Debug, PartialEq, Eq, Structural)]
pub enum ButtonMessage {
    Pressed,
    Repeated,
    Held,
    Released,
}

/// Where a repeating button (one that repeats while held) is.
#[derive(Copy, Clone, Debug, PartialEq, Eq, Structural)]
pub enum RepeatingButton {
    Idle,
    AwaitingFirstRepeat,
    Repeating,
}

/// Where a holdable button (one that reports a long press) is.
#[derive(Copy, Clone, Debug, PartialEq, Eq, Structural)]
pub enum HoldableButton {
    Idle,
    AwaitingHold,
    AwaitingRelease,
}

/// A repeating button: a press is reported, and if the button is still down
/// after `first_ms` a repeat, then another every `subsequent_ms` until it is
/// released, which is reported too. Inputs that the state does not wait for
/// change nothing.
pub open spec fn repeating_step(
    s: RepeatingButton,
    i: ButtonInput,
    first_ms: u64,
    subsequent_ms: u64,
) -> (RepeatingButton, Option<ButtonMessage>, ButtonWait) {
    match (s, i) {
        (RepeatingButton::Idle, ButtonInput::WentLow) => (
            RepeatingButton::AwaitingFirstRepeat,
            Some(ButtonMessage::Pressed),
            ButtonWait::HighOrTimeout(first_ms),
        ),
        (RepeatingButton::AwaitingFirstRepeat, ButtonInput::WentHigh)
        | (RepeatingButton::Repeating, ButtonInput::WentHigh) => (
            RepeatingButton::Idle,
            Some(ButtonMessage::Released),
            ButtonWait::Low,
        ),
        (RepeatingButton::AwaitingFirstRepeat, ButtonInput::TimedOut)
        | (RepeatingButton::Repeating, ButtonInput::TimedOut) => (
            RepeatingButton::Repeating,
            Some(ButtonMessage::Repeated),
            ButtonWait::HighOrTimeout(subsequent_ms),
        ),
        (RepeatingButton::Idle, _) => (s, None, ButtonWait::Low),
        (RepeatingButton::AwaitingFirstRepeat, ButtonInput::WentLow) => (s, None, ButtonWait::HighOrTimeout(first_ms)),
        (RepeatingButton::Repeating, ButtonInput::WentLow) => (s, None, ButtonWait::HighOrTimeout(subsequent_ms)),
    }
}

/// A holdable button: a press is reported; if the button is still down after
/// `held_ms`, a long press is reported; its release is reported.
pub open spec fn holdable_step(
    s: HoldableButton,
    i: ButtonInput,
    held_ms: u64,
) -> (HoldableButton, Option<ButtonMessage>, ButtonWait) {
    match (s, i) {
        (HoldableButton::Idle, ButtonInput::WentLow) => (
            HoldableButton::AwaitingHold,
            Some(ButtonMessage::Pressed),
            ButtonWait::HighOrTimeout(held_ms),
        ),
        (HoldableButton::AwaitingHold, ButtonInput::TimedOut) => (
            HoldableButton::AwaitingRelease,
            Some(ButtonMessage::Held),
            ButtonWait::High,
        ),
        (HoldableButton::AwaitingHold, ButtonInput::WentHigh)
        | (HoldableButton::AwaitingRelease, ButtonInput::WentHigh) => (
            HoldableButton::Idle,
            Some(ButtonMessage::Released),
            ButtonWait::Low,
        ),
        (HoldableButton::Idle, _) => (s, None, ButtonWait::Low),
        (HoldableButton::AwaitingHold, ButtonInput::WentLow) => (s, None, ButtonWait::HighOrTimeout(held_ms)),
        (HoldableButton::AwaitingRelease, _) => (s, None, ButtonWait::High),
    }
}

impl RepeatingButton {
    /// Takes an input; returns the message to send, if any, and what to wait
    /// for next. See `repeating_step`.
    pub fn step(&mut self, input: ButtonInput, first_ms: u64, subsequent_ms: u64) -> (r: (Option<ButtonMessage>, ButtonWait))
        ensures
            ({
                let (s2, m, w) = repeating_step(*old(self), input, first_ms, subsequent_ms);
                *final(self) == s2 && r == (m, w)
            }),
    {
        match (*self, input) {
            (RepeatingButton::Idle, ButtonInput::WentLow) => {
                *self = RepeatingButton::AwaitingFirstRepeat;
                (Some(ButtonMessage::Pressed), ButtonWait::HighOrTimeout(first_ms))
            },
            (RepeatingButton::AwaitingFirstRepeat, ButtonInput::WentHigh)
            | (RepeatingButton::Repeating, ButtonInput::WentHigh) => {
                *self = RepeatingButton::Idle;
                (Some(ButtonMessage::Released), ButtonWait::Low)
            },
            (RepeatingButton::AwaitingFirstRepeat, ButtonInput::TimedOut)
            | (RepeatingButton::Repeating, ButtonInput::TimedOut) => {
                *self = RepeatingButton::Repeating;
                (Some(ButtonMessage::Repeated), ButtonWait::HighOrTimeout(subsequent_ms))
            },
            (RepeatingButton::Idle, _) => (None, ButtonWait::Low),
            (RepeatingButton::AwaitingFirstRepeat, ButtonInput::WentLow) => (None, ButtonWait::HighOrTimeout(first_ms)),
            (RepeatingButton::Repeating, ButtonInput::WentLow) => (None, ButtonWait::HighOrTimeout(subsequent_ms)),
        }
    }
}

impl HoldableButton {
    /// Takes an input; returns the message to send, if any, and what to wait
    /// for next. See `holdable_step`.
    pub fn step(&mut self, input: ButtonInput, held_ms: u64) -> (r: (Option<ButtonMessage>, ButtonWait))
        ensures
            ({
                let (s2, m, w) = holdable_step(*old(self), input, held_ms);
                *final(self) == s2 && r == (m, w)
            }),
    {
        match (*self, input) {
            (HoldableButton::Idle, ButtonInput::WentLow) => {
                *self = HoldableButton::AwaitingHold;
                (Some(ButtonMessage::Pressed), ButtonWait::HighOrTimeout(held_ms))
            },
            (HoldableButton::AwaitingHold, ButtonInput::TimedOut) => {
                *self = HoldableButton::AwaitingRelease;
                (Some(ButtonMessage::Held), ButtonWait::High)
            },
            (HoldableButton::AwaitingHold, ButtonInput::WentHigh)
            | (HoldableButton::AwaitingRelease, ButtonInput::WentHigh) => {
                *self = HoldableButton::Idle;
                (Some(ButtonMessage::Released), ButtonWait::Low)
            },
            (HoldableButton::Idle, _) => (None, ButtonWait::Low),
            (HoldableButton::AwaitingHold, ButtonInput::WentLow) => (None, ButtonWait::HighOrTimeout(held_ms)),
            (HoldableButton::AwaitingRelease, _) => (None, ButtonWait::High),
        }
    }
}

/// Presses and releases alternate: a press is reported only by a released
/// button, and a release only by a pressed one, which it leaves released.
pub proof fn lemma_repeating_press_release_alternate(s: RepeatingButton, i: ButtonInput, a: u64, b: u64)
    ensures
        repeating_step(s, i, a, b).1 == Some(ButtonMessage::Pressed) ==> s == RepeatingButton::Idle
            && repeating_step(s, i, a, b).0 != RepeatingButton::Idle,
        repeating_step(s, i, a, b).1 == Some(ButtonMessage::Released) ==> s != RepeatingButton::Idle
            && repeating_step(s, i, a, b).0 == RepeatingButton::Idle,
        repeating_step(s, i, a, b).1 == Some(ButtonMessage::Repeated) ==> s != RepeatingButton::Idle,
{
}

/// Presses and releases alternate, and at most one long press is reported per
/// press.
pub proof fn lemma_holdable_press_release_alternate(s: HoldableButton, i: ButtonInput, h: u64)
    ensures
        holdable_step(s, i, h).1 == Some(ButtonMessage::Pressed) ==> s == HoldableButton::Idle
            && holdable_step(s, i, h).0 != HoldableButton::Idle,
        holdable_step(s, i, h).1 == Some(ButtonMessage::Released) ==> s != HoldableButton::Idle
            && holdable_step(s, i, h).0 == HoldableButton::Idle,
        holdable_step(s, i, h).1 == Some(ButtonMessage::Held) ==> s == HoldableButton::AwaitingHold
            && holdable_step(s, i, h).0 == HoldableButton::AwaitingRelease,
{
}

/// What a repeating button in state `s` waits for: a press when released, the
/// first repeat's time (or the release) after a press, the next repeat's time
/// (or the release) once repeating.
pub open spec fn repeating_wait(s: RepeatingButton, first_ms: u64, subsequent_ms: u64) -> ButtonWait {
    match s {
        RepeatingButton::Idle => ButtonWait::Low,
        RepeatingButton::AwaitingFirstRepeat => ButtonWait::HighOrTimeout(first_ms),
        RepeatingButton::Repeating => ButtonWait::HighOrTimeout(subsequent_ms),
    }
}

/// Repeat timing: after every step the button waits for what its new state
/// waits for, so a repeat is reported only when a wait times out while the
/// button is down, and the wait that timed out was `first_ms` long for the
/// first repeat after a press and `subsequent_ms` long for each later one.
pub proof fn lemma_repeating_waits(s: RepeatingButton, i: ButtonInput, first_ms: u64, subsequent_ms: u64)
    ensures
        repeating_step(s, i, first_ms, subsequent_ms).2 == repeating_wait(
            repeating_step(s, i, first_ms, subsequent_ms).0,
            first_ms,
            subsequent_ms,
        ),
        (repeating_step(s, i, first_ms, subsequent_ms).1 == Some(ButtonMessage::Repeated)) == (i
            == ButtonInput::TimedOut && s != RepeatingButton::Idle),
        repeating_step(s, i, first_ms, subsequent_ms).1 == Some(ButtonMessage::Repeated) && s
            == RepeatingButton::AwaitingFirstRepeat ==> repeating_wait(s, first_ms, subsequent_ms)
            == ButtonWait::HighOrTimeout(first_ms),
        repeating_step(s, i, first_ms, subsequent_ms).1 == Some(ButtonMessage::Repeated) && s
            == RepeatingButton::Repeating ==> repeating_wait(s, first_ms, subsequent_ms)
            == ButtonWait::HighOrTimeout(subsequent_ms),
{
}

/// What a holdable button in state `s` waits for: a press when released, the
/// long press's time (or the release) after a press, the release after a long
/// press.
pub open spec fn holdable_wait(s: HoldableButton, held_ms: u64) -> ButtonWait {
    match s {
        HoldableButton::Idle => ButtonWait::Low,
        HoldableButton::AwaitingHold => ButtonWait::HighOrTimeout(held_ms),
        HoldableButton::AwaitingRelease => ButtonWait::High,
    }
}

/// Long-press timing: after every step the button waits for what its new
/// state waits for, so a long press is reported only when the `held_ms` wait
/// that began at the press times out with the button still down.
pub proof fn lemma_holdable_waits(s: HoldableButton, i: ButtonInput, held_ms: u64)
    ensures
        holdable_step(s, i, held_ms).2 == holdable_wait(holdable_step(s, i, held_ms).0, held_ms),
        (holdable_step(s, i, held_ms).1 == Some(ButtonMessage::Held)) == (i == ButtonInput::TimedOut
            && holdable_wait(s, held_ms) == ButtonWait::HighOrTimeout(held_ms) && s != HoldableButton::Idle),
{
}

/// The messages of one step, as a sequence.
pub open spec fn message_seq(m: Option<ButtonMessage>) -> Seq<ButtonMessage> {
    match m {
        Some(x) => seq![x],
        None => Seq::empty(),
    }
}

/// A repeating button fed `inputs` one after another from `s`: the state it
/// ends in and every message it sent, in order.
pub open spec fn repeating_run(
    s: RepeatingButton,
    inputs: Seq<ButtonInput>,
    first_ms: u64,
    subsequent_ms: u64,
) -> (RepeatingButton, Seq<ButtonMessage>)
    decreases inputs.len(),
{
    if inputs.len() == 0 {
        (s, Seq::empty())
    } else {
        let (s1, m, _w) = repeating_step(s, inputs[0], first_ms, subsequent_ms);
        let (end, rest) = repeating_run(s1, inputs.drop_first(), first_ms, subsequent_ms);
        (end, message_seq(m) + rest)
    }
}

/// Reads `msgs` as groups `Pressed Repeated* Released`, the button down when
/// `down` holds at the start; `Some` of whether it is down at the end, or
/// `None` where a message breaks that pattern.
pub open spec fn repeat_groups_end(msgs: Seq<ButtonMessage>, down: bool) -> Option<bool>
    decreases msgs.len(),
{
    if msgs.len() == 0 {
        Some(down)
    } else {
        let next = match msgs[0] {
            ButtonMessage::Pressed => if !down { Some(true) } else { None },
            ButtonMessage::Repeated => if down { Some(true) } else { None },
            ButtonMessage::Released => if down { Some(false) } else { None },
            ButtonMessage::Held => None,
        };
        match next {
            Some(d) => repeat_groups_end(msgs.drop_first(), d),
            None => None,
        }
    }
}

/// Over any sequence of inputs, a repeating button's messages form groups
/// `Pressed Repeated* Released`, the last one possibly unfinished: one press
/// per press, repeats only while down, one release per release. The button is
/// down at the end exactly when the last group is unfinished.
pub proof fn lemma_repeating_messages_form_groups(
    s: RepeatingButton,
    inputs: Seq<ButtonInput>,
    first_ms: u64,
    subsequent_ms: u64,
)
    ensures
        repeat_groups_end(repeating_run(s, inputs, first_ms, subsequent_ms).1, s != RepeatingButton::Idle)
            == Some(repeating_run(s, inputs, first_ms, subsequent_ms).0 != RepeatingButton::Idle),
    decreases inputs.len(),
{
    if inputs.len() > 0 {
        let (s1, m, _w) = repeating_step(s, inputs[0], first_ms, subsequent_ms);
        let (end, rest) = repeating_run(s1, inputs.drop_first(), first_ms, subsequent_ms);
        lemma_repeating_messages_form_groups(s1, inputs.drop_first(), first_ms, subsequent_ms);
        let msgs = message_seq(m) + rest;
        match m {
            Some(x) => {
                assert(msgs[0] == x);
                assert(msgs.drop_first() =~= rest);
            },
            None => {
                assert(msgs =~= rest);
            },
        }
    }
}

/// A holdable button fed `inputs` one after another from `s`: the state it
/// ends in and every message it sent, in order.
pub open spec fn holdable_run(s: HoldableButton, inputs: Seq<ButtonInput>, held_ms: u64) -> (HoldableButton, Seq<ButtonMessage>)
    decreases inputs.len(),
{
    if inputs.len() == 0 {
        (s, Seq::empty())
    } else {
        let (s1, m, _w) = holdable_step(s, inputs[0], held_ms);
        let (end, rest) = holdable_run(s1, inputs.drop_first(), held_ms);
        (end, message_seq(m) + rest)
    }
}

/// How far into a long press a holdable button is: 0 released, 1 pressed,
/// 2 held long enough.
pub open spec fn hold_phase(s: HoldableButton) -> nat {
    match s {
        HoldableButton::Idle => 0,
        HoldableButton::AwaitingHold => 1,
        HoldableButton::AwaitingRelease => 2,
    }
}

/// Reads `msgs` as groups `Pressed Held? Released` from `phase` (see
/// `hold_phase`); `Some` of the phase at the end, or `None` where a message
/// breaks that pattern.
pub open spec fn hold_groups_end(msgs: Seq<ButtonMessage>, phase: nat) -> Option<nat>
    decreases msgs.len(),
{
    if msgs.len() == 0 {
        Some(phase)
    } else {
        let next = match msgs[0] {
            ButtonMessage::Pressed => if phase == 0 { Some(1nat) } else { None },
            ButtonMessage::Held => if phase == 1 { Some(2nat) } else { None },
            ButtonMessage::Released => if phase != 0 { Some(0nat) } else { None },
            ButtonMessage::Repeated => None,
        };
        match next {
            Some(p) => hold_groups_end(msgs.drop_first(), p),
            None => None,
        }
    }
}

/// Over any sequence of inputs, a holdable button's messages form groups
/// `Pressed Held? Released`, the last one possibly unfinished: at most one
/// long press is reported per press, and never after the release.
pub proof fn lemma_holdable_messages_form_groups(s: HoldableButton, inputs: Seq<ButtonInput>, held_ms: u64)
    ensures
        hold_groups_end(holdable_run(s, inputs, held_ms).1, hold_phase(s))
            == Some(hold_phase(holdable_run(s, inputs, held_ms).0)),
    decreases inputs.len(),
{
    if inputs.len() > 0 {
        let (s1, m, _w) = holdable_step(s, inputs[0], held_ms);
        let (end, rest) = holdable_run(s1, inputs.drop_first(), held_ms);
        lemma_holdable_messages_form_groups(s1, inputs.drop_first(), held_ms);
        let msgs = message_seq(m) + rest;
        match m {
            Some(x) => {
                assert(msgs[0] == x);
                assert(msgs.drop_first() =~= rest);
            },
            None => {
                assert(msgs =~= rest);
            },
        }
    }
}

/// Number of readings over which calibration readings are averaged.
pub const CALIBRATION_WINDOW: usize = 100;
/// Number of readings that one calibration stage takes.
pub const CALIBRATION_SAMPLES: usize = 501;

/// Sum of a sequence of readings.
pub open spec fn sum(s: Seq<i32>) -> int
    decreases s.len(),
{
    if s.len() == 0 { 0 } else { sum(s.drop_last()) + s.last() }
}

/// The window after taking `rs` in turn into a window of zeros, each reading
/// going to the position of its index modulo the window's length.
spec fn window_of(rs: Seq<i32>) -> Seq<i32>
    decreases rs.len(),
{
    if rs.len() == 0 {
        Seq::new(CALIBRATION_WINDOW as nat, |i: int| 0i32)
    } else {
        window_of(rs.drop_last()).update((rs.len() - 1) % (CALIBRATION_WINDOW as int), rs.last())
    }
}

proof fn lemma_window_len(rs: Seq<i32>)
    ensures
        window_of(rs).len() == CALIBRATION_WINDOW,
    decreases rs.len(),
{
    if rs.len() > 0 {
        lemma_window_len(rs.drop_last());
    }
}

/// Each of the latest hundred readings is in the window, at the position of
/// its index modulo a hundred.
proof fn lemma_window_holds_latest(rs: Seq<i32>, k: int)
    requires
        0 <= k < rs.len(),
        rs.len() <= k + 100,
    ensures
        window_of(rs)[k % 100] == rs[k],
    decreases rs.len(),
{
    let n = rs.len() as int;
    lemma_window_len(rs.drop_last());
    if k < n - 1 {
        lemma_window_holds_latest(rs.drop_last(), k);
        assert(k % 100 != (n - 1) % 100) by {
            vstd::arithmetic::div_mod::lemma_fundamental_div_mod(k, 100);
            vstd::arithmetic::div_mod::lemma_fundamental_div_mod(n - 1, 100);
            vstd::arithmetic::div_mod::lemma_mod_bound(k, 100);
            vstd::arithmetic::div_mod::lemma_mod_bound(n - 1, 100);
            if k % 100 == (n - 1) % 100 {
                assert((n - 1) - k == 100 * ((n - 1) / 100 - k / 100)) by (nonlinear_arith)
                    requires
                        k == 100 * (k / 100) + k % 100,
                        n - 1 == 100 * ((n - 1) / 100) + (n - 1) % 100,
                        k % 100 == (n - 1) % 100;
                assert(false) by (nonlinear_arith)
                    requires
                        (n - 1) - k == 100 * ((n - 1) / 100 - k / 100),
                        0 < (n - 1) - k < 100;
            }
        }
    }
}

proof fn lemma_sum_update(w: Seq<i32>, j: int, x: i32)
    requires
        0 <= j < w.len(),
    ensures
        sum(w.update(j, x)) == sum(w) - w[j] + x,
    decreases w.len(),
{
    let u = w.update(j, x);
    if j == w.len() - 1 {
        assert(u.drop_last() =~= w.drop_last());
    } else {
        assert(u.drop_last() =~= w.drop_last().update(j, x));
        lemma_sum_update(w.drop_last(), j, x);
    }
}

proof fn lemma_sum_drop_first(s: Seq<i32>)
    requires
        s.len() > 0,
    ensures
        sum(s) == s[0] + sum(s.drop_first()),
    decreases s.len(),
{
    if s.len() == 1 {
        assert(s.drop_first() =~= Seq::<i32>::empty());
        assert(s.drop_last() =~= Seq::<i32>::empty());
    } else {
        lemma_sum_drop_first(s.drop_last());
        assert(s.drop_first().drop_last() =~= s.drop_last().drop_first());
    }
}

/// Once a hundred readings are taken, the window sums the latest hundred.
proof fn lemma_window_sum(rs: Seq<i32>)
    requires
        rs.len() >= 100,
    ensures
        sum(window_of(rs)) == sum(rs.subrange(rs.len() - 100, rs.len() as int)),
    decreases rs.len(),
{
    let n = rs.len() as int;
    lemma_window_len(rs);
    if n == 100 {
        assert forall|i: int| 0 <= i < 100 implies window_of(rs)[i] == rs[i] by {
            lemma_window_holds_latest(rs, i);
        }
        assert(window_of(rs) =~= rs.subrange(0, 100));
    } else {
        let prev = rs.drop_last();
        lemma_window_len(prev);
        lemma_window_sum(prev);
        lemma_window_holds_latest(prev, n - 101);
        assert((n - 101) % 100 == (n - 1) % 100) by {
            vstd::arithmetic::div_mod::lemma_mod_add_multiples_vanish(n - 101, 100);
        }
        lemma_sum_update(window_of(prev), (n - 1) % 100, rs.last());
        let whole = rs.subrange(n - 100, n);
        assert(whole.drop_last() =~= rs.subrange(n - 100, n - 1));
        let before = prev.subrange(n - 101, n - 1);
        lemma_sum_drop_first(before);
        assert(before.drop_first() =~= rs.subrange(n - 100, n - 1));
    }
}

/// Averages the last hundred readings of a calibration stage: the window
/// holds the readings so far, the newest at position `count % 100`.
pub struct CalibrationAverager {
    window: Vec<i32>,
    count: usize,
    readings: Ghost<Seq<i32>>,
}

impl CalibrationAverager {
    pub closed spec fn wf(&self) -> bool {
        &&& self.window@.len() == CALIBRATION_WINDOW
        &&& self.count <= CALIBRATION_SAMPLES
        &&& self.count == self.readings@.len()
        &&& self.window@ == window_of(self.readings@)
    }

    /// The readings taken so far, oldest first.
    pub closed spec fn readings(&self) -> Seq<i32> {
        self.readings@
    }

    /// Number of readings taken so far.
    pub closed spec fn taken(&self) -> nat {
        self.count as nat
    }

    /// The readings in the window.
    pub closed spec fn window(&self) -> Seq<i32> {
        self.window@
    }

    /// A stage with no readings yet; the window starts out zero.
    pub fn new() -> (r: Self)
        ensures
            r.wf(),
            r.taken() == 0,
            r.readings() == Seq::<i32>::empty(),
            r.window() == Seq::new(CALIBRATION_WINDOW as nat, |i: int| 0i32),
    {
        let mut window: Vec<i32> = Vec::new();
        let mut i: usize = 0;
        while i < CALIBRATION_WINDOW
            invariant
                i <= CALIBRATION_WINDOW,
                window@ == Seq::new(i as nat, |k: int| 0i32),
            decreases CALIBRATION_WINDOW - i,
        {
            window.push(0);
            i = i + 1;
            assert(window@ =~= Seq::new(i as nat, |k: int| 0i32));
        }
        CalibrationAverager { window, count: 0, readings: Ghost(Seq::empty()) }
    }

    /// Whether the stage has taken all its readings.
    pub fn is_done(&self) -> (r: bool)
        requires
            self.wf(),
        ensures
            r == (self.taken() == CALIBRATION_SAMPLES),
    {
        self.count == CALIBRATION_SAMPLES
    }

    /// Takes a reading, in whole converter counts, into the window, replacing
    /// the one taken a hundred readings before; once the window is full,
    /// returns the mean of the window. The mean of a hundred counts, in
    /// hundredths of a count, is exactly their sum.
    pub fn push(&mut self, raw: i32) -> (r: Option<ScaleRawWeight>)
        requires
            old(self).wf(),
            old(self).taken() < CALIBRATION_SAMPLES,
        ensures
            final(self).wf(),
            final(self).taken() == old(self).taken() + 1,
            final(self).window() == old(self).window().update(
                (old(self).taken() % CALIBRATION_WINDOW as nat) as int,
                raw,
            ),
            old(self).taken() + 1 < CALIBRATION_WINDOW ==> r is None,
            old(self).taken() + 1 >= CALIBRATION_WINDOW ==> r == Some(
                ScaleRawWeight(sum(final(self).window()) as i64),
            ),
            final(self).readings() == old(self).readings().push(raw),
            old(self).taken() + 1 >= CALIBRATION_WINDOW ==> r == Some(
                ScaleRawWeight(
                    sum(final(self).readings().subrange(old(self).taken() + 1 - 100, (old(self).taken() + 1) as int)) as i64,
                ),
            ),
    {
        let slot = self.count % CALIBRATION_WINDOW;
        self.window.set(slot, raw);
        self.count = self.count + 1;
        proof {
            let rs = self.readings@.push(raw);
            assert(rs.drop_last() =~= self.readings@);
            self.readings = Ghost(rs);
            if rs.len() >= 100 {
                lemma_window_sum(rs);
            }
        }
        if self.count >= CALIBRATION_WINDOW {
            let total = window_sum(&self.window);
            Some(ScaleRawWeight(total))
        } else {
            None
        }
    }
}

/// Sum of the readings of a window.
fn window_sum(w: &Vec<i32>) -> (r: i64)
    requires
        w@.len() <= CALIBRATION_WINDOW,
    ensures
        r == sum(w@),
{
    let mut total: i64 = 0;
    let mut i: usize = 0;
    while i < w.len()
        invariant
            w@.len() <= CALIBRATION_WINDOW,
            i <= w@.len(),
            total == sum(w@.take(i as int)),
            -0x8000_0000 * i <= total <= 0x7fff_ffff * i,
        decreases w@.len() - i,
    {
        assert(w@.take((i + 1) as int).drop_last() =~= w@.take(i as int));
        total = total + w[i] as i64;
        i = i + 1;
    }
    assert(w@.take(w@.len() as int) =~= w@);
    total
}

/// Backlight brightness for a backlight state: `None` turns the display off;
/// a dimmed backlight is at the low brightness, a lit one at full brightness.
pub open spec fn backlight_brightness_spec(b: DisplayBacklightState) -> Option<Percentage> {
    match b {
        DisplayBacklightState::Off => None,
        DisplayBacklightState::LowPower { .. } => Some(Percentage(LOW_BACKLIGHT_PERCENTAGE)),
        DisplayBacklightState::On { .. } => Some(Percentage(100)),
    }
}

/// How the display task drives the backlight for a backlight state; see
/// `backlight_brightness_spec`.
pub fn backlight_brightness(b: DisplayBacklightState) -> (r: Option<Percentage>)
    ensures
        r == backlight_brightness_spec(b),
{
    match b {
        DisplayBacklightState::Off => None,
        DisplayBacklightState::LowPower { .. } => Some(Percentage(LOW_BACKLIGHT_PERCENTAGE)),
        DisplayBacklightState::On { .. } => Some(Percentage(100)),
    }
}

/// Which kind of timer a new timer request starts.
#[derive(Copy, Clone, Debug, PartialEq, Eq, Structural)]
pub enum TimerKind {
    FadeoutLEDs,
    DimOrSleepDisplay,
}

/// Whether a pending timer is kept when a timer of kind `started` is started:
/// a new timer replaces every pending timer of its kind, and a timer that has
/// already delivered its event (`None`) is dropped.
pub open spec fn keep_pending_spec(pending: Option<Event>, started: TimerKind) -> bool {
    match pending {
        None => false,
        Some(Event::Timer(TimerEvent::FadeoutLEDs { .. })) => started != TimerKind::FadeoutLEDs,
        Some(Event::Timer(TimerEvent::DimOrSleepDisplay { .. })) => started != TimerKind::DimOrSleepDisplay,
        Some(_) => true,
    }
}

/// Decides whether the event loop keeps a pending timer when it starts a new
/// one; see `keep_pending_spec`.
pub fn keep_pending(pending: Option<&Event>, started: TimerKind) -> (r: bool)
    ensures
        r == keep_pending_spec(
            match pending {
                Some(e) => Some(*e),
                None => None,
            },
            started,
        ),
{
    match pending {
        None => false,
        Some(Event::Timer(TimerEvent::FadeoutLEDs { .. })) => started != TimerKind::FadeoutLEDs,
        Some(Event::Timer(TimerEvent::DimOrSleepDisplay { .. })) => started != TimerKind::DimOrSleepDisplay,
        Some(_) => true,
    }
}

/// After a timer is started, at most one timer of its kind is pending: every
/// pending one of that kind is dropped.
pub proof fn lemma_new_timer_replaces_its_kind(e: Event)
    ensures
        (e matches Event::Timer(TimerEvent::FadeoutLEDs { .. })) ==> !keep_pending_spec(Some(e), TimerKind::FadeoutLEDs),
        (e matches Event::Timer(TimerEvent::DimOrSleepDisplay { .. })) ==> !keep_pending_spec(Some(e), TimerKind::DimOrSleepDisplay),
        (e matches Event::Timer(TimerEvent::FadeoutLEDs { .. })) ==> keep_pending_spec(Some(e), TimerKind::DimOrSleepDisplay),
        (e matches Event::Timer(TimerEvent::DimOrSleepDisplay { .. })) ==> keep_pending_spec(Some(e), TimerKind::FadeoutLEDs),
{
}

/// Which calibration stage the load cell task runs when it is next asked to
/// enter or progress calibration: first the empty scale, then the 50 g
/// weight, then the request that applies the calibration ends it.
#[derive(Copy, Clone, Debug, PartialEq, Eq, Structural)]
pub enum CalibrationStage {
    Tare,
    FiftyGram,
    Finish,
}

impl CalibrationStage {
    /// The stage after this one, wrapping around to a new calibration.
    pub fn advance(&mut self)
        ensures
            *old(self) == CalibrationStage::Tare ==> *final(self) == CalibrationStage::FiftyGram,
            *old(self) == CalibrationStage::FiftyGram ==> *final(self) == CalibrationStage::Finish,
            *old(self) == CalibrationStage::Finish ==> *final(self) == CalibrationStage::Tare,
    {
        *self = match *self {
            CalibrationStage::Tare => CalibrationStage::FiftyGram,
            CalibrationStage::FiftyGram => CalibrationStage::Finish,
            CalibrationStage::Finish => CalibrationStage::Tare,
        };
    }
}

} // verus!
