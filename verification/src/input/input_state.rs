use crate::input::inputs::{input_index, Input, INPUTS, MAX_KEY};
use std::convert::Into;
use std::time::{Duration, Instant};
use vstd::prelude::*;
use vstd::std_specs::convert::IntoSpec;

verus! {

/// A moment of the clock, `std::time::Instant`. Nothing is read of it but
/// the time that has passed since.
#[verifier::external_type_specification]
#[verifier::external_body]
pub struct ExInstant(Instant);

/// Reads the clock with `Instant::now`. Nothing is claimed of the instant:
/// it is whatever the clock says.
#[verifier::external_body]
fn now() -> (instant: Instant) {
    Instant::now()
}

/// Calls `Instant::elapsed` and gives the time since `start` in
/// nanoseconds, as `Duration::as_nanos` counts them. Nothing is claimed of
/// the number: it is whatever the clock says.
#[verifier::external_body]
fn nanoseconds_since(start: &Instant) -> (nanos: u128) {
    start.elapsed().as_nanos()
}

/// Calls `Duration::as_nanos`, which gives a duration in nanoseconds.
#[verifier::external_body]
fn nanoseconds(duration: Duration) -> (nanos: u128) {
    duration.as_nanos()
}

/// What an [`InputState`] holds, as contracts see it: for each place
/// among the inputs whether the input is down, and when it was last
/// pressed and released, if ever. Times count nanoseconds from the moment
/// at which the state was created.
pub struct InputView {
    pub pressed: Seq<bool>,
    pub press_times: Seq<Option<u128>>,
    pub release_times: Seq<Option<u128>>,
}

/// The time from `then` to `now`, and no time at all where `then` is the
/// later one.
pub open spec fn elapsed(now: u128, then: u128) -> int {
    if now >= then {
        now - then
    } else {
        0
    }
}

impl InputView {
    /// The state in which every input is up and was never pressed or
    /// released.
    pub open spec fn fresh() -> InputView {
        InputView {
            pressed: Seq::new(INPUTS as nat, |i: int| false),
            press_times: Seq::new(INPUTS as nat, |i: int| None::<u128>),
            release_times: Seq::new(INPUTS as nat, |i: int| None::<u128>),
        }
    }

    /// The state after the input at `index` was pressed at the time
    /// `time`: an input that is down stays as it is.
    pub open spec fn press(self, index: int, time: u128) -> InputView {
        if self.pressed[index] {
            self
        } else {
            InputView {
                pressed: self.pressed.update(index, true),
                press_times: self.press_times.update(index, Some(time)),
                release_times: self.release_times,
            }
        }
    }

    /// The state after the input at `index` was released at the time
    /// `time`: an input that is up stays as it is.
    pub open spec fn release(self, index: int, time: u128) -> InputView {
        if self.pressed[index] {
            InputView {
                pressed: self.pressed.update(index, false),
                press_times: self.press_times,
                release_times: self.release_times.update(index, Some(time)),
            }
        } else {
            self
        }
    }

    /// The times of the last presses, or of the last releases.
    pub open spec fn times(self, is_pressed: bool) -> Seq<Option<u128>> {
        if is_pressed {
            self.press_times
        } else {
            self.release_times
        }
    }

    /// Whether at the time `now` the last press (or, with `is_pressed`
    /// false, the last release) of the input at `index` lies no more than
    /// `limit` nanoseconds back.
    pub open spec fn within(self, index: int, limit: u128, is_pressed: bool, now: u128) -> bool {
        self.times(is_pressed)[index] matches Some(then) && elapsed(now, then) <= limit
    }
}

/// Manages storing the current state of all the applications possible inputs.
pub struct InputState {
    /// The moment from which the times below count.
    start: Instant,
    states: [bool; INPUTS],
    press_timestamps: [Option<u128>; INPUTS],
    releaste_timestamps: [Option<u128>; INPUTS],
}

impl View for InputState {
    type V = InputView;

    closed spec fn view(&self) -> InputView {
        InputView {
            pressed: self.states@,
            press_times: self.press_timestamps@,
            release_times: self.releaste_timestamps@,
        }
    }
}

impl Default for InputState {
    fn default() -> (state: Self)
        ensures
            state@ == InputView::fresh(),
    {
        let state = Self {
            start: now(),
            states: [false; INPUTS],
            press_timestamps: [None; INPUTS],
            releaste_timestamps: [None; INPUTS],
        };
        assert(state@.pressed =~= InputView::fresh().pressed);
        assert(state@.press_times =~= InputView::fresh().press_times);
        assert(state@.release_times =~= InputView::fresh().release_times);
        state
    }
}

impl InputState {
    /// Creates a fresh [`InputState`]: every input is up and was never
    /// pressed or released.
    pub fn new() -> (state: Self)
        ensures
            state@ == InputView::fresh(),
    {
        Default::default()
    }

    /// The place of an input among all inputs.
    pub fn get_state_index(input: Input) -> (index: usize)
        ensures
            index == input_index(input),
            index < INPUTS,
    {
        match input {
            Input::Keyboard(key) => key as usize,
            Input::Mouse(input) => (input as usize) + 1 + MAX_KEY,
        }
    }

    /// The time of the clock: the nanoseconds since this state was
    /// created.
    pub fn clock(&self) -> (now: u128) {
        nanoseconds_since(&self.start)
    }

    /// Whether `input` is down.
    pub fn is_down(&self, input: Input) -> (pressed: bool)
        ensures
            pressed == self@.pressed[input_index(input)],
    {
        self.states[Self::get_state_index(input)]
    }

    /// Checks if an [`Input`] is currently pressed.
    pub fn check_pressed<I: Into<Input>>(&self, input: I) -> (pressed: bool)
        ensures
            I::obeys_into_spec() ==> pressed == self@.pressed[input_index(input.into_spec())],
    {
        self.is_down(input.into())
    }

    /// Checks if an [`Input`] is currently released.
    pub fn check_released<I: Into<Input>>(&self, input: I) -> (released: bool)
        ensures
            I::obeys_into_spec() ==> released == !self@.pressed[input_index(input.into_spec())],
    {
        !self.is_down(input.into())
    }

    /// Records that `input` was pressed at the time `time`. An input that
    /// is down already stays as it is.
    pub fn signal_press_at(&mut self, input: Input, time: u128)
        ensures
            final(self)@ == old(self)@.press(input_index(input), time),
    {
        let index: usize = Self::get_state_index(input);
        if !self.states[index] {
            self.states[index] = true;
            self.press_timestamps[index] = Some(time);
        }
    }

    /// Records that `input` was released at the time `time`. An input that
    /// is up already stays as it is.
    pub fn signal_release_at(&mut self, input: Input, time: u128)
        ensures
            final(self)@ == old(self)@.release(input_index(input), time),
    {
        let index: usize = Self::get_state_index(input);
        if self.states[index] {
            self.states[index] = false;
            self.releaste_timestamps[index] = Some(time);
        }
    }

    /// Signals to the [`InputState`] that a specific input was pressed.
    ///
    /// Will ignore if the input is already pressed. Otherwise the input is
    /// down from now on, and the time of the press is the clock's.
    pub fn signal_press_of<I: Into<Input>>(&mut self, input: I)
        ensures
            I::obeys_into_spec() ==> exists|time: u128|
                final(self)@ == #[trigger] old(self)@.press(input_index(input.into_spec()), time),
    {
        let time: u128 = self.clock();
        self.signal_press_at(input.into(), time);
    }

    /// Signals to the [`InputState`] that a specific input was released.
    ///
    /// Will ignore if the input is not pressed. Otherwise the input is up
    /// from now on, and the time of the release is the clock's.
    pub fn signal_release_of<I: Into<Input>>(&mut self, input: I)
        ensures
            I::obeys_into_spec() ==> exists|time: u128|
                final(self)@ == #[trigger] old(self)@.release(
                    input_index(input.into_spec()),
                    time,
                ),
    {
        let time: u128 = self.clock();
        self.signal_release_at(input.into(), time);
    }

    /// Checks whether at the time `now` the last press of `input` (or, with
    /// `is_pressed` false, its last release) lies no more than `limit`
    /// nanoseconds back. What never happened lies within no limit.
    pub fn check_within_at(&self, input: Input, limit: u128, is_pressed: bool, now: u128) -> (recent:
        bool)
        ensures
            recent == self@.within(input_index(input), limit, is_pressed, now),
    {
        let index: usize = Self::get_state_index(input);
        let timestamp: Option<u128> = if is_pressed {
            self.press_timestamps[index]
        } else {
            self.releaste_timestamps[index]
        };
        // Check if the input timestamp is within 'limit' from now.
        match timestamp {
            Some(then) => {
                let input_duration: u128 = if now >= then {
                    now - then
                } else {
                    0
                };
                input_duration <= limit
            },
            None => false,
        }
    }

    /// Checks whether `input` was last pressed (or, with `is_pressed`
    /// false, last released) no longer than `duration` before the clock's
    /// now.
    pub fn check_within_duration(&self, input: Input, duration: Duration, is_pressed: bool) -> (recent:
        bool)
        ensures
            exists|limit: u128, now: u128|
                recent == #[trigger] self@.within(input_index(input), limit, is_pressed, now),
            self@.times(is_pressed)[input_index(input)] is None ==> !recent,
    {
        let limit: u128 = nanoseconds(duration);
        let now: u128 = self.clock();
        self.check_within_at(input, limit, is_pressed, now)
    }

    /// Checks if an [`Input`] was pressed within a [`Duration`].
    ///
    /// This is useful for checking if an [`Input`] was just pressed rather than if it is held
    /// down.
    pub fn check_pressed_within<I: Into<Input>>(&self, input: I, duration: Duration) -> (recent:
        bool)
        ensures
            I::obeys_into_spec() ==> exists|limit: u128, now: u128|
                recent == #[trigger] self@.within(
                    input_index(input.into_spec()),
                    limit,
                    true,
                    now,
                ),
            I::obeys_into_spec() ==> (self@.press_times[input_index(input.into_spec())] is None
                ==> !recent),
    {
        self.check_within_duration(input.into(), duration, true)
    }

    /// Checks if an [`Input`] was released within a [`Duration`].
    ///
    /// This is useful for checking if an [`Input`] was just released rather than if it isn't
    /// held down.
    pub fn check_released_within<I: Into<Input>>(&self, input: I, duration: Duration) -> (recent:
        bool)
        ensures
            I::obeys_into_spec() ==> exists|limit: u128, now: u128|
                recent == #[trigger] self@.within(
                    input_index(input.into_spec()),
                    limit,
                    false,
                    now,
                ),
            I::obeys_into_spec() ==> (self@.release_times[input_index(input.into_spec())] is None
                ==> !recent),
    {
        self.check_within_duration(input.into(), duration, false)
    }
}

} // verus!
