use vstd::prelude::*;

use crate::lights::{LightId, Lights, OnOff};
use crate::time::{Duration, TimeAdd, TimeError};

verus! {

/// A flasher that sleeps a fixed duration between toggles of one light.
#[derive(Clone, Copy)]
pub struct FlashSleep {
    light_to_toggle: LightId,
    sleep_duration: Duration,
}

/// What a sleeping flasher is configured with, as mathematical values.
pub struct FlashSleepView {
    /// The light it toggles.
    pub light: LightId,
    /// Nanoseconds slept between two toggles.
    pub sleep_duration: nat,
}

impl View for FlashSleep {
    type V = FlashSleepView;

    closed spec fn view(&self) -> FlashSleepView {
        FlashSleepView { light: self.light_to_toggle, sleep_duration: self.sleep_duration@ }
    }
}

/// Where a sleeping flasher stands in its cycle, as mathematical values.
pub struct SleepScheduleView {
    /// The light it toggles.
    pub light: LightId,
    /// Nanoseconds slept between two wakeups.
    pub sleep_duration: nat,
    /// The position on the time line of the next wakeup.
    pub next_wakeup_time: int,
    /// The state the light takes at the next wakeup.
    pub next_flash_state: OnOff,
}

impl SleepScheduleView {
    /// The schedule after a successful wakeup: one sleep later, showing the other state.
    pub open spec fn after_wake(self) -> SleepScheduleView {
        SleepScheduleView {
            next_wakeup_time: self.next_wakeup_time + self.sleep_duration,
            next_flash_state: self.next_flash_state.opposite(),
            ..self
        }
    }
}

/// The schedule of a flasher for `light` sleeping `sleep_duration`, started at `start`.
pub open spec fn started(light: LightId, sleep_duration: nat, start: int) -> SleepScheduleView {
    SleepScheduleView {
        light,
        sleep_duration,
        next_wakeup_time: start + sleep_duration,
        next_flash_state: OnOff::On,
    }
}

/// The schedule `s` after `k` successful wakeups.
pub open spec fn woken(s: SleepScheduleView, k: nat) -> SleepScheduleView
    decreases k,
{
    if k == 0 {
        s
    } else {
        woken(s, (k - 1) as nat).after_wake()
    }
}

/// A sleeping flasher keeps its light and duration, wakes every
/// `sleep_duration` after its start, and alternates the light starting with
/// `On`: after `k` wakeups it next wakes `k + 1` sleeps after `start`, and the
/// state it then sets is `On` when `k` is even and `Off` when `k` is odd.
pub proof fn lemma_sleep_run_alternates(light: LightId, sleep_duration: nat, start: int, k: nat)
    ensures
        woken(started(light, sleep_duration, start), k).light == light,
        woken(started(light, sleep_duration, start), k).sleep_duration == sleep_duration,
        woken(started(light, sleep_duration, start), k).next_wakeup_time == start + (k + 1)
            * sleep_duration,
        woken(started(light, sleep_duration, start), k).next_flash_state == if k % 2 == 0 {
            OnOff::On
        } else {
            OnOff::Off
        },
    decreases k,
{
    let s = started(light, sleep_duration, start);
    if k == 0 {
        assert((k + 1) * sleep_duration == sleep_duration) by (nonlinear_arith)
            requires
                k == 0,
        ;
    } else {
        let j = (k - 1) as nat;
        lemma_sleep_run_alternates(light, sleep_duration, start, j);
        assert((j + 1) * sleep_duration + sleep_duration == (k + 1) * sleep_duration)
            by (nonlinear_arith)
            requires
                j + 1 == k,
        ;
        assert(woken(s, k) == woken(s, j).after_wake());
    }
}

impl FlashSleep {
    /// A flasher for `light_to_toggle` that sleeps `sleep_duration` between toggles.
    pub fn new(light_to_toggle: LightId, sleep_duration: Duration) -> (f: FlashSleep)
        ensures
            f@ == (FlashSleepView { light: light_to_toggle, sleep_duration: sleep_duration@ }),
    {
        FlashSleep { light_to_toggle, sleep_duration }
    }

    /// The light it toggles.
    pub fn light_to_toggle(&self) -> (l: LightId)
        ensures
            l == self@.light,
    {
        self.light_to_toggle
    }

    /// The duration slept between two toggles.
    pub fn sleep_duration(&self) -> (d: Duration)
        ensures
            d@ == self@.sleep_duration,
    {
        self.sleep_duration
    }

    /// The schedule of a run started at `start_time`: the first wakeup comes one
    /// sleep after `start_time` and turns the light `On`.
    /// `Err(Overflow)` where that wakeup time cannot be represented.
    pub fn start<T: TimeAdd>(&self, start_time: &T) -> (r: Result<SleepSchedule<T>, TimeError>)
        ensures
            r is Err <==> !start_time.can_add(self@.sleep_duration),
            r matches Ok(s) ==> s@ == started(
                self@.light,
                self@.sleep_duration,
                start_time.position(),
            ),
    {
        match start_time.checked_add(self.sleep_duration) {
            Some(next_wakeup_time) => Ok(
                SleepSchedule {
                    light_to_toggle: self.light_to_toggle,
                    sleep_duration: self.sleep_duration,
                    next_wakeup_time,
                    next_flash_state: OnOff::On,
                },
            ),
            None => Err(TimeError::Overflow),
        }
    }
}

/// The state of a running sleeping flasher: when it wakes next and what the
/// light then shows. The caller sleeps until `next_wakeup_time` and then calls `wake`.
pub struct SleepSchedule<T> {
    light_to_toggle: LightId,
    sleep_duration: Duration,
    next_wakeup_time: T,
    next_flash_state: OnOff,
}

impl<T: TimeAdd> View for SleepSchedule<T> {
    type V = SleepScheduleView;

    closed spec fn view(&self) -> SleepScheduleView {
        SleepScheduleView {
            light: self.light_to_toggle,
            sleep_duration: self.sleep_duration@,
            next_wakeup_time: self.next_wakeup_time.position(),
            next_flash_state: self.next_flash_state,
        }
    }
}

impl<T: TimeAdd> SleepSchedule<T> {
    /// The point in time of the next wakeup.
    pub closed spec fn next_wakeup_point(&self) -> T {
        self.next_wakeup_time
    }

    /// Whether the wakeup after the next one can be represented.
    pub open spec fn can_wake(&self) -> bool {
        self.next_wakeup_point().can_add(self@.sleep_duration)
    }

    /// The time of the next wakeup.
    pub fn next_wakeup_time(&self) -> (t: &T)
        ensures
            *t == self.next_wakeup_point(),
            t.position() == self@.next_wakeup_time,
    {
        &self.next_wakeup_time
    }

    /// The state the light takes at the next wakeup.
    pub fn next_flash_state(&self) -> (s: OnOff)
        ensures
            s == self@.next_flash_state,
    {
        self.next_flash_state
    }

    /// The light it toggles.
    pub fn light_to_toggle(&self) -> (l: LightId)
        ensures
            l == self@.light,
    {
        self.light_to_toggle
    }

    /// Handles a wakeup: schedules the next wakeup one sleep later, sets the
    /// light to the next state and flips that state.
    /// Where the next wakeup time cannot be represented, nothing changes and
    /// `Err(Overflow)` is returned.
    pub fn wake<L: Lights>(&mut self, lights: &mut L) -> (r: Result<(), TimeError>)
        ensures
            r is Err <==> !old(self).can_wake(),
            r is Ok ==> final(self)@ == old(self)@.after_wake(),
            r is Err ==> final(self)@ == old(self)@ && *final(lights) == *old(lights),
            r is Ok ==> final(lights).light_state(old(self)@.light) == old(
                self,
            )@.next_flash_state,
            r is Ok ==> final(lights).set_state_calls() == old(lights).set_state_calls().push(
                (old(self)@.light, old(self)@.next_flash_state),
            ),
            r is Ok ==> forall|other: LightId|
                other != old(self)@.light ==> #[trigger] final(lights).light_state(other) == old(
                    lights,
                ).light_state(other),
    {
        match self.next_wakeup_time.checked_add(self.sleep_duration) {
            Some(next_wakeup_time) => {
                self.next_wakeup_time = next_wakeup_time;
                lights.set_state(self.light_to_toggle, self.next_flash_state);
                self.next_flash_state = self.next_flash_state.other();
                Ok(())
            },
            None => Err(TimeError::Overflow),
        }
    }
}

} // verus!
