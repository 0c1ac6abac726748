use vstd::prelude::*;

use crate::lights::{LightId, Lights, OnOff};
use crate::time::{Duration, TimeAdd, TimeError, NANOS_PER_SEC};

verus! {

/// What a polled flasher holds, as mathematical values.
pub struct FlashPolledView {
    /// The light it toggles.
    pub light: LightId,
    /// Nanoseconds between a toggle and the earliest next one.
    pub period: nat,
    /// The position on the time line from which the next toggle is due.
    pub next_toggle_time: int,
    /// The state the light takes at the next toggle.
    pub next_flash_state: OnOff,
}

impl FlashPolledView {
    /// Whether a poll at position `now` finds the toggle due.
    pub open spec fn due(self, now: int) -> bool {
        now >= self.next_toggle_time
    }

    /// The flasher after a poll at position `now` that did not overflow: where
    /// the toggle was due, the next one is one period after `now`, with the
    /// other state.
    pub open spec fn after_poll(self, now: int) -> FlashPolledView {
        if self.due(now) {
            FlashPolledView {
                next_toggle_time: now + self.period,
                next_flash_state: self.next_flash_state.opposite(),
                ..self
            }
        } else {
            self
        }
    }
}

/// Whether a poll of `f` at `now` finds the toggle due but cannot schedule
/// the next one.
pub open spec fn poll_overflows<T: TimeAdd>(f: FlashPolledView, now: T) -> bool {
    f.due(now.position()) && !now.can_add(f.period)
}

/// A poll keeps the flasher's light and period and never moves its next
/// toggle time back; a poll that toggles schedules the next toggle exactly one
/// period after the poll.
pub proof fn lemma_poll_moves_schedule_forward(f: FlashPolledView, now: int)
    ensures
        f.after_poll(now).light == f.light,
        f.after_poll(now).period == f.period,
        f.after_poll(now).next_toggle_time >= f.next_toggle_time,
        f.due(now) ==> f.after_poll(now).next_toggle_time == now + f.period,
{
}

/// With a positive period a light is toggled at most once per instant: a
/// second poll at the same time changes nothing.
pub proof fn lemma_poll_toggles_once_per_instant(f: FlashPolledView, now: int)
    requires
        f.period > 0,
    ensures
        !f.after_poll(now).due(now),
        f.after_poll(now).after_poll(now) == f.after_poll(now),
{
}

/// Toggles alternate: two polls that both toggle leave the next state where it was.
pub proof fn lemma_two_toggles_restore_state(f: FlashPolledView, first: int, second: int)
    requires
        f.due(first),
        f.after_poll(first).due(second),
    ensures
        f.after_poll(first).next_flash_state == f.next_flash_state.opposite(),
        f.after_poll(first).after_poll(second).next_flash_state == f.next_flash_state,
{
}

/// The flasher `f` after polls at the positions `times`, in order, none of
/// them overflowing.
pub open spec fn after_polls(f: FlashPolledView, times: Seq<int>) -> FlashPolledView
    decreases times.len(),
{
    if times.len() == 0 {
        f
    } else {
        after_polls(f, times.drop_last()).after_poll(times.last())
    }
}

/// The `set_state` calls, as light and state, that polls of `f` at `times`
/// make, in order.
pub open spec fn poll_calls(f: FlashPolledView, times: Seq<int>) -> Seq<(LightId, OnOff)>
    decreases times.len(),
{
    if times.len() == 0 {
        Seq::empty()
    } else {
        let g = after_polls(f, times.drop_last());
        let earlier = poll_calls(f, times.drop_last());
        if g.due(times.last()) {
            earlier.push((g.light, g.next_flash_state))
        } else {
            earlier
        }
    }
}

/// The positions, among `times`, of the polls of `f` that toggled its light.
pub open spec fn toggle_times(f: FlashPolledView, times: Seq<int>) -> Seq<int>
    decreases times.len(),
{
    if times.len() == 0 {
        Seq::empty()
    } else {
        let g = after_polls(f, times.drop_last());
        let earlier = toggle_times(f, times.drop_last());
        if g.due(times.last()) {
            earlier.push(times.last())
        } else {
            earlier
        }
    }
}

/// The state of the `j`-th toggle (counting from 0) of a flasher whose next
/// state is `first`: `first`, then the other state, and so on.
pub open spec fn alternating(first: OnOff, j: int) -> OnOff {
    if j % 2 == 0 {
        first
    } else {
        first.opposite()
    }
}

/// The alternation starts with the given state and each step flips it.
pub proof fn lemma_alternating_flips(first: OnOff, j: nat)
    ensures
        alternating(first, 0) == first,
        alternating(first, (j + 1) as int) == alternating(first, j as int).opposite(),
        alternating(first, (j + 1) as int) != alternating(first, j as int),
{
}

/// Over any sequence of polls, a flasher sets only its own light, alternates
/// the states it sets starting with its next state, makes its first toggle no
/// earlier than its next toggle time and each later toggle at least one
/// period after the one before; so its `j`-th toggle (counting from 0) comes
/// no earlier than `j` periods after its next toggle time.
pub proof fn lemma_polls_alternate(f: FlashPolledView, times: Seq<int>)
    ensures
        ({
            let g = after_polls(f, times);
            let calls = poll_calls(f, times);
            let toggles = toggle_times(f, times);
            let n = calls.len();
            &&& g.light == f.light
            &&& g.period == f.period
            &&& toggles.len() == n
            &&& forall|j: int|
                0 <= j < n ==> #[trigger] calls[j] == (f.light, alternating(
                    f.next_flash_state,
                    j,
                ))
            &&& g.next_flash_state == alternating(f.next_flash_state, n as int)
            &&& n == 0 ==> g.next_toggle_time == f.next_toggle_time
            &&& n > 0 ==> g.next_toggle_time == toggles[n - 1] + f.period
            &&& n > 0 ==> toggles[0] >= f.next_toggle_time
            &&& forall|j: int|
                0 <= j < n - 1 ==> #[trigger] toggles[j + 1] >= toggles[j] + f.period
            &&& forall|j: int|
                0 <= j < n ==> #[trigger] toggles[j] >= f.next_toggle_time + j * f.period
        }),
    decreases times.len(),
{
    if times.len() > 0 {
        let earlier = times.drop_last();
        lemma_polls_alternate(f, earlier);
        let g = after_polls(f, earlier);
        let calls = poll_calls(f, earlier);
        let toggles = toggle_times(f, earlier);
        let n = calls.len();
        let t = times.last();
        if g.due(t) {
            let new_toggles = toggles.push(t);
            assert(new_toggles[n as int] == t);
            assert forall|j: int| 0 <= j < n + 1 implies #[trigger] new_toggles[j]
                >= f.next_toggle_time + j * f.period by {
                if j == n && n > 0 {
                    assert(toggles[n - 1] >= f.next_toggle_time + (n - 1) * f.period);
                    assert(f.next_toggle_time + (n - 1) * f.period + f.period
                        == f.next_toggle_time + n * f.period) by (nonlinear_arith);
                } else if j == n {
                    assert(j * f.period == 0) by (nonlinear_arith)
                        requires
                            j == 0,
                    ;
                } else {
                    assert(new_toggles[j] == toggles[j]);
                }
            }
            assert forall|j: int| 0 <= j < n + 1 implies #[trigger] calls.push(
                (g.light, g.next_flash_state),
            )[j] == (f.light, alternating(f.next_flash_state, j)) by {
                if j < n {
                    assert(calls.push((g.light, g.next_flash_state))[j] == calls[j]);
                }
            }
            assert forall|j: int| 0 <= j < n implies #[trigger] new_toggles[j + 1]
                >= new_toggles[j] + f.period by {
                if j < n - 1 {
                    assert(new_toggles[j + 1] == toggles[j + 1]);
                }
                assert(new_toggles[j] == toggles[j]);
            }
            assert(alternating(f.next_flash_state, (n + 1) as int) == alternating(
                f.next_flash_state,
                n as int,
            ).opposite());
        }
    }
}

/// What `FlashPolled::new` holds when created at position `now`: light one, a
/// one-second period, a first toggle (to `On`) one second after `now`.
pub open spec fn new_flasher(now: int) -> FlashPolledView {
    FlashPolledView {
        light: LightId::One,
        period: NANOS_PER_SEC as nat,
        next_toggle_time: now + NANOS_PER_SEC,
        next_flash_state: OnOff::On,
    }
}

/// A flasher created at `start` and polled at any sequence of times sets only
/// light one; the states it sets alternate `On`, `Off`, `On`, ...; its `j`-th
/// toggle (counting from 0) comes no earlier than `j + 1` seconds after
/// `start`, and each toggle at least one second after the one before. A poll
/// before one second has passed toggles nothing; the first poll at or after
/// it sets light one to `On`.
pub proof fn lemma_new_flasher_polls(start: int, times: Seq<int>)
    ensures
        ({
            let f = new_flasher(start);
            let calls = poll_calls(f, times);
            let toggles = toggle_times(f, times);
            &&& toggles.len() == calls.len()
            &&& forall|j: int|
                0 <= j < calls.len() ==> #[trigger] calls[j] == (LightId::One, alternating(
                    OnOff::On,
                    j,
                ))
            &&& forall|j: int|
                0 <= j < toggles.len() ==> #[trigger] toggles[j] >= start + (j + 1)
                    * NANOS_PER_SEC
            &&& forall|j: int|
                0 <= j < toggles.len() - 1 ==> #[trigger] toggles[j + 1] >= toggles[j]
                    + NANOS_PER_SEC
        }),
        forall|now: int|
            now < start + NANOS_PER_SEC ==> !(#[trigger] new_flasher(start).due(now)),
        forall|now: int|
            now >= start + NANOS_PER_SEC ==> poll_calls(new_flasher(start), seq![now]) == seq![
                (LightId::One, OnOff::On),
            ],
{
    let f = new_flasher(start);
    lemma_polls_alternate(f, times);
    let toggles = toggle_times(f, times);
    assert forall|j: int| 0 <= j < toggles.len() implies #[trigger] toggles[j] >= start + (j + 1)
        * NANOS_PER_SEC by {
        assert(toggles[j] >= f.next_toggle_time + j * f.period);
        assert(start + NANOS_PER_SEC + j * NANOS_PER_SEC == start + (j + 1) * NANOS_PER_SEC)
            by (nonlinear_arith);
    }
    assert forall|now: int| now >= start + NANOS_PER_SEC implies poll_calls(
        new_flasher(start),
        seq![now],
    ) == seq![(LightId::One, OnOff::On)] by {
        let one = seq![now];
        assert(one.drop_last() =~= Seq::<int>::empty());
        assert(after_polls(f, one.drop_last()) == f);
        assert(poll_calls(f, one.drop_last()) =~= Seq::<(LightId, OnOff)>::empty());
        assert(poll_calls(f, one) =~= seq![(LightId::One, OnOff::On)]);
    }
}

/// A flasher that toggles one light each time it is polled after its next
/// toggle time has come, then waits one period from that poll.
pub struct FlashPolled<T> {
    light: LightId,
    period: Duration,
    next_toggle_time: T,
    next_flash_state: OnOff,
}

impl<T: TimeAdd> View for FlashPolled<T> {
    type V = FlashPolledView;

    closed spec fn view(&self) -> FlashPolledView {
        FlashPolledView {
            light: self.light,
            period: self.period@,
            next_toggle_time: self.next_toggle_time.position(),
            next_flash_state: self.next_flash_state,
        }
    }
}

impl<T: TimeAdd> FlashPolled<T> {
    /// A flasher for light one with a period of one second, whose first toggle
    /// (to `On`) comes one second after `now`.
    pub fn new(now: &T) -> (f: FlashPolled<T>)
        requires
            now.can_add(NANOS_PER_SEC as nat),
        ensures
            f@ == new_flasher(now.position()),
    {
        let period = Duration::from_secs(1);
        let next_toggle_time = now.checked_add(period).unwrap();
        FlashPolled { light: LightId::One, period, next_toggle_time, next_flash_state: OnOff::On }
    }

    /// A flasher for `light` with the given period, whose first toggle (to `On`)
    /// comes one period after `start_time`; `None` where that time cannot be represented.
    pub fn with_period(light: LightId, period: Duration, start_time: &T) -> (r: Option<
        FlashPolled<T>,
    >)
        ensures
            r is None <==> !start_time.can_add(period@),
            r matches Some(f) ==> f@ == (FlashPolledView {
                light,
                period: period@,
                next_toggle_time: start_time.position() + period@,
                next_flash_state: OnOff::On,
            }),
    {
        match start_time.checked_add(period) {
            Some(next_toggle_time) => Some(
                FlashPolled { light, period, next_toggle_time, next_flash_state: OnOff::On },
            ),
            None => None,
        }
    }

    /// The light this flasher toggles.
    pub fn light(&self) -> (l: LightId)
        ensures
            l == self@.light,
    {
        self.light
    }

    /// The time between a toggle and the earliest next one.
    pub fn period(&self) -> (d: Duration)
        ensures
            d@ == self@.period,
    {
        self.period
    }

    /// The time from which the next toggle is due.
    pub fn next_toggle_time(&self) -> (t: &T)
        ensures
            t.position() == self@.next_toggle_time,
    {
        &self.next_toggle_time
    }

    /// The state the light takes at the next toggle.
    pub fn next_flash_state(&self) -> (s: OnOff)
        ensures
            s == self@.next_flash_state,
    {
        self.next_flash_state
    }

    /// Polls the flasher at time `now`.
    ///
    /// When the toggle is due, the light is set to the next state, the next
    /// toggle is scheduled one period after `now`, and the next state flips.
    /// Otherwise nothing changes. Where the next toggle time cannot be
    /// represented, nothing changes and `Err(Overflow)` is returned.
    pub fn poll<L: Lights>(&mut self, lights: &mut L, now: &T) -> (r: Result<(), TimeError>)
        ensures
            r is Err <==> poll_overflows(old(self)@, *now),
            r is Ok ==> final(self)@ == old(self)@.after_poll(now.position()),
            r is Err ==> final(self)@ == old(self)@,
            forall|light_id: LightId| #[trigger]
                final(lights).light_state(light_id) == if r is Ok && old(self)@.due(
                    now.position(),
                ) && light_id == old(self)@.light {
                    old(self)@.next_flash_state
                } else {
                    old(lights).light_state(light_id)
                },
            final(lights).set_state_calls() == if r is Ok && old(self)@.due(now.position()) {
                old(lights).set_state_calls().push((old(self)@.light, old(self)@.next_flash_state))
            } else {
                old(lights).set_state_calls()
            },
            !old(self)@.due(now.position()) ==> *final(lights) == *old(lights),
            r is Err ==> *final(lights) == *old(lights),
    {
        proof {
            T::lemma_ordered_by_position(now, &self.next_toggle_time);
        }
        if *now >= self.next_toggle_time {
            match now.checked_add(self.period) {
                Some(next_toggle_time) => {
                    lights.set_state(self.light, self.next_flash_state);
                    self.next_toggle_time = next_toggle_time;
                    self.next_flash_state = self.next_flash_state.other();
                    Ok(())
                },
                None => Err(TimeError::Overflow),
            }
        } else {
            Ok(())
        }
    }
}

} // verus!
