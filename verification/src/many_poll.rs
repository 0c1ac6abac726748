use vstd::prelude::*;

use crate::lights::{LightId, Lights, OnOff};
use crate::polled::{poll_overflows, FlashPolled, FlashPolledView};
use crate::time::{Duration, TimeAdd, TimeError};

verus! {

/// The state `light_id` shows after the flashers `fs` are polled in order at
/// `now`, none of them overflowing, starting from `before`: that of the last
/// flasher of the light that was due, or `before` where none was.
pub open spec fn shown_after(
    fs: Seq<FlashPolledView>,
    now: int,
    light_id: LightId,
    before: OnOff,
) -> OnOff
    decreases fs.len(),
{
    if fs.len() == 0 {
        before
    } else {
        let f = fs.last();
        if f.due(now) && f.light == light_id {
            f.next_flash_state
        } else {
            shown_after(fs.drop_last(), now, light_id, before)
        }
    }
}

/// The `set_state` calls, as light and state, that polling the flashers `fs`
/// in order at `now` makes, none of them overflowing: one for each flasher
/// that was due, in order.
pub open spec fn round_calls(fs: Seq<FlashPolledView>, now: int) -> Seq<(LightId, OnOff)>
    decreases fs.len(),
{
    if fs.len() == 0 {
        Seq::empty()
    } else {
        let f = fs.last();
        let earlier = round_calls(fs.drop_last(), now);
        if f.due(now) {
            earlier.push((f.light, f.next_flash_state))
        } else {
            earlier
        }
    }
}

/// The flashers after the first `k` of them were polled at `now`.
pub open spec fn polled_through(fs: Seq<FlashPolledView>, now: int, k: int) -> Seq<
    FlashPolledView,
> {
    Seq::new(fs.len(), |j: int| if j < k { fs[j].after_poll(now) } else { fs[j] })
}

/// Whether `k` is the first flasher of `fs` whose poll at `now` overflows.
pub open spec fn first_overflow<T: TimeAdd>(fs: Seq<FlashPolledView>, now: T, k: int) -> bool {
    &&& 0 <= k < fs.len()
    &&& poll_overflows(fs[k], now)
    &&& forall|j: int| 0 <= j < k ==> !poll_overflows(#[trigger] fs[j], now)
}

/// Whether some flasher of `fs` overflows when polled at `now`.
pub open spec fn some_overflow<T: TimeAdd>(fs: Seq<FlashPolledView>, now: T) -> bool {
    exists|j: int| 0 <= j < fs.len() && poll_overflows(#[trigger] fs[j], now)
}

/// A light that no due flasher drives keeps its state through a round.
pub proof fn lemma_undriven_light_keeps_state(
    fs: Seq<FlashPolledView>,
    now: int,
    light_id: LightId,
    before: OnOff,
)
    requires
        forall|j: int| 0 <= j < fs.len() ==> !(#[trigger] fs[j].due(now) && fs[j].light == light_id),
    ensures
        shown_after(fs, now, light_id, before) == before,
    decreases fs.len(),
{
    if fs.len() > 0 {
        let rest = fs.drop_last();
        assert forall|j: int| 0 <= j < rest.len() implies !(#[trigger] rest[j].due(now)
            && rest[j].light == light_id) by {
            assert(rest[j] == fs[j]);
        }
        assert(!(fs[fs.len() - 1].due(now) && fs[fs.len() - 1].light == light_id));
        lemma_undriven_light_keeps_state(rest, now, light_id, before);
    }
}

/// A round in which no flasher is due cannot overflow and changes no flasher.
pub proof fn lemma_quiet_round_changes_nothing<T: TimeAdd>(fs: Seq<FlashPolledView>, now: T)
    requires
        forall|j: int| 0 <= j < fs.len() ==> !(#[trigger] fs[j].due(now.position())),
    ensures
        !some_overflow(fs, now),
        polled_through(fs, now.position(), fs.len() as int) == fs,
{
    assert(polled_through(fs, now.position(), fs.len() as int) =~= fs);
}

/// A round polls every flasher, whatever its position: after a whole round
/// each flasher is what polling it alone at `now` gives; a flasher whose poll
/// overflows, wherever it stands, makes the round overflow; and a round with
/// no overflow makes no overflow at all.
pub proof fn lemma_round_polls_every_flasher<T: TimeAdd>(fs: Seq<FlashPolledView>, now: T)
    ensures
        polled_through(fs, now.position(), fs.len() as int).len() == fs.len(),
        forall|i: int|
            0 <= i < fs.len() ==> #[trigger] polled_through(fs, now.position(), fs.len() as int)[i]
                == fs[i].after_poll(now.position()),
        forall|i: int| 0 <= i < fs.len() && poll_overflows(#[trigger] fs[i], now) ==> some_overflow(fs, now),
        !some_overflow(fs, now) ==> forall|i: int| 0 <= i < fs.len() ==> !poll_overflows(#[trigger] fs[i], now),
{
}

/// A round makes one `set_state` call for each due flasher and no other: the
/// calls are, in order, the light and next state of the flashers that are due.
pub proof fn lemma_round_calls_are_the_due_flashers(fs: Seq<FlashPolledView>, now: int)
    ensures
        round_calls(fs, now) == fs.filter(|f: FlashPolledView| f.due(now)).map_values(
            |f: FlashPolledView| (f.light, f.next_flash_state),
        ),
    decreases fs.len(),
{
    reveal(Seq::filter);
    if fs.len() > 0 {
        lemma_round_calls_are_the_due_flashers(fs.drop_last(), now);
        let due = |f: FlashPolledView| f.due(now);
        let call = |f: FlashPolledView| (f.light, f.next_flash_state);
        assert(fs.filter(due) == if due(fs.last()) {
            fs.drop_last().filter(due).push(fs.last())
        } else {
            fs.drop_last().filter(due)
        });
        if due(fs.last()) {
            assert(fs.drop_last().filter(due).push(fs.last()).map_values(call) =~= fs.drop_last().filter(
                due,
            ).map_values(call).push(call(fs.last())));
        }
    } else {
        assert(fs.filter(|f: FlashPolledView| f.due(now)) =~= Seq::<FlashPolledView>::empty());
    }
}

/// After a round, a light shows the next state of the last due flasher that
/// drives it, and keeps its state where no due flasher drives it.
pub proof fn lemma_last_due_driver_decides(
    fs: Seq<FlashPolledView>,
    now: int,
    light_id: LightId,
    before: OnOff,
    j: int,
)
    requires
        0 <= j < fs.len(),
        fs[j].due(now),
        fs[j].light == light_id,
        forall|k: int| j < k < fs.len() ==> !(#[trigger] fs[k].due(now) && fs[k].light == light_id),
    ensures
        shown_after(fs, now, light_id, before) == fs[j].next_flash_state,
    decreases fs.len(),
{
    if j < fs.len() - 1 {
        let rest = fs.drop_last();
        assert(!(fs[fs.len() - 1].due(now) && fs[fs.len() - 1].light == light_id));
        assert forall|k: int| j < k < rest.len() implies !(#[trigger] rest[k].due(now)
            && rest[k].light == light_id) by {
            assert(rest[k] == fs[k]);
        }
        assert(rest[j] == fs[j]);
        lemma_last_due_driver_decides(rest, now, light_id, before, j);
    }
}

/// A container for several `FlashPolled` flashers, polled together.
pub struct ManyPoll<T> {
    flashers: Vec<FlashPolled<T>>,
}

impl<T: TimeAdd> View for ManyPoll<T> {
    type V = Seq<FlashPolledView>;

    closed spec fn view(&self) -> Seq<FlashPolledView> {
        self.flashers@.map_values(|f: FlashPolled<T>| f@)
    }
}

impl<T: TimeAdd> ManyPoll<T> {
    /// Creates a `ManyPoll` that manages the given flashers, in their order.
    pub fn new(flashers: Vec<FlashPolled<T>>) -> (m: ManyPoll<T>)
        ensures
            m@ == flashers@.map_values(|f: FlashPolled<T>| f@),
    {
        ManyPoll { flashers }
    }

    /// The number of flashers managed.
    pub fn len(&self) -> (n: usize)
        ensures
            n == self@.len(),
    {
        self.flashers.len()
    }

    /// The flasher at position `i`.
    pub fn flasher(&self, i: usize) -> (f: &FlashPolled<T>)
        requires
            i < self@.len(),
        ensures
            f@ == self@[i as int],
    {
        &self.flashers[i]
    }

    /// Polls every flasher in order at clock reading `now`.
    ///
    /// Where a flasher's poll overflows, polling stops there with
    /// `Err(Overflow)`: the flashers before it have been polled, it and the
    /// ones after it are unchanged.
    pub fn poll<L: Lights>(&mut self, lights: &mut L, now: &T) -> (r: Result<(), TimeError>)
        ensures
            r is Ok <==> !some_overflow(old(self)@, *now),
            r is Ok ==> final(self)@ == polled_through(
                old(self)@,
                now.position(),
                old(self)@.len() as int,
            ),
            r is Ok ==> forall|light_id: LightId| #[trigger]
                final(lights).light_state(light_id) == shown_after(
                    old(self)@,
                    now.position(),
                    light_id,
                    old(lights).light_state(light_id),
                ),
            r is Ok ==> final(lights).set_state_calls() == old(lights).set_state_calls()
                + round_calls(old(self)@, now.position()),
            r is Err ==> exists|k: int|
                {
                    &&& first_overflow(old(self)@, *now, k)
                    &&& final(lights).set_state_calls() == old(lights).set_state_calls()
                        + round_calls(old(self)@.take(k), now.position())
                    &&& final(self)@ == polled_through(old(self)@, now.position(), k)
                    &&& forall|light_id: LightId| #[trigger]
                        final(lights).light_state(light_id) == shown_after(
                            old(self)@.take(k),
                            now.position(),
                            light_id,
                            old(lights).light_state(light_id),
                        )
                },
    {
        let ghost fs = self@;
        let ghost start_lights = *lights;
        let ghost t = now.position();
        let n: usize = self.flashers.len();
        let mut i: usize = 0;
        assert(fs.take(0) =~= Seq::<FlashPolledView>::empty());
        assert(self@ =~= polled_through(fs, t, 0));
        assert(start_lights.set_state_calls() + round_calls(fs.take(0), t)
            =~= start_lights.set_state_calls());
        while i < n
            invariant
                0 <= i <= n,
                fs == old(self)@,
                start_lights == *old(lights),
                t == now.position(),
                n == fs.len(),
                self.flashers.len() == n,
                self@ == polled_through(fs, t, i as int),
                forall|j: int| 0 <= j < i ==> !poll_overflows(#[trigger] fs[j], *now),
                forall|light_id: LightId| #[trigger]
                    lights.light_state(light_id) == shown_after(
                        fs.take(i as int),
                        t,
                        light_id,
                        start_lights.light_state(light_id),
                    ),
                lights.set_state_calls() == start_lights.set_state_calls() + round_calls(
                    fs.take(i as int),
                    t,
                ),
            decreases n - i,
        {
            let ghost prev = self.flashers@;
            let ghost lights_before = *lights;
            assert(self@[i as int] == prev[i as int]@);
            assert(prev[i as int]@ == fs[i as int]);
            assert forall|j: int| 0 <= j < n implies #[trigger] prev[j]@ == polled_through(
                fs,
                t,
                i as int,
            )[j] by {
                assert(self@[j] == prev[j]@);
            }
            match self.flashers[i].poll(lights, now) {
                Ok(()) => {},
                Err(e) => {
                    assert(poll_overflows(fs[i as int], *now));
                    assert(first_overflow(fs, *now, i as int));
                    return Err(e);
                },
            }
            proof {
                assert(fs.take(i + 1).drop_last() =~= fs.take(i as int));
                assert(fs.take(i + 1).last() == fs[i as int]);
                assert forall|light_id: LightId| #[trigger]
                    lights.light_state(light_id) == shown_after(
                        fs.take(i + 1),
                        t,
                        light_id,
                        start_lights.light_state(light_id),
                    ) by {
                    assert(lights_before.light_state(light_id) == shown_after(
                        fs.take(i as int),
                        t,
                        light_id,
                        start_lights.light_state(light_id),
                    ));
                }
                assert forall|j: int| 0 <= j < n implies #[trigger] self@[j] == polled_through(
                    fs,
                    t,
                    i + 1,
                )[j] by {
                    assert(self@[j] == self.flashers@[j]@);
                    if j != i {
                        assert(self.flashers@[j] == prev[j]);
                    }
                }
                assert(self@ =~= polled_through(fs, t, i + 1));
                let f = fs[i as int];
                let before_calls = start_lights.set_state_calls() + round_calls(
                    fs.take(i as int),
                    t,
                );
                if f.due(t) {
                    assert(start_lights.set_state_calls() + round_calls(fs.take(i + 1), t)
                        =~= before_calls.push((f.light, f.next_flash_state)));
                } else {
                    assert(round_calls(fs.take(i + 1), t) == round_calls(fs.take(i as int), t));
                }
            }
            i = i + 1;
        }
        assert(fs.take(n as int) =~= fs);
        Ok(())
    }
}

/// Collects the period and light of each flasher before the flashers are
/// started together.
pub struct ManyPollBuilder {
    flashers: Vec<(Duration, LightId)>,
}

impl View for ManyPollBuilder {
    type V = Seq<(nat, LightId)>;

    closed spec fn view(&self) -> Seq<(nat, LightId)> {
        self.flashers@.map_values(|p: (Duration, LightId)| (p.0@, p.1))
    }
}

impl ManyPollBuilder {
    /// A builder with no flashers.
    pub fn new() -> (b: ManyPollBuilder)
        ensures
            b@ == Seq::<(nat, LightId)>::empty(),
    {
        ManyPollBuilder { flashers: Vec::new() }
    }

    /// Adds a flasher that toggles `light` with the given period.
    pub fn add_flasher(&mut self, period: Duration, light: LightId)
        ensures
            final(self)@ == old(self)@.push((period@, light)),
    {
        self.flashers.push((period, light));
        assert(self@ =~= old(self)@.push((period@, light)));
    }

    /// Starts every flasher at `start_time`, in the order they were added:
    /// each first toggles (to `On`) one period after `start_time`.
    /// `Err(Overflow)` where one of those first toggle times overflows.
    pub fn init<T: TimeAdd>(&self, start_time: &T) -> (r: Result<ManyPoll<T>, TimeError>)
        ensures
            r is Ok <==> forall|i: int|
                0 <= i < self@.len() ==> start_time.can_add(#[trigger] self@[i].0),
            r matches Ok(m) ==> m@.len() == self@.len() && forall|i: int|
                0 <= i < self@.len() ==> #[trigger] m@[i] == (FlashPolledView {
                    light: self@[i].1,
                    period: self@[i].0,
                    next_toggle_time: start_time.position() + self@[i].0,
                    next_flash_state: OnOff::On,
                }),
    {
        let mut flashers: Vec<FlashPolled<T>> = Vec::new();
        let n: usize = self.flashers.len();
        let mut i: usize = 0;
        while i < n
            invariant
                0 <= i <= n,
                n == self@.len(),
                n == self.flashers@.len(),
                flashers@.len() == i,
                forall|j: int| 0 <= j < i ==> start_time.can_add(#[trigger] self@[j].0),
                forall|j: int|
                    0 <= j < i ==> #[trigger] flashers@[j]@ == (FlashPolledView {
                        light: self@[j].1,
                        period: self@[j].0,
                        next_toggle_time: start_time.position() + self@[j].0,
                        next_flash_state: OnOff::On,
                    }),
            decreases n - i,
        {
            let (period, light) = self.flashers[i];
            assert(self@[i as int] == (period@, light));
            match FlashPolled::with_period(light, period, start_time) {
                Some(f) => flashers.push(f),
                None => {
                    assert(!start_time.can_add(self@[i as int].0));
                    return Err(TimeError::Overflow);
                },
            }
            i = i + 1;
        }
        let m = ManyPoll::new(flashers);
        Ok(m)
    }
}

} // verus!
