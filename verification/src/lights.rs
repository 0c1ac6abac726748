use vstd::prelude::*;

verus! {

/// Identifier for a specific light in the system.
///
/// The system supports five lights, each identified by a unique `LightId`.
#[derive(Clone, Copy, PartialEq, Eq, Structural, Debug)]
pub enum LightId {
    /// First light
    One,
    /// Second light
    Two,
    /// Third light
    Three,
    /// Fourth light
    Four,
    /// Fifth light
    Five,
}

/// The lights in their order, as a sequence.
pub open spec fn all_lights() -> Seq<LightId> {
    seq![LightId::One, LightId::Two, LightId::Three, LightId::Four, LightId::Five]
}

impl LightId {
    /// The zero-based position of this light among the five.
    pub open spec fn ordinal(self) -> nat {
        match self {
            LightId::One => 0,
            LightId::Two => 1,
            LightId::Three => 2,
            LightId::Four => 3,
            LightId::Five => 4,
        }
    }

    /// Returns all five lights in order.
    pub fn all() -> (lights: &'static [LightId; 5])
        ensures
            lights@ == all_lights(),
    {
        &[LightId::One, LightId::Two, LightId::Three, LightId::Four, LightId::Five]
    }

    /// Returns the zero-based index of this light.
    pub fn index(&self) -> (i: usize)
        ensures
            i == self.ordinal(),
    {
        match self {
            LightId::One => 0,
            LightId::Two => 1,
            LightId::Three => 2,
            LightId::Four => 3,
            LightId::Five => 4,
        }
    }

    /// Returns the total number of lights in the system.
    pub fn num_lights() -> (n: usize)
        ensures
            n == all_lights().len(),
    {
        5
    }
}

/// Represents the on/off state of a light.
#[derive(Clone, Copy, PartialEq, Eq, Structural, Debug)]
pub enum OnOff {
    /// Light is turned on
    On,
    /// Light is turned off
    Off,
}

impl OnOff {
    /// The opposite state, as a spec function.
    pub open spec fn opposite(self) -> OnOff {
        match self {
            OnOff::On => OnOff::Off,
            OnOff::Off => OnOff::On,
        }
    }

    /// Returns the opposite state.
    pub fn other(&self) -> (r: OnOff)
        ensures
            r == self.opposite(),
    {
        match self {
            OnOff::On => OnOff::Off,
            OnOff::Off => OnOff::On,
        }
    }
}

/// Taking the opposite state twice gives back the state one started from,
/// and the opposite state is never the state itself.
pub proof fn lemma_other_is_involution(state: OnOff)
    ensures
        state.opposite().opposite() == state,
        state.opposite() != state,
{
}

/// The `set_state` calls that give every light `state`, one per light, in
/// the order of `LightId::all`.
pub open spec fn set_all_calls(state: OnOff) -> Seq<(LightId, OnOff)> {
    seq![
        (LightId::One, state),
        (LightId::Two, state),
        (LightId::Three, state),
        (LightId::Four, state),
        (LightId::Five, state),
    ]
}

/// The list of lights holds each light once, at its own position, and the
/// calls that set every light set each light once, in that order.
pub proof fn lemma_all_lights_in_order(state: OnOff)
    ensures
        all_lights().len() == 5,
        forall|i: int| 0 <= i < 5 ==> (#[trigger] all_lights()[i]).ordinal() == i,
        forall|l: LightId| #[trigger] all_lights()[l.ordinal() as int] == l,
        set_all_calls(state).len() == 5,
        forall|i: int| 0 <= i < 5 ==> #[trigger] set_all_calls(state)[i] == (all_lights()[i], state),
{
}

/// Controlling and querying light states.
///
/// Implementations (hardware, simulation, terminal) agree on this contract:
/// reading a light gives the state last written to it, writing a light
/// leaves the other lights as they were, and every write is recorded, in
/// order, among the `set_state` calls made on the lights.
pub trait Lights {
    /// The state that `light_id` currently shows.
    spec fn light_state(&self, light_id: LightId) -> OnOff;

    /// The `set_state` calls made on these lights so far, as light and state,
    /// oldest first.
    spec fn set_state_calls(&self) -> Seq<(LightId, OnOff)>;

    /// Gets the current state of the specified light.
    fn get_state(&self, light_id: LightId) -> (state: OnOff)
        ensures
            state == self.light_state(light_id),
    ;

    /// Sets the state of the specified light.
    fn set_state(&mut self, light_id: LightId, state: OnOff)
        ensures
            final(self).light_state(light_id) == state,
            forall|other: LightId|
                other != light_id ==> #[trigger] final(self).light_state(other) == old(
                    self,
                ).light_state(other),
            final(self).set_state_calls() == old(self).set_state_calls().push((light_id, state)),
    ;

    /// Sets all lights to the same state, by calling `set_state` once for each
    /// light, from `One` to `Five`, and making no other call.
    fn set_all_lights(&mut self, state: OnOff)
        ensures
            forall|light_id: LightId| #[trigger] final(self).light_state(light_id) == state,
            final(self).set_state_calls() == old(self).set_state_calls() + set_all_calls(state),
    {
        let all = LightId::all();
        let ghost before = self.set_state_calls();
        let mut i: usize = 0;
        assert(set_all_calls(state).take(0) =~= Seq::<(LightId, OnOff)>::empty());
        assert(before + set_all_calls(state).take(0) =~= before);
        while i < 5
            invariant
                0 <= i <= 5,
                all@ == all_lights(),
                forall|j: int|
                    0 <= j < i ==> #[trigger] self.light_state(all_lights()[j]) == state,
                self.set_state_calls() == before + set_all_calls(state).take(i as int),
            decreases 5 - i,
        {
            let light_id = all[i];
            self.set_state(light_id, state);
            assert(set_all_calls(state)[i as int] == (light_id, state));
            assert(before + set_all_calls(state).take(i + 1) =~= (before + set_all_calls(
                state,
            ).take(i as int)).push((light_id, state)));
            i = i + 1;
        }
        assert(set_all_calls(state).take(5) =~= set_all_calls(state));
        assert forall|light_id: LightId| #[trigger] self.light_state(light_id) == state by {
            assert(self.light_state(all_lights()[light_id.ordinal() as int]) == state);
        }
    }
}

/// Light states held in memory, one per light; all lights start `Off`.
pub struct TuiLights {
    states: [OnOff; 5],
    calls: Ghost<Seq<(LightId, OnOff)>>,
}

impl TuiLights {
    /// Creates a new `TuiLights` with all lights turned off.
    pub fn new() -> (lights: TuiLights)
        ensures
            forall|light_id: LightId| #[trigger] lights.light_state(light_id) == OnOff::Off,
            lights.set_state_calls() == Seq::<(LightId, OnOff)>::empty(),
    {
        TuiLights {
            states: [OnOff::Off, OnOff::Off, OnOff::Off, OnOff::Off, OnOff::Off],
            calls: Ghost(Seq::empty()),
        }
    }
}

impl Default for TuiLights {
    /// Creates a new `TuiLights` with all lights turned off.
    fn default() -> (lights: TuiLights)
        ensures
            forall|light_id: LightId| #[trigger] lights.light_state(light_id) == OnOff::Off,
            lights.set_state_calls() == Seq::<(LightId, OnOff)>::empty(),
    {
        TuiLights::new()
    }
}

impl Lights for TuiLights {
    closed spec fn light_state(&self, light_id: LightId) -> OnOff {
        self.states@[light_id.ordinal() as int]
    }

    closed spec fn set_state_calls(&self) -> Seq<(LightId, OnOff)> {
        self.calls@
    }

    fn get_state(&self, light_id: LightId) -> (state: OnOff) {
        self.states[light_id.index()]
    }

    fn set_state(&mut self, light_id: LightId, state: OnOff) {
        let i: usize = light_id.index();
        self.states[i] = state;
        self.calls = Ghost(self.calls@.push((light_id, state)));
    }
}

} // verus!
