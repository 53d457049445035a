use vstd::prelude::*;

use crate::power_state::PowerState;
use crate::text::opt_string_view;

verus! {

/// A request that reaches the coordinator through its control channel.
#[derive(Debug, PartialEq, Eq)]
pub enum Message {
    /// Ask for the name of the preset bound to the current power state.
    GetPreset,
    /// Bind the named preset to the current power state.
    SetPreset(String),
}

/// One unit of work for the coordinator: a control message of type `M`, or a
/// power state reported by the monitor.
#[derive(Debug, PartialEq, Eq)]
pub enum Event<M> {
    Control(M),
    Power(PowerState),
}

/// What the coordinator asks its host to do after handling an event.
#[derive(Debug, PartialEq, Eq)]
pub enum Action {
    /// Answer a `GetPreset` request with this name.
    Reply(String),
    /// Apply the preset of this name.
    Apply(String),
    /// Nothing to do.
    Idle,
}

/// The abstract state of a coordinator.
pub struct CoordinatorView {
    /// The last observed power state, if any was observed yet.
    pub current: Option<PowerState>,
    /// The preset name bound to each power state.
    pub store: Map<PowerState, Seq<char>>,
    /// An override that arrived before any power state was known.
    pub pending: Option<Seq<char>>,
}

/// Every power state.
pub open spec fn all_power_states() -> Set<PowerState> {
    set![PowerState::OnBattery, PowerState::OnWallpower]
}

/// The preset name that a `GetPreset` request is answered with.
pub open spec fn get_spec(v: CoordinatorView) -> Seq<char> {
    match v.current {
        Some(s) => v.store[s],
        None => Seq::empty(),
    }
}

/// Handling `SetPreset(name)`: the next state, and the preset to apply, if any.
pub open spec fn set_spec(v: CoordinatorView, name: Seq<char>) -> (CoordinatorView, Option<Seq<char>>) {
    match v.current {
        Some(s) => if v.store[s] == name {
            (v, None)
        } else {
            (CoordinatorView { store: v.store.insert(s, name), ..v }, Some(name))
        },
        None => (CoordinatorView { pending: Some(name), ..v }, None),
    }
}

/// Handling a power state reported by the monitor: the next state, and the
/// preset to apply, if any.
pub open spec fn power_spec(v: CoordinatorView, state: PowerState) -> (CoordinatorView, Option<Seq<char>>) {
    if v.current == Some(state) {
        (v, None)
    } else {
        let store = match v.pending {
            Some(p) => v.store.insert(state, p),
            None => v.store,
        };
        (CoordinatorView { current: Some(state), store, pending: None }, Some(store[state]))
    }
}

/// Feeding a sequence of power states to the coordinator one after another:
/// the final state, and how many of them triggered an apply.
pub open spec fn power_run(v: CoordinatorView, states: Seq<PowerState>) -> (CoordinatorView, nat)
    decreases states.len(),
{
    if states.len() == 0 {
        (v, 0)
    } else {
        let (v1, n1) = power_run(v, states.drop_last());
        let (v2, applied) = power_spec(v1, states.last());
        (v2, n1 + if applied is Some { 1nat } else { 0nat })
    }
}

/// Overriding the current preset with the name already bound to the current
/// power state changes nothing and triggers no apply.
pub proof fn lemma_set_same_preset_is_noop(v: CoordinatorView, name: Seq<char>)
    requires
        v.current is Some,
        name == v.store[v.current->0],
    ensures
        set_spec(v, name) == (v, None::<Seq<char>>),
{
}

/// After any non-empty run of one power state, the coordinator holds that
/// state, and the run triggered one apply if the coordinator held another
/// state (or none) before it, and no apply otherwise.
pub proof fn lemma_power_run_same_state(v: CoordinatorView, states: Seq<PowerState>, s: PowerState)
    requires
        states.len() > 0,
        forall|i: int| 0 <= i < states.len() ==> states[i] == s,
    ensures
        power_run(v, states).0.current == Some(s),
        power_run(v, states).1 == (if v.current == Some(s) { 0nat } else { 1nat }),
    decreases states.len(),
{
    let prev = states.drop_last();
    if prev.len() > 0 {
        lemma_power_run_same_state(v, prev, s);
    } else {
        assert(power_run(v, prev) == (v, 0nat));
    }
    assert(states.last() == s);
}

/// A run of identical power states triggers at most one apply.
pub proof fn lemma_repeated_state_applies_at_most_once(
    v: CoordinatorView,
    states: Seq<PowerState>,
    s: PowerState,
)
    requires
        forall|i: int| 0 <= i < states.len() ==> states[i] == s,
    ensures
        power_run(v, states).1 <= 1,
{
    if states.len() > 0 {
        lemma_power_run_same_state(v, states, s);
    }
}

/// `r` is the action that applies `applied`, or stays idle where it is `None`.
pub open spec fn applies(r: Action, applied: Option<Seq<char>>) -> bool {
    match (r, applied) {
        (Action::Idle, None) => true,
        (Action::Apply(n), Some(a)) => n@ == a,
        _ => false,
    }
}

/// Owner of the current power state and of the preset bound to each power
/// state.
pub struct Coordinator {
    current: Option<PowerState>,
    on_battery: String,
    on_wallpower: String,
    pending: Option<String>,
}

impl View for Coordinator {
    type V = CoordinatorView;

    closed spec fn view(&self) -> CoordinatorView {
        CoordinatorView {
            current: self.current,
            store: map![PowerState::OnBattery => self.on_battery@, PowerState::OnWallpower => self.on_wallpower@],
            pending: opt_string_view(self.pending),
        }
    }
}

impl Coordinator {
    /// A coordinator with no power state observed yet, with `on_battery` and
    /// `on_wallpower` bound to the two power states.
    pub fn new(on_battery: String, on_wallpower: String) -> (r: Coordinator)
        ensures
            r@.current is None,
            r@.pending is None,
            r@.store.dom() == all_power_states(),
            r@.store[PowerState::OnBattery] == on_battery@,
            r@.store[PowerState::OnWallpower] == on_wallpower@,
    {
        Coordinator { current: None, on_battery, on_wallpower, pending: None }
    }

    /// The preset store always holds exactly one name for each power state.
    pub proof fn lemma_store_total(&self)
        ensures
            self@.store.dom() == all_power_states(),
    {
        assert(self@.store.dom() =~= all_power_states());
    }

    /// The last observed power state.
    pub fn current_state(&self) -> (r: Option<PowerState>)
        ensures
            r == self@.current,
    {
        self.current
    }

    /// The preset name bound to `state`.
    pub fn preset_for(&self, state: PowerState) -> (r: &String)
        ensures
            r@ == self@.store[state],
    {
        match state {
            PowerState::OnBattery => &self.on_battery,
            PowerState::OnWallpower => &self.on_wallpower,
        }
    }

    /// The preset bound to the current power state, or an empty string while
    /// no power state has been observed.
    pub fn current_preset(&self) -> (r: String)
        ensures
            r@ == get_spec(self@),
    {
        match self.current {
            Some(state) => self.preset_for(state).clone(),
            None => String::new(),
        }
    }

    fn bind(&mut self, state: PowerState, name: String)
        ensures
            final(self)@ == (CoordinatorView { store: old(self)@.store.insert(state, name@), ..old(self)@ }),
    {
        match state {
            PowerState::OnBattery => self.on_battery = name,
            PowerState::OnWallpower => self.on_wallpower = name,
        }
        assert(self@.store =~= old(self)@.store.insert(state, name@));
    }

    /// Binds `name` to the current power state and returns the preset to apply.
    /// Nothing changes and nothing is applied when `name` is already bound
    /// there. Before the first power state is known the override is kept and
    /// takes effect with that first state.
    pub fn set_current_preset(&mut self, name: String) -> (r: Option<String>)
        ensures
            (final(self)@, opt_string_view(r)) == set_spec(old(self)@, name@),
    {
        match self.current {
            Some(state) => {
                if self.preset_for(state).eq(&name) {
                    None
                } else {
                    self.bind(state, name.clone());
                    Some(name)
                }
            },
            None => {
                self.pending = Some(name);
                None
            },
        }
    }

    /// Records a power state reported by the monitor and returns the preset to
    /// apply. A repeated state changes nothing and applies nothing.
    pub fn on_power_state(&mut self, state: PowerState) -> (r: Option<String>)
        ensures
            (final(self)@, opt_string_view(r)) == power_spec(old(self)@, state),
    {
        if self.current == Some(state) {
            return None;
        }
        let pending = self.pending.take();
        if let Some(p) = pending {
            self.bind(state, p);
        }
        self.current = Some(state);
        Some(self.preset_for(state).clone())
    }

    /// Handles one event and says what is to be done about it.
    pub fn handle(&mut self, event: Event<Message>) -> (r: Action)
        ensures
            match event {
                Event::Control(Message::GetPreset) => final(self)@ == old(self)@
                    && (r matches Action::Reply(name) && name@ == get_spec(old(self)@)),
                Event::Control(Message::SetPreset(name)) => {
                    let (v, applied) = set_spec(old(self)@, name@);
                    &&& final(self)@ == v
                    &&& applies(r, applied)
                },
                Event::Power(state) => {
                    let (v, applied) = power_spec(old(self)@, state);
                    &&& final(self)@ == v
                    &&& applies(r, applied)
                },
            },
    {
        let applied = match event {
            Event::Control(Message::GetPreset) => {
                return Action::Reply(self.current_preset());
            },
            Event::Control(Message::SetPreset(name)) => self.set_current_preset(name),
            Event::Power(state) => self.on_power_state(state),
        };
        match applied {
            Some(name) => Action::Apply(name),
            None => Action::Idle,
        }
    }
}

/// Events that are ready to be handled: at most one control message and at
/// most one power state. Control messages are handed out first.
pub struct Inbox<M> {
    control: Option<M>,
    power: Option<PowerState>,
}

impl<M> Inbox<M> {
    /// The waiting control message.
    pub closed spec fn control(&self) -> Option<M> {
        self.control
    }

    /// The waiting power state.
    pub closed spec fn power(&self) -> Option<PowerState> {
        self.power
    }

    /// An inbox with nothing waiting.
    pub fn new() -> (r: Inbox<M>)
        ensures
            r.control() is None,
            r.power() is None,
    {
        Inbox { control: None, power: None }
    }

    /// Whether a control message is waiting.
    pub fn has_control(&self) -> (r: bool)
        ensures
            r == self.control() is Some,
    {
        self.control.is_some()
    }

    /// Whether a power state is waiting.
    pub fn has_power(&self) -> (r: bool)
        ensures
            r == self.power() is Some,
    {
        self.power.is_some()
    }

    /// Puts a control message in the inbox.
    pub fn offer_control(&mut self, message: M)
        requires
            old(self).control() is None,
        ensures
            final(self).control() == Some(message),
            final(self).power() == old(self).power(),
    {
        self.control = Some(message);
    }

    /// Puts a power state in the inbox.
    pub fn offer_power(&mut self, state: PowerState)
        requires
            old(self).power() is None,
        ensures
            final(self).power() == Some(state),
            final(self).control() == old(self).control(),
    {
        self.power = Some(state);
    }

    /// Takes the next event: the waiting control message if there is one, and
    /// only otherwise the waiting power state.
    pub fn take_next(&mut self) -> (r: Option<Event<M>>)
        ensures
            (r, final(self).control(), final(self).power()) == take_spec(old(self).control(), old(self).power()),
    {
        match self.control.take() {
            Some(m) => Some(Event::Control(m)),
            None => match self.power.take() {
                Some(s) => Some(Event::Power(s)),
                None => None,
            },
        }
    }
}

/// Taking the next event from an inbox that holds `control` and `power`: the
/// event, and what stays waiting.
pub open spec fn take_spec<M>(control: Option<M>, power: Option<PowerState>) -> (
    Option<Event<M>>,
    Option<M>,
    Option<PowerState>,
) {
    match control {
        Some(m) => (Some(Event::Control(m)), None, power),
        None => match power {
            Some(s) => (Some(Event::Power(s)), None, None),
            None => (None, None, None),
        },
    }
}

/// When a control message and a power state are both waiting, the control
/// message is handed out first and the power state stays waiting.
pub proof fn lemma_control_before_power<M>(message: M, state: PowerState)
    ensures
        take_spec(Some(message), Some(state)) == (Some(Event::Control(message)), None::<M>, Some(state)),
{
}

} // verus!
