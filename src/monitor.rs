use vstd::prelude::*;

use crate::power_state::{power_state_of, ChargeState, PowerState};

verus! {

/// The kind of a device that the power-notification service exposes.
#[derive(Debug, Clone, Copy, PartialEq, Eq, Structural)]
pub enum DeviceType {
    Unknown,
    LinePower,
    Battery,
    Ups,
    Monitor,
    Mouse,
    Keyboard,
    Pda,
    Phone,
}

/// The device whose charge state is followed.
#[derive(Debug, Clone, Copy, PartialEq, Eq, Structural)]
pub enum DeviceChoice {
    /// The device pinned in the configuration.
    Pinned,
    /// The enumerated device at this position.
    Enumerated(usize),
    /// No battery: the host is taken to run on wall power.
    NoDevice,
}

/// The device chosen when the pinned device is reachable or not, and the
/// enumerated devices have these types (`None` where a type could not be
/// read): the pinned device, else the first battery, else none.
pub open spec fn choose_spec(pinned_reachable: bool, types: Seq<Option<DeviceType>>) -> DeviceChoice {
    if pinned_reachable {
        DeviceChoice::Pinned
    } else if exists|i: int| 0 <= i < types.len() && types[i] == Some(DeviceType::Battery) {
        let i = choose|i: int|
            0 <= i < types.len() && types[i] == Some(DeviceType::Battery)
                && forall|j: int| 0 <= j < i ==> types[j] != Some(DeviceType::Battery);
        DeviceChoice::Enumerated(i as usize)
    } else {
        DeviceChoice::NoDevice
    }
}

/// Picks the device to follow.
pub fn choose_device(pinned_reachable: bool, types: &Vec<Option<DeviceType>>) -> (r: DeviceChoice)
    ensures
        r == choose_spec(pinned_reachable, types@),
        pinned_reachable ==> r == DeviceChoice::Pinned,
        !pinned_reachable ==> match r {
            DeviceChoice::Enumerated(i) => i < types@.len() && types@[i as int] == Some(DeviceType::Battery)
                && forall|j: int| 0 <= j < i ==> types@[j] != Some(DeviceType::Battery),
            DeviceChoice::NoDevice => forall|j: int| 0 <= j < types@.len() ==> types@[j] != Some(DeviceType::Battery),
            DeviceChoice::Pinned => false,
        },
{
    if pinned_reachable {
        return DeviceChoice::Pinned;
    }
    let mut i: usize = 0;
    while i < types.len()
        invariant
            i <= types.len(),
            !pinned_reachable,
            forall|j: int| 0 <= j < i ==> types@[j] != Some(DeviceType::Battery),
        decreases types.len() - i,
    {
        if let Some(DeviceType::Battery) = types[i] {
            proof {
                let t = types@;
                assert(0 <= i < t.len() && t[i as int] == Some(DeviceType::Battery));
                let k = choose|k: int|
                    0 <= k < t.len() && t[k] == Some(DeviceType::Battery)
                        && forall|j: int| 0 <= j < k ==> t[j] != Some(DeviceType::Battery);
                assert(i as int <= k);
                assert(k <= i as int);
            }
            return DeviceChoice::Enumerated(i);
        }
        i = i + 1;
    }
    DeviceChoice::NoDevice
}

/// The abstract state of a monitor.
pub struct MonitorView {
    /// A device is followed.
    pub has_device: bool,
    /// The sequence of power states has ended.
    pub finished: bool,
}

/// One step of a monitor given the next raw charge state of its device
/// (`None` once the device's notifications end): the next state, and the power
/// state produced, or `None` at the end of the sequence.
pub open spec fn monitor_step(m: MonitorView, raw: Option<ChargeState>) -> (MonitorView, Option<PowerState>) {
    if m.finished {
        (m, None)
    } else if m.has_device {
        match raw {
            Some(c) => (m, Some(power_state_of(c))),
            None => (MonitorView { finished: true, ..m }, None),
        }
    } else {
        (MonitorView { finished: true, ..m }, Some(PowerState::OnWallpower))
    }
}

/// The power states that a monitor produces over successive steps.
pub open spec fn monitor_run(m: MonitorView, raws: Seq<Option<ChargeState>>) -> (MonitorView, Seq<Option<PowerState>>)
    decreases raws.len(),
{
    if raws.len() == 0 {
        (m, Seq::empty())
    } else {
        let (m1, outs) = monitor_run(m, raws.drop_last());
        let (m2, out) = monitor_step(m1, raws.last());
        (m2, outs.push(out))
    }
}

/// Turns the raw charge states of the followed device into power states; with
/// no device, produces a single `OnWallpower` and ends.
pub struct Monitor {
    has_device: bool,
    finished: bool,
}

impl View for Monitor {
    type V = MonitorView;

    closed spec fn view(&self) -> MonitorView {
        MonitorView { has_device: self.has_device, finished: self.finished }
    }
}

impl Monitor {
    /// A monitor for the chosen device.
    pub fn new(choice: DeviceChoice) -> (r: Monitor)
        ensures
            r@ == (MonitorView { has_device: !(choice is NoDevice), finished: false }),
    {
        let has_device = match choice {
            DeviceChoice::NoDevice => false,
            _ => true,
        };
        Monitor { has_device, finished: false }
    }

    /// The next power state, given the next raw charge state of the followed
    /// device; `None` when the sequence has ended.
    pub fn next(&mut self, raw: Option<ChargeState>) -> (r: Option<PowerState>)
        ensures
            (final(self)@, r) == monitor_step(old(self)@, raw),
    {
        if self.finished {
            None
        } else if self.has_device {
            match raw {
                Some(c) => Some(PowerState::from(c)),
                None => {
                    self.finished = true;
                    None
                },
            }
        } else {
            self.finished = true;
            Some(PowerState::OnWallpower)
        }
    }
}

/// With no pinned device reachable and no battery among the enumerated
/// devices, the monitor produces exactly one `OnWallpower` and then ends,
/// whatever it is fed.
pub proof fn lemma_no_battery_single_wallpower(types: Seq<Option<DeviceType>>, raws: Seq<Option<ChargeState>>)
    requires
        forall|j: int| 0 <= j < types.len() ==> types[j] != Some(DeviceType::Battery),
        raws.len() > 0,
    ensures
        choose_spec(false, types) == DeviceChoice::NoDevice,
        ({
            let outs = monitor_run(MonitorView { has_device: false, finished: false }, raws).1;
            &&& outs.len() == raws.len()
            &&& outs[0] == Some(PowerState::OnWallpower)
            &&& forall|k: int| 1 <= k < outs.len() ==> outs[k] is None
        }),
{
    lemma_fallback_run(raws);
}

proof fn lemma_fallback_run(raws: Seq<Option<ChargeState>>)
    requires
        raws.len() > 0,
    ensures
        ({
            let (m, outs) = monitor_run(MonitorView { has_device: false, finished: false }, raws);
            &&& m.finished
            &&& !m.has_device
            &&& outs.len() == raws.len()
            &&& outs[0] == Some(PowerState::OnWallpower)
            &&& forall|k: int| 1 <= k < outs.len() ==> outs[k] is None
        }),
    decreases raws.len(),
{
    let prev = raws.drop_last();
    if prev.len() > 0 {
        lemma_fallback_run(prev);
    } else {
        assert(monitor_run(MonitorView { has_device: false, finished: false }, prev).1 =~= Seq::empty());
    }
}

} // verus!
