use vstd::prelude::*;

verus! {

/// Coarse classification of the host's power source.
#[derive(Debug, Clone, Copy, PartialEq, Eq, Structural, Hash)]
pub enum PowerState {
    OnBattery,
    OnWallpower,
}

/// Raw charge state of a battery-like device, as the power-notification
/// service reports it.
#[derive(Debug, Clone, Copy, PartialEq, Eq, Structural, Hash)]
pub enum ChargeState {
    Unknown,
    Charging,
    Discharging,
    Empty,
    FullyCharged,
    PendingCharge,
    PendingDischarge,
}

/// The power state that a raw charge state stands for.
pub open spec fn power_state_of(raw: ChargeState) -> PowerState {
    match raw {
        ChargeState::PendingDischarge
        | ChargeState::Discharging
        | ChargeState::Empty
        | ChargeState::Unknown => PowerState::OnBattery,
        ChargeState::PendingCharge
        | ChargeState::Charging
        | ChargeState::FullyCharged => PowerState::OnWallpower,
    }
}

impl From<ChargeState> for PowerState {
    fn from(value: ChargeState) -> (r: PowerState)
        ensures
            r == power_state_of(value),
    {
        match value {
            ChargeState::PendingDischarge
            | ChargeState::Discharging
            | ChargeState::Empty
            | ChargeState::Unknown => PowerState::OnBattery,
            ChargeState::PendingCharge
            | ChargeState::Charging
            | ChargeState::FullyCharged => PowerState::OnWallpower,
        }
    }
}

impl vstd::std_specs::convert::FromSpecImpl<ChargeState> for PowerState {
    open spec fn obeys_from_spec() -> bool {
        true
    }

    open spec fn from_spec(v: ChargeState) -> PowerState {
        power_state_of(v)
    }
}

} // verus!
