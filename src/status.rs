//! Readings from the power-management and clock chips, and the status frame
//! derived from them.

use vstd::prelude::*;

verus! {

/// Percentage shown in place of a battery percentage that could not be read.
pub const PERCENTAGE_SENTINEL: u8 = 101;

/// Faults that a device can report.
#[derive(Clone, Copy, Debug, PartialEq, Eq, Structural)]
pub enum DeviceError {
    /// The power-management chip could not be read.
    PmuError,
    /// The real-time clock could not be read.
    RtcError,
    /// The display could not be initialised or drawn to.
    DisplayError,
}

/// State of the battery charger.
#[derive(Clone, Copy, Debug, PartialEq, Eq, Structural)]
pub enum ChargerState {
    Charging,
    Full,
    Discharging,
}

/// Wall-clock fields as read from the real-time clock.
#[derive(Clone, Copy, Debug, PartialEq, Eq, Structural)]
pub struct TimeReading {
    pub hours: u8,
    pub minutes: u8,
    pub seconds: u8,
}

/// The charger state: charging takes precedence over a full battery.
pub open spec fn charger_state_of(percentage: nat, is_charging: bool) -> ChargerState {
    if is_charging {
        ChargerState::Charging
    } else if percentage == 100 {
        ChargerState::Full
    } else {
        ChargerState::Discharging
    }
}

/// Derives the charger state from the charging flag and the battery percentage.
pub fn charger_state(percentage: u8, is_charging: bool) -> (r: ChargerState)
    ensures
        r == charger_state_of(percentage as nat, is_charging),
{
    match (percentage, is_charging) {
        (_, true) => ChargerState::Charging,
        (100, false) => ChargerState::Full,
        (_, false) => ChargerState::Discharging,
    }
}

/// A charging unit is reported as charging whatever its percentage; a unit
/// that is not charging is full exactly at 100 percent.
pub proof fn lemma_charging_takes_precedence(percentage: nat, is_charging: bool)
    requires
        percentage <= 100,
    ensures
        is_charging ==> charger_state_of(percentage, is_charging) == ChargerState::Charging,
        !is_charging ==> (charger_state_of(percentage, is_charging) == ChargerState::Full
            <==> percentage == 100),
        !is_charging ==> charger_state_of(percentage, is_charging) != ChargerState::Charging,
{
}

/// Text of the charger field.
#[derive(Clone, Copy, Debug, PartialEq, Eq, Structural)]
pub enum ChargeLabel {
    State(ChargerState),
    /// The charging flag or the percentage could not be read.
    Error,
}

/// Text of the battery-connection field.
#[derive(Clone, Copy, Debug, PartialEq, Eq, Structural)]
pub enum ConnectionLabel {
    Connected,
    Disconnected,
    /// The battery-connection flag could not be read.
    Error,
}

pub open spec fn charge_label_text(l: ChargeLabel) -> Seq<char> {
    match l {
        ChargeLabel::State(ChargerState::Charging) => "Charging"@,
        ChargeLabel::State(ChargerState::Full) => "Full"@,
        ChargeLabel::State(ChargerState::Discharging) => "Discharging"@,
        ChargeLabel::Error => "Error"@,
    }
}

pub open spec fn connection_label_text(l: ConnectionLabel) -> Seq<char> {
    match l {
        ConnectionLabel::Connected => "Connected"@,
        ConnectionLabel::Disconnected => "Disconnected"@,
        ConnectionLabel::Error => "Error"@,
    }
}

impl ChargeLabel {
    pub fn as_str(&self) -> (r: &'static str)
        ensures
            r@ == charge_label_text(*self),
    {
        match self {
            ChargeLabel::State(ChargerState::Charging) => "Charging",
            ChargeLabel::State(ChargerState::Full) => "Full",
            ChargeLabel::State(ChargerState::Discharging) => "Discharging",
            ChargeLabel::Error => "Error",
        }
    }
}

impl ConnectionLabel {
    pub fn as_str(&self) -> (r: &'static str)
        ensures
            r@ == connection_label_text(*self),
    {
        match self {
            ConnectionLabel::Connected => "Connected",
            ConnectionLabel::Disconnected => "Disconnected",
            ConnectionLabel::Error => "Error",
        }
    }
}

/// Everything one frame shows, sampled in one loop iteration.
#[derive(Clone, Copy, Debug, PartialEq, Eq, Structural)]
pub struct StatusFrame {
    pub charge: ChargeLabel,
    pub connection: ConnectionLabel,
    /// Battery percentage, or the sentinel when it could not be read.
    pub percentage: u8,
    /// Battery gauge level (0 to 255), when the percentage was read.
    pub battery_level: Option<u8>,
    /// Wall time, when the clock could be read; otherwise the field is not redrawn.
    pub time: Option<TimeReading>,
}

/// A percentage read is usable when it succeeded and lies in 0 to 100.
pub open spec fn percentage_usable(percentage: Result<u8, DeviceError>) -> bool {
    percentage matches Ok(p) && p <= 100
}

/// The frame that a set of readings yields: each failed read is replaced by
/// its own marker and never stops the frame.
pub open spec fn frame_of(
    charging: Result<bool, DeviceError>,
    connected: Result<bool, DeviceError>,
    percentage: Result<u8, DeviceError>,
    time: Result<TimeReading, DeviceError>,
) -> StatusFrame {
    let usable = percentage_usable(percentage);
    let p = percentage->Ok_0;
    StatusFrame {
        charge: match charging {
            Ok(c) if usable => ChargeLabel::State(charger_state_of(p as nat, c)),
            _ => ChargeLabel::Error,
        },
        connection: match connected {
            Ok(true) => ConnectionLabel::Connected,
            Ok(false) => ConnectionLabel::Disconnected,
            Err(_) => ConnectionLabel::Error,
        },
        percentage: if usable {
            p
        } else {
            PERCENTAGE_SENTINEL
        },
        battery_level: if usable {
            Some(((p as nat) * 255 / 100) as u8)
        } else {
            None
        },
        time: match time {
            Ok(t) => Some(t),
            Err(_) => None,
        },
    }
}

/// Relies on watchface::battery::StateOfCharge::from_percentage and its
/// `level`: a percentage p of at most 100 becomes the level p * 255 / 100.
#[verifier::external_body]
fn charge_level(percentage: u8) -> (r: u8)
    requires
        percentage <= 100,
    ensures
        r as nat == (percentage as nat) * 255 / 100,
{
    watchface::battery::StateOfCharge::from_percentage(percentage).level()
}

/// Builds the frame of one iteration from the four readings, whichever of
/// them failed.
pub fn sample(
    charging: Result<bool, DeviceError>,
    connected: Result<bool, DeviceError>,
    percentage: Result<u8, DeviceError>,
    time: Result<TimeReading, DeviceError>,
) -> (r: StatusFrame)
    ensures
        r == frame_of(charging, connected, percentage, time),
{
    let reading: Option<u8> = match percentage {
        Ok(p) if p <= 100 => Some(p),
        _ => None,
    };
    let charge = match (charging, reading) {
        (Ok(c), Some(p)) => ChargeLabel::State(charger_state(p, c)),
        _ => ChargeLabel::Error,
    };
    let connection = match connected {
        Ok(true) => ConnectionLabel::Connected,
        Ok(false) => ConnectionLabel::Disconnected,
        Err(_) => ConnectionLabel::Error,
    };
    let (shown, battery_level) = match reading {
        Some(p) => (p, Some(charge_level(p))),
        None => (PERCENTAGE_SENTINEL, None),
    };
    let time = match time {
        Ok(t) => Some(t),
        Err(_) => None,
    };
    StatusFrame { charge, connection, percentage: shown, battery_level, time }
}

} // verus!
