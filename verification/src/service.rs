//! The protocol contract: requests, replies, errors and hazard metadata.
//!
//! Every operation a client can issue is one [`Request`]; the server answers
//! each with a value ([`Reply`]) or a protocol [`Error`]. Mutating operations
//! carry a fixed, documented set of [`Hazard`] tags as declarative metadata
//! for downstream policy layers; the dispatch engine itself never reads them.

use vstd::prelude::*;

use crate::device::DoorLockStatus;

verus! {

/// A real-world risk category attached to a mutating operation.
///
/// Hazards are advisory: they describe what an operation may cause, for an
/// external policy layer to weigh. No code in this crate enforces them.
#[derive(Clone, Copy, Debug, PartialEq, Eq, Structural)]
pub enum Hazard {
    /// The execution may cause fire.
    Fire,
    /// Information about energy consumption may be leaked.
    LogEnergyConsumption,
    /// The energy consumption may increase.
    EnergyConsumption,
    /// The execution may cause power outage.
    PowerOutage,
    /// Water can overflow and flood the building.
    Flood,
    /// Might boil water or heat up a surface.
    Scald,
}

impl Hazard {
    /// The name of this hazard, as shown to users.
    pub fn label(&self) -> (r: &'static str)
        ensures
            r@ == self.label_spec(),
    {
        match self {
            Hazard::Fire => "Fire",
            Hazard::LogEnergyConsumption => "LogEnergyConsumption",
            Hazard::EnergyConsumption => "EnergyConsumption",
            Hazard::PowerOutage => "PowerOutage",
            Hazard::Flood => "Flood",
            Hazard::Scald => "Scald",
        }
    }

    /// The label of each hazard.
    pub open spec fn label_spec(self) -> Seq<char> {
        match self {
            Hazard::Fire => "Fire"@,
            Hazard::LogEnergyConsumption => "LogEnergyConsumption"@,
            Hazard::EnergyConsumption => "EnergyConsumption"@,
            Hazard::PowerOutage => "PowerOutage"@,
            Hazard::Flood => "Flood"@,
            Hazard::Scald => "Scald"@,
        }
    }
}

/// A protocol-level error: expected, recoverable, and returned as data.
#[derive(Clone, Debug, PartialEq)]
pub enum Error {
    /// The id exists but names a device of another kind. `found` is the name
    /// of the stored kind, `req` the name of the kind the operation asked for.
    Mismatch { found: String, req: String },
    /// The id does not exist in the registry.
    NotFound(String),
    /// Reserved for policy rejection; nothing produces it yet, but the slot
    /// keeps the wire contract stable once enforcement is added.
    Forbidden { risk: Hazard, comment: String },
}

/// One operation a client can issue, with its arguments.
#[derive(Clone, Debug, PartialEq)]
pub enum Request {
    /// List the ids of all lamps.
    FindLamps,
    /// Turn a lamp on.
    TurnLampOn(String),
    /// Turn a lamp off.
    TurnLampOff(String),
    /// Read a lamp's on/off status.
    GetLampOnOff(String),
    /// Set a lamp's brightness.
    SetLampBrightness(String, u8),
    /// Read a lamp's brightness.
    GetLampBrightness(String),
    /// List the ids of all sinks.
    FindSinks,
    /// Set a sink's water flow.
    SetSinkFlow(String, u8),
    /// Read a sink's water flow.
    GetSinkFlow(String),
    /// Set a sink's water temperature.
    SetSinkTemp(String, u8),
    /// Read a sink's water temperature.
    GetSinkTemp(String),
    /// Close a sink's drain.
    CloseSinkDrain(String),
    /// Open a sink's drain.
    OpenSinkDrain(String),
    /// Read the water level in a sink.
    GetSinkLevel(String),
    /// List the ids of all doors.
    FindDoors,
    /// Read the lock status of a door.
    GetDoorLockStatus(String),
    /// Read whether a door stands open.
    GetDoorOpen(String),
    /// Try to lock a door.
    LockDoor(String),
    /// Try to unlock a door.
    UnlockDoor(String),
    /// List the ids of all fridges.
    FindFridges,
    /// Read a fridge's measured temperature.
    GetFridgeTemperature(String),
    /// Read a fridge's target temperature.
    GetFridgeTargetTemperature(String),
    /// Set a fridge's target temperature.
    SetFridgeTargetTemperature(String, i8),
    /// Read whether a fridge stands open.
    GetFridgeOpen(String),
}

/// The value a successful operation answers with.
#[derive(Clone, Debug, PartialEq)]
pub enum Reply {
    /// The ids found by a discovery operation.
    Ids(Vec<String>),
    /// An on/off, open/closed or succeeded/failed flag.
    Flag(bool),
    /// A level in 0 to 100, or a water temperature.
    Level(u8),
    /// A signed temperature in degrees.
    Degrees(i8),
    /// The lock status of a door.
    Lock(DoorLockStatus),
}

/// The hazard tags documented for each operation. Operations without tags,
/// all read-only ones among them, carry the empty sequence.
pub open spec fn hazards_of(req: Request) -> Seq<Hazard> {
    match req {
        Request::TurnLampOn(_) => seq![
            Hazard::Fire,
            Hazard::LogEnergyConsumption,
            Hazard::EnergyConsumption,
        ],
        Request::TurnLampOff(_) => seq![Hazard::LogEnergyConsumption],
        Request::SetLampBrightness(_, _) => seq![
            Hazard::Fire,
            Hazard::LogEnergyConsumption,
            Hazard::EnergyConsumption,
        ],
        Request::SetSinkFlow(_, _) => seq![Hazard::Flood],
        Request::SetSinkTemp(_, _) => seq![Hazard::Scald],
        Request::CloseSinkDrain(_) => seq![Hazard::Flood],
        _ => Seq::empty(),
    }
}

impl Request {
    /// The hazard tags attached to this operation's specification.
    pub fn hazards(&self) -> (r: Vec<Hazard>)
        ensures
            r@ == hazards_of(*self),
    {
        let mut r: Vec<Hazard> = Vec::new();
        match self {
            Request::TurnLampOn(_) | Request::SetLampBrightness(_, _) => {
                r.push(Hazard::Fire);
                r.push(Hazard::LogEnergyConsumption);
                r.push(Hazard::EnergyConsumption);
            },
            Request::TurnLampOff(_) => {
                r.push(Hazard::LogEnergyConsumption);
            },
            Request::SetSinkFlow(_, _) | Request::CloseSinkDrain(_) => {
                r.push(Hazard::Flood);
            },
            Request::SetSinkTemp(_, _) => {
                r.push(Hazard::Scald);
            },
            _ => {},
        }
        proof {
            assert(r@ =~= hazards_of(*self));
        }
        r
    }
}

} // verus!
