//! The closed set of device kinds and the state each one carries.
//!
//! A device is one of four kinds: lamp, sink, door or fridge. The kind of a
//! device never changes while the server runs; only the fields of its state
//! do. The door lock is a small state machine: `Jammed` is terminal for lock
//! and unlock attempts, which report failure without mutating the state.

use vstd::prelude::*;

verus! {

/// The lock of a door: unlocked, locked, or jammed.
///
/// `Jammed` is an externally injected fault; lock and unlock attempts on a
/// jammed door fail without changing the state.
#[derive(Clone, Copy, Debug, PartialEq, Eq, Structural)]
pub enum DoorLockStatus {
    Unlocked,
    Locked,
    Jammed,
}

impl DoorLockStatus {
    /// The lowercase label of this status, as shown to users.
    pub fn label(&self) -> (r: &'static str)
        ensures
            r@ == self.label_spec(),
    {
        match self {
            DoorLockStatus::Unlocked => "unlocked",
            DoorLockStatus::Locked => "locked",
            DoorLockStatus::Jammed => "jammed",
        }
    }

    /// The label of each status.
    pub open spec fn label_spec(self) -> Seq<char> {
        match self {
            DoorLockStatus::Unlocked => "unlocked"@,
            DoorLockStatus::Locked => "locked"@,
            DoorLockStatus::Jammed => "jammed"@,
        }
    }
}

impl Default for DoorLockStatus {
    /// A door starts out unlocked.
    fn default() -> (r: Self)
        ensures
            r is Unlocked,
    {
        DoorLockStatus::Unlocked
    }
}

/// The state a lock moves to when asked to lock.
pub open spec fn lock_step(s: DoorLockStatus) -> DoorLockStatus {
    match s {
        DoorLockStatus::Unlocked => DoorLockStatus::Locked,
        DoorLockStatus::Locked => DoorLockStatus::Locked,
        DoorLockStatus::Jammed => DoorLockStatus::Jammed,
    }
}

/// Whether a lock attempt reports success from state `s`.
pub open spec fn lock_ok(s: DoorLockStatus) -> bool {
    !(s is Jammed)
}

/// The state a lock moves to when asked to unlock.
pub open spec fn unlock_step(s: DoorLockStatus) -> DoorLockStatus {
    match s {
        DoorLockStatus::Unlocked => DoorLockStatus::Unlocked,
        DoorLockStatus::Locked => DoorLockStatus::Unlocked,
        DoorLockStatus::Jammed => DoorLockStatus::Jammed,
    }
}

/// Whether an unlock attempt reports success from state `s`.
pub open spec fn unlock_ok(s: DoorLockStatus) -> bool {
    !(s is Jammed)
}

/// Locking is idempotent: a second lock attempt finds the state the first
/// one left and keeps it, and it reports success exactly when the first
/// attempt did not find the lock jammed. In particular an unlocked door is
/// locked by the first call and the second call is a successful no-op, while
/// a locked or jammed door is unaffected by repeated calls.
pub proof fn lemma_lock_idempotent(s: DoorLockStatus)
    ensures
        lock_step(lock_step(s)) == lock_step(s),
        lock_ok(lock_step(s)) == lock_ok(s),
        s is Unlocked ==> lock_step(s) is Locked && lock_ok(lock_step(s)),
        s is Locked || s is Jammed ==> lock_step(s) == s,
{
}

/// Unlocking is idempotent, symmetrically to locking.
pub proof fn lemma_unlock_idempotent(s: DoorLockStatus)
    ensures
        unlock_step(unlock_step(s)) == unlock_step(s),
        unlock_ok(unlock_step(s)) == unlock_ok(s),
        s is Locked ==> unlock_step(s) is Unlocked && unlock_ok(unlock_step(s)),
        s is Unlocked || s is Jammed ==> unlock_step(s) == s,
{
}

/// The state of a lamp: a brightness level and an on/off switch.
#[derive(Clone, Copy, Debug, PartialEq, Eq, Structural)]
pub struct LampState {
    /// Brightness level, 0 to 100.
    pub brightness: u8,
    /// Whether the lamp is on.
    pub on: bool,
}

impl Default for LampState {
    /// A lamp starts out switched off at brightness 0.
    fn default() -> (r: Self)
        ensures
            r.brightness == 0,
            !r.on,
    {
        LampState { brightness: 0, on: false }
    }
}

/// The state of a sink: water flow, temperature, level, and the drain.
#[derive(Clone, Copy, Debug, PartialEq, Eq, Structural)]
pub struct SinkState {
    /// Water flow, 0 to 100.
    pub flow: u8,
    /// Water temperature.
    pub temp: u8,
    /// Water level in the basin, 0 to 100; read-only to clients.
    pub level: u8,
    /// Whether the drain is open.
    pub drain: bool,
}

impl Default for SinkState {
    /// A sink starts out empty at 20 degrees with the drain open.
    fn default() -> (r: Self)
        ensures
            r.flow == 0,
            r.temp == 20,
            r.level == 0,
            r.drain,
    {
        SinkState { flow: 0, temp: 20, level: 0, drain: true }
    }
}

/// The state of a door: whether it stands open, and its lock.
#[derive(Clone, Copy, Debug, PartialEq, Eq, Structural)]
pub struct DoorState {
    /// Whether the door is open; read-only to clients.
    pub is_open: bool,
    /// The state of the lock.
    pub lock: DoorLockStatus,
}

impl Default for DoorState {
    /// A door starts out closed and unlocked.
    fn default() -> (r: Self)
        ensures
            !r.is_open,
            r.lock is Unlocked,
    {
        DoorState { is_open: false, lock: DoorLockStatus::Unlocked }
    }
}

/// The state of a fridge: door, measured and target temperature.
#[derive(Clone, Copy, Debug, PartialEq, Eq, Structural)]
pub struct FridgeState {
    /// Whether the fridge door is open; read-only to clients.
    pub open: bool,
    /// The measured temperature; read-only to clients.
    pub temperature: i8,
    /// The target temperature.
    pub target_temperature: i8,
}

impl Default for FridgeState {
    /// A fridge starts out closed, at 5 degrees, aiming for 4.
    fn default() -> (r: Self)
        ensures
            !r.open,
            r.temperature == 5,
            r.target_temperature == 4,
    {
        FridgeState { open: false, temperature: 5, target_temperature: 4 }
    }
}

/// The state of one device: one variant per device kind.
#[derive(Clone, Copy, Debug, PartialEq, Eq, Structural)]
pub enum DeviceKind {
    Lamp(LampState),
    Sink(SinkState),
    Door(DoorState),
    Fridge(FridgeState),
}

/// A device kind without its state: the tag an operation requests.
#[derive(Clone, Copy, Debug, PartialEq, Eq, Structural)]
pub enum KindTag {
    Lamp,
    Sink,
    Door,
    Fridge,
}

/// The tag of a device state.
pub open spec fn tag_of(k: DeviceKind) -> KindTag {
    match k {
        DeviceKind::Lamp(_) => KindTag::Lamp,
        DeviceKind::Sink(_) => KindTag::Sink,
        DeviceKind::Door(_) => KindTag::Door,
        DeviceKind::Fridge(_) => KindTag::Fridge,
    }
}

/// The name of each kind, as carried in mismatch errors.
pub open spec fn tag_name(t: KindTag) -> Seq<char> {
    match t {
        KindTag::Lamp => "Lamp"@,
        KindTag::Sink => "Sink"@,
        KindTag::Door => "Door"@,
        KindTag::Fridge => "Fridge"@,
    }
}

impl DeviceKind {
    /// The tag of this state.
    pub fn tag(&self) -> (t: KindTag)
        ensures
            t == tag_of(*self),
    {
        match self {
            DeviceKind::Lamp(_) => KindTag::Lamp,
            DeviceKind::Sink(_) => KindTag::Sink,
            DeviceKind::Door(_) => KindTag::Door,
            DeviceKind::Fridge(_) => KindTag::Fridge,
        }
    }

    /// The name of this device's kind.
    pub fn display(&self) -> (r: &'static str)
        ensures
            r@ == tag_name(tag_of(*self)),
    {
        match self {
            DeviceKind::Lamp(_) => "Lamp",
            DeviceKind::Sink(_) => "Sink",
            DeviceKind::Door(_) => "Door",
            DeviceKind::Fridge(_) => "Fridge",
        }
    }
}

impl KindTag {
    /// The name of this kind.
    pub fn name(&self) -> (r: &'static str)
        ensures
            r@ == tag_name(*self),
    {
        match self {
            KindTag::Lamp => "Lamp",
            KindTag::Sink => "Sink",
            KindTag::Door => "Door",
            KindTag::Fridge => "Fridge",
        }
    }
}

} // verus!
