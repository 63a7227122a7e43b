//! The authoritative store of device state, and the only legal path to it.
//!
//! A [`Registry`] maps string ids to devices. Every operation first resolves
//! its id: an absent id answers `NotFound`, a present id of the wrong kind
//! answers `Mismatch` naming the stored kind, and only a present id of the
//! requested kind reaches the device's state. Failed operations leave the
//! registry untouched; successful ones change exactly the named device.

use vstd::prelude::*;

use crate::device::DeviceKind;
use crate::device::DoorLockStatus;
use crate::device::DoorState;
use crate::device::FridgeState;
use crate::device::KindTag;
use crate::device::LampState;
use crate::device::SinkState;
use crate::device::lock_ok;
use crate::device::lock_step;
use crate::device::tag_name;
use crate::device::tag_of;
use crate::device::unlock_ok;
use crate::device::unlock_step;
use crate::service::Error;

verus! {

/// The index at which `s` holds `id`, when it does.
pub closed spec fn seq_index_of(s: Seq<Seq<char>>, id: Seq<char>) -> int {
    choose|i: int| 0 <= i < s.len() && s[i] == id
}

/// The server's store of devices: ids, names and states, kept in step.
pub struct Registry {
    ids: Vec<String>,
    names: Vec<String>,
    kinds: Vec<DeviceKind>,
}

impl Registry {
    /// The ids of all devices, in the registry's iteration order.
    pub closed spec fn id_seq(&self) -> Seq<Seq<char>> {
        self.ids@.map_values(|s: String| s@)
    }

    /// The registry keeps one name and one state per id, and ids are unique.
    pub closed spec fn wf(&self) -> bool {
        &&& self.ids@.len() == self.names@.len()
        &&& self.ids@.len() == self.kinds@.len()
        &&& forall|i: int, j: int|
            0 <= i < j < self.ids@.len() ==> self.ids@[i]@ != self.ids@[j]@
    }

    /// How many devices the registry holds.
    pub closed spec fn device_count(&self) -> nat {
        self.id_seq().len()
    }

    /// Whether a device with this id exists.
    pub closed spec fn contains_id(&self, id: Seq<char>) -> bool {
        self.id_seq().contains(id)
    }

    /// The index of the device with this id.
    pub closed spec fn index_of(&self, id: Seq<char>) -> int {
        seq_index_of(self.id_seq(), id)
    }

    /// The state of the device with this id.
    pub closed spec fn kind_of(&self, id: Seq<char>) -> DeviceKind {
        self.kinds@[self.index_of(id)]
    }

    /// The name of the device with this id.
    pub closed spec fn name_of(&self, id: Seq<char>) -> Seq<char> {
        self.names@[self.index_of(id)]@
    }
}

/// In a well-formed registry, a contained id has exactly one index.
proof fn lemma_index_of_contained(r: Registry, id: Seq<char>)
    requires
        r.wf(),
        r.contains_id(id),
    ensures
        0 <= r.index_of(id) < r.id_seq().len(),
        r.id_seq()[r.index_of(id)] == id,
        forall|j: int| 0 <= j < r.id_seq().len() && r.id_seq()[j] == id ==> j == r.index_of(id),
{
    let s = r.id_seq();
    assert(0 <= r.index_of(id) < s.len() && s[r.index_of(id)] == id);
    assert forall|j: int| 0 <= j < s.len() && s[j] == id implies j == r.index_of(id) by {
        let k = r.index_of(id);
        if j != k {
            assert(r.ids@[j]@ == r.ids@[k]@);
        }
    }
}

/// The id stored at each index resolves back to that index.
proof fn lemma_index_of_at(r: Registry, i: int)
    requires
        r.wf(),
        0 <= i < r.id_seq().len(),
    ensures
        r.contains_id(r.id_seq()[i]),
        r.index_of(r.id_seq()[i]) == i,
        r.kind_of(r.id_seq()[i]) == r.kinds@[i],
        r.name_of(r.id_seq()[i]) == r.names@[i]@,
{
    assert(r.id_seq().contains(r.id_seq()[i]));
    lemma_index_of_contained(r, r.id_seq()[i]);
}

/// A device of the requested kind stands under this id.
pub open spec fn resolves(r: Registry, id: Seq<char>, tag: KindTag) -> bool {
    r.contains_id(id) && tag_of(r.kind_of(id)) == tag
}

/// The error owed when an id does not resolve to a device of kind `tag`:
/// `NotFound` carrying the id when the id is absent, otherwise `Mismatch`
/// naming the stored kind and the requested one.
pub open spec fn err_for(r: Registry, id: Seq<char>, tag: KindTag, e: Error) -> bool {
    if !r.contains_id(id) {
        e matches Error::NotFound(s) && s@ == id
    } else {
        &&& tag_of(r.kind_of(id)) != tag
        &&& e matches Error::Mismatch { found, req } && found@ == tag_name(
            tag_of(r.kind_of(id)),
        ) && req@ == tag_name(tag)
    }
}

/// Both registries hold the same devices under the same names.
pub open spec fn same_device_set(pre: Registry, post: Registry) -> bool {
    &&& post.id_seq() == pre.id_seq()
    &&& post.device_count() == pre.device_count()
    &&& forall|d: Seq<char>|
        #![trigger post.contains_id(d)]
        #![trigger pre.contains_id(d)]
        post.contains_id(d) == pre.contains_id(d)
    &&& forall|d: Seq<char>| #[trigger]
        pre.contains_id(d) ==> post.name_of(d) == pre.name_of(d)
}

/// `post` is `pre` with the device under `id` moved to state `k` and every
/// other device untouched.
pub open spec fn updates_kind(pre: Registry, post: Registry, id: Seq<char>, k: DeviceKind) -> bool {
    &&& same_device_set(pre, post)
    &&& post.kind_of(id) == k
    &&& forall|d: Seq<char>|
        pre.contains_id(d) && d != id ==> #[trigger] post.kind_of(d) == pre.kind_of(d)
}

/// Replacing the state at one index updates exactly that device.
proof fn lemma_set_kind(pre: Registry, post: Registry, i: int, k: DeviceKind)
    requires
        pre.wf(),
        0 <= i < pre.kinds@.len(),
        post.ids@ == pre.ids@,
        post.names@ == pre.names@,
        post.kinds@ == pre.kinds@.update(i, k),
    ensures
        post.wf(),
        updates_kind(pre, post, pre.id_seq()[i], k),
{
    assert(post.id_seq() =~= pre.id_seq());
    let id = pre.id_seq()[i];
    lemma_index_of_at(pre, i);
    assert(post.contains_id(id));
    lemma_index_of_contained(post, id);
    assert(post.index_of(id) == i);
    assert forall|d: Seq<char>| #[trigger] pre.contains_id(d) implies post.name_of(d)
        == pre.name_of(d) by {
        lemma_index_of_contained(pre, d);
        lemma_index_of_contained(post, d);
    }
    assert forall|d: Seq<char>| pre.contains_id(d) && d != id implies #[trigger] post.kind_of(d)
        == pre.kind_of(d) by {
        lemma_index_of_contained(pre, d);
        lemma_index_of_contained(post, d);
        assert(pre.index_of(d) != i);
    }
}

impl Registry {
    /// An empty registry.
    pub fn new() -> (r: Registry)
        ensures
            r.wf(),
            r.device_count() == 0,
            forall|d: Seq<char>| !r.contains_id(d),
    {
        Registry { ids: Vec::new(), names: Vec::new(), kinds: Vec::new() }
    }

    /// The index of the device with this id, if it exists.
    fn position_of(&self, id: &String) -> (r: Option<usize>)
        requires
            self.wf(),
        ensures
            match r {
                Some(i) => {
                    &&& self.contains_id(id@)
                    &&& i as int == self.index_of(id@)
                    &&& i < self.ids@.len()
                    &&& self.id_seq()[i as int] == id@
                },
                None => !self.contains_id(id@),
            },
    {
        let n = self.ids.len();
        let mut i: usize = 0;
        while i < n
            invariant
                self.wf(),
                n == self.ids@.len(),
                i <= n,
                forall|j: int| 0 <= j < i ==> self.id_seq()[j] != id@,
            decreases n - i,
        {
            if self.ids[i] == *id {
                proof {
                    assert(self.id_seq()[i as int] == id@);
                    assert(self.contains_id(id@));
                    lemma_index_of_contained(*self, id@);
                }
                return Some(i);
            }
            i += 1;
        }
        None
    }

    /// Resolve an id against a requested kind: the index of the device when
    /// it exists and has that kind, the owed protocol error otherwise.
    fn resolve(&self, id: &String, tag: KindTag) -> (r: Result<usize, Error>)
        requires
            self.wf(),
        ensures
            match r {
                Ok(i) => {
                    &&& resolves(*self, id@, tag)
                    &&& i as int == self.index_of(id@)
                    &&& i < self.kinds@.len()
                    &&& self.kinds@[i as int] == self.kind_of(id@)
                    &&& self.id_seq()[i as int] == id@
                },
                Err(e) => !resolves(*self, id@, tag) && err_for(*self, id@, tag, e),
            },
    {
        match self.position_of(id) {
            None => Err(Error::NotFound(id.clone())),
            Some(i) => {
                let k = self.kinds[i];
                if k.tag() == tag {
                    Ok(i)
                } else {
                    Err(
                        Error::Mismatch {
                            found: k.display().to_owned(),
                            req: tag.name().to_owned(),
                        },
                    )
                }
            },
        }
    }
}

/// What `turn_lamp_on` answers and does: on success the lamp under `id` is
/// switched on, its brightness kept, and `true` is returned; on failure the
/// registry is unchanged and the owed error is returned.
pub open spec fn turn_lamp_on_post(
    pre: Registry,
    post: Registry,
    id: Seq<char>,
    r: Result<bool, Error>,
) -> bool {
    match r {
        Ok(b) => {
            &&& resolves(pre, id, KindTag::Lamp)
            &&& b == true
            &&& pre.kind_of(id) matches DeviceKind::Lamp(l) && updates_kind(
                pre,
                post,
                id,
                DeviceKind::Lamp(LampState { brightness: l.brightness, on: true }),
            )
        },
        Err(e) => {
            &&& !resolves(pre, id, KindTag::Lamp)
            &&& err_for(pre, id, KindTag::Lamp, e)
            &&& post == pre
        },
    }
}

/// What `turn_lamp_off` answers and does; the returned flag is the new
/// on/off state, hence `false`.
pub open spec fn turn_lamp_off_post(
    pre: Registry,
    post: Registry,
    id: Seq<char>,
    r: Result<bool, Error>,
) -> bool {
    match r {
        Ok(b) => {
            &&& resolves(pre, id, KindTag::Lamp)
            &&& b == false
            &&& pre.kind_of(id) matches DeviceKind::Lamp(l) && updates_kind(
                pre,
                post,
                id,
                DeviceKind::Lamp(LampState { brightness: l.brightness, on: false }),
            )
        },
        Err(e) => {
            &&& !resolves(pre, id, KindTag::Lamp)
            &&& err_for(pre, id, KindTag::Lamp, e)
            &&& post == pre
        },
    }
}

/// What `get_lamp_on_off` answers: the lamp's on/off state, read-only.
pub open spec fn get_lamp_on_off_post(r: Registry, id: Seq<char>, res: Result<
    bool,
    Error,
>) -> bool {
    match res {
        Ok(b) => {
            &&& resolves(r, id, KindTag::Lamp)
            &&& r.kind_of(id) matches DeviceKind::Lamp(l) && b == l.on
        },
        Err(e) => !resolves(r, id, KindTag::Lamp) && err_for(r, id, KindTag::Lamp, e),
    }
}

/// What `set_lamp_brightness` answers and does: the brightness becomes `v`
/// and `v` is returned.
pub open spec fn set_lamp_brightness_post(
    pre: Registry,
    post: Registry,
    id: Seq<char>,
    v: u8,
    r: Result<u8, Error>,
) -> bool {
    match r {
        Ok(b) => {
            &&& resolves(pre, id, KindTag::Lamp)
            &&& b == v
            &&& pre.kind_of(id) matches DeviceKind::Lamp(l) && updates_kind(
                pre,
                post,
                id,
                DeviceKind::Lamp(LampState { brightness: v, on: l.on }),
            )
        },
        Err(e) => {
            &&& !resolves(pre, id, KindTag::Lamp)
            &&& err_for(pre, id, KindTag::Lamp, e)
            &&& post == pre
        },
    }
}

/// What `get_lamp_brightness` answers: the lamp's brightness, read-only.
pub open spec fn get_lamp_brightness_post(r: Registry, id: Seq<char>, res: Result<
    u8,
    Error,
>) -> bool {
    match res {
        Ok(b) => {
            &&& resolves(r, id, KindTag::Lamp)
            &&& r.kind_of(id) matches DeviceKind::Lamp(l) && b == l.brightness
        },
        Err(e) => !resolves(r, id, KindTag::Lamp) && err_for(r, id, KindTag::Lamp, e),
    }
}

impl Registry {
    /// Turn the lamp under `id` on.
    pub fn turn_lamp_on(&mut self, id: &String) -> (r: Result<bool, Error>)
        requires
            old(self).wf(),
        ensures
            final(self).wf(),
            turn_lamp_on_post(*old(self), *final(self), id@, r),
    {
        let i = match self.resolve(id, KindTag::Lamp) {
            Ok(i) => i,
            Err(e) => {
                return Err(e);
            },
        };
        match self.kinds[i] {
            DeviceKind::Lamp(l) => {
                let nk = DeviceKind::Lamp(LampState { brightness: l.brightness, on: true });
                self.kinds.set(i, nk);
                proof {
                    lemma_set_kind(*old(self), *self, i as int, nk);
                }
                Ok(true)
            },
            _ => {
                proof {
                    assert(false);
                }
                Err(Error::NotFound(id.clone()))
            },
        }
    }

    /// Turn the lamp under `id` off.
    pub fn turn_lamp_off(&mut self, id: &String) -> (r: Result<bool, Error>)
        requires
            old(self).wf(),
        ensures
            final(self).wf(),
            turn_lamp_off_post(*old(self), *final(self), id@, r),
    {
        let i = match self.resolve(id, KindTag::Lamp) {
            Ok(i) => i,
            Err(e) => {
                return Err(e);
            },
        };
        match self.kinds[i] {
            DeviceKind::Lamp(l) => {
                let nk = DeviceKind::Lamp(LampState { brightness: l.brightness, on: false });
                self.kinds.set(i, nk);
                proof {
                    lemma_set_kind(*old(self), *self, i as int, nk);
                }
                Ok(false)
            },
            _ => {
                proof {
                    assert(false);
                }
                Err(Error::NotFound(id.clone()))
            },
        }
    }

    /// Read the on/off state of the lamp under `id`.
    pub fn get_lamp_on_off(&self, id: &String) -> (r: Result<bool, Error>)
        requires
            self.wf(),
        ensures
            get_lamp_on_off_post(*self, id@, r),
    {
        match self.resolve(id, KindTag::Lamp) {
            Err(e) => Err(e),
            Ok(i) => match self.kinds[i] {
                DeviceKind::Lamp(l) => Ok(l.on),
                _ => {
                    proof {
                        assert(false);
                    }
                    Err(Error::NotFound(id.clone()))
                },
            },
        }
    }

    /// Set the brightness of the lamp under `id` to `v`.
    pub fn set_lamp_brightness(&mut self, id: &String, v: u8) -> (r: Result<u8, Error>)
        requires
            old(self).wf(),
        ensures
            final(self).wf(),
            set_lamp_brightness_post(*old(self), *final(self), id@, v, r),
    {
        let i = match self.resolve(id, KindTag::Lamp) {
            Ok(i) => i,
            Err(e) => {
                return Err(e);
            },
        };
        match self.kinds[i] {
            DeviceKind::Lamp(l) => {
                let nk = DeviceKind::Lamp(LampState { brightness: v, on: l.on });
                self.kinds.set(i, nk);
                proof {
                    lemma_set_kind(*old(self), *self, i as int, nk);
                }
                Ok(v)
            },
            _ => {
                proof {
                    assert(false);
                }
                Err(Error::NotFound(id.clone()))
            },
        }
    }

    /// Read the brightness of the lamp under `id`.
    pub fn get_lamp_brightness(&self, id: &String) -> (r: Result<u8, Error>)
        requires
            self.wf(),
        ensures
            get_lamp_brightness_post(*self, id@, r),
    {
        match self.resolve(id, KindTag::Lamp) {
            Err(e) => Err(e),
            Ok(i) => match self.kinds[i] {
                DeviceKind::Lamp(l) => Ok(l.brightness),
                _ => {
                    proof {
                        assert(false);
                    }
                    Err(Error::NotFound(id.clone()))
                },
            },
        }
    }
}

/// What `set_sink_flow` answers and does: the flow becomes `v` and `v` is
/// returned.
pub open spec fn set_sink_flow_post(
    pre: Registry,
    post: Registry,
    id: Seq<char>,
    v: u8,
    r: Result<u8, Error>,
) -> bool {
    match r {
        Ok(b) => {
            &&& resolves(pre, id, KindTag::Sink)
            &&& b == v
            &&& pre.kind_of(id) matches DeviceKind::Sink(s) && updates_kind(
                pre,
                post,
                id,
                DeviceKind::Sink(SinkState { flow: v, temp: s.temp, level: s.level, drain: s.drain }),
            )
        },
        Err(e) => {
            &&& !resolves(pre, id, KindTag::Sink)
            &&& err_for(pre, id, KindTag::Sink, e)
            &&& post == pre
        },
    }
}

/// What `get_sink_flow` answers: the sink's water flow, read-only.
pub open spec fn get_sink_flow_post(r: Registry, id: Seq<char>, res: Result<u8, Error>) -> bool {
    match res {
        Ok(b) => {
            &&& resolves(r, id, KindTag::Sink)
            &&& r.kind_of(id) matches DeviceKind::Sink(s) && b == s.flow
        },
        Err(e) => !resolves(r, id, KindTag::Sink) && err_for(r, id, KindTag::Sink, e),
    }
}

/// What `set_sink_temp` answers and does: the temperature becomes `v` and
/// `v` is returned. The registry does not re-validate the range; callers
/// enforce it at the protocol boundary.
pub open spec fn set_sink_temp_post(
    pre: Registry,
    post: Registry,
    id: Seq<char>,
    v: u8,
    r: Result<u8, Error>,
) -> bool {
    match r {
        Ok(b) => {
            &&& resolves(pre, id, KindTag::Sink)
            &&& b == v
            &&& pre.kind_of(id) matches DeviceKind::Sink(s) && updates_kind(
                pre,
                post,
                id,
                DeviceKind::Sink(SinkState { flow: s.flow, temp: v, level: s.level, drain: s.drain }),
            )
        },
        Err(e) => {
            &&& !resolves(pre, id, KindTag::Sink)
            &&& err_for(pre, id, KindTag::Sink, e)
            &&& post == pre
        },
    }
}

/// What `get_sink_temp` answers: the sink's water temperature, read-only.
pub open spec fn get_sink_temp_post(r: Registry, id: Seq<char>, res: Result<u8, Error>) -> bool {
    match res {
        Ok(b) => {
            &&& resolves(r, id, KindTag::Sink)
            &&& r.kind_of(id) matches DeviceKind::Sink(s) && b == s.temp
        },
        Err(e) => !resolves(r, id, KindTag::Sink) && err_for(r, id, KindTag::Sink, e),
    }
}

/// What `close_sink_drain` answers and does: the drain closes and the new
/// drain state, `false`, is returned.
pub open spec fn close_sink_drain_post(
    pre: Registry,
    post: Registry,
    id: Seq<char>,
    r: Result<bool, Error>,
) -> bool {
    match r {
        Ok(b) => {
            &&& resolves(pre, id, KindTag::Sink)
            &&& b == false
            &&& pre.kind_of(id) matches DeviceKind::Sink(s) && updates_kind(
                pre,
                post,
                id,
                DeviceKind::Sink(SinkState { flow: s.flow, temp: s.temp, level: s.level, drain: false }),
            )
        },
        Err(e) => {
            &&& !resolves(pre, id, KindTag::Sink)
            &&& err_for(pre, id, KindTag::Sink, e)
            &&& post == pre
        },
    }
}

/// What `open_sink_drain` answers and does: the drain opens and the new
/// drain state, `true`, is returned.
pub open spec fn open_sink_drain_post(
    pre: Registry,
    post: Registry,
    id: Seq<char>,
    r: Result<bool, Error>,
) -> bool {
    match r {
        Ok(b) => {
            &&& resolves(pre, id, KindTag::Sink)
            &&& b == true
            &&& pre.kind_of(id) matches DeviceKind::Sink(s) && updates_kind(
                pre,
                post,
                id,
                DeviceKind::Sink(SinkState { flow: s.flow, temp: s.temp, level: s.level, drain: true }),
            )
        },
        Err(e) => {
            &&& !resolves(pre, id, KindTag::Sink)
            &&& err_for(pre, id, KindTag::Sink, e)
            &&& post == pre
        },
    }
}

/// What `get_sink_level` answers: the water level, read-only.
pub open spec fn get_sink_level_post(r: Registry, id: Seq<char>, res: Result<u8, Error>) -> bool {
    match res {
        Ok(b) => {
            &&& resolves(r, id, KindTag::Sink)
            &&& r.kind_of(id) matches DeviceKind::Sink(s) && b == s.level
        },
        Err(e) => !resolves(r, id, KindTag::Sink) && err_for(r, id, KindTag::Sink, e),
    }
}

/// What `get_door_lock_status` answers: the lock status, read-only.
pub open spec fn get_door_lock_status_post(r: Registry, id: Seq<char>, res: Result<
    DoorLockStatus,
    Error,
>) -> bool {
    match res {
        Ok(l) => {
            &&& resolves(r, id, KindTag::Door)
            &&& r.kind_of(id) matches DeviceKind::Door(d) && l == d.lock
        },
        Err(e) => !resolves(r, id, KindTag::Door) && err_for(r, id, KindTag::Door, e),
    }
}

/// What `get_door_open` answers: whether the door stands open, read-only.
pub open spec fn get_door_open_post(r: Registry, id: Seq<char>, res: Result<bool, Error>) -> bool {
    match res {
        Ok(b) => {
            &&& resolves(r, id, KindTag::Door)
            &&& r.kind_of(id) matches DeviceKind::Door(d) && b == d.is_open
        },
        Err(e) => !resolves(r, id, KindTag::Door) && err_for(r, id, KindTag::Door, e),
    }
}

/// What `lock_door` answers and does: the lock takes one `lock_step`, and
/// the flag reports success, which is owed exactly when the lock was not
/// jammed. A locked door stays locked; a jammed one is not touched.
pub open spec fn lock_door_post(
    pre: Registry,
    post: Registry,
    id: Seq<char>,
    r: Result<bool, Error>,
) -> bool {
    match r {
        Ok(b) => {
            &&& resolves(pre, id, KindTag::Door)
            &&& pre.kind_of(id) matches DeviceKind::Door(d) && b == lock_ok(d.lock)
                && updates_kind(
                pre,
                post,
                id,
                DeviceKind::Door(DoorState { is_open: d.is_open, lock: lock_step(d.lock) }),
            )
        },
        Err(e) => {
            &&& !resolves(pre, id, KindTag::Door)
            &&& err_for(pre, id, KindTag::Door, e)
            &&& post == pre
        },
    }
}

/// What `unlock_door` answers and does, symmetrically to `lock_door`.
pub open spec fn unlock_door_post(
    pre: Registry,
    post: Registry,
    id: Seq<char>,
    r: Result<bool, Error>,
) -> bool {
    match r {
        Ok(b) => {
            &&& resolves(pre, id, KindTag::Door)
            &&& pre.kind_of(id) matches DeviceKind::Door(d) && b == unlock_ok(d.lock)
                && updates_kind(
                pre,
                post,
                id,
                DeviceKind::Door(DoorState { is_open: d.is_open, lock: unlock_step(d.lock) }),
            )
        },
        Err(e) => {
            &&& !resolves(pre, id, KindTag::Door)
            &&& err_for(pre, id, KindTag::Door, e)
            &&& post == pre
        },
    }
}

/// What `get_fridge_temperature` answers: the measured temperature.
pub open spec fn get_fridge_temperature_post(r: Registry, id: Seq<char>, res: Result<
    i8,
    Error,
>) -> bool {
    match res {
        Ok(t) => {
            &&& resolves(r, id, KindTag::Fridge)
            &&& r.kind_of(id) matches DeviceKind::Fridge(f) && t == f.temperature
        },
        Err(e) => !resolves(r, id, KindTag::Fridge) && err_for(r, id, KindTag::Fridge, e),
    }
}

/// What `get_fridge_target_temperature` answers: the target temperature.
pub open spec fn get_fridge_target_temperature_post(r: Registry, id: Seq<char>, res: Result<
    i8,
    Error,
>) -> bool {
    match res {
        Ok(t) => {
            &&& resolves(r, id, KindTag::Fridge)
            &&& r.kind_of(id) matches DeviceKind::Fridge(f) && t == f.target_temperature
        },
        Err(e) => !resolves(r, id, KindTag::Fridge) && err_for(r, id, KindTag::Fridge, e),
    }
}

/// What `set_fridge_target_temperature` answers and does: the target becomes
/// `v` and `v` is returned.
pub open spec fn set_fridge_target_temperature_post(
    pre: Registry,
    post: Registry,
    id: Seq<char>,
    v: i8,
    r: Result<i8, Error>,
) -> bool {
    match r {
        Ok(t) => {
            &&& resolves(pre, id, KindTag::Fridge)
            &&& t == v
            &&& pre.kind_of(id) matches DeviceKind::Fridge(f) && updates_kind(
                pre,
                post,
                id,
                DeviceKind::Fridge(
                    FridgeState {
                        open: f.open,
                        temperature: f.temperature,
                        target_temperature: v,
                    },
                ),
            )
        },
        Err(e) => {
            &&& !resolves(pre, id, KindTag::Fridge)
            &&& err_for(pre, id, KindTag::Fridge, e)
            &&& post == pre
        },
    }
}

/// What `get_fridge_open` answers: whether the fridge stands open.
pub open spec fn get_fridge_open_post(r: Registry, id: Seq<char>, res: Result<bool, Error>) -> bool {
    match res {
        Ok(b) => {
            &&& resolves(r, id, KindTag::Fridge)
            &&& r.kind_of(id) matches DeviceKind::Fridge(f) && b == f.open
        },
        Err(e) => !resolves(r, id, KindTag::Fridge) && err_for(r, id, KindTag::Fridge, e),
    }
}

impl Registry {
    /// Set the water flow of the sink under `id` to `v`.
    pub fn set_sink_flow(&mut self, id: &String, v: u8) -> (r: Result<u8, Error>)
        requires
            old(self).wf(),
        ensures
            final(self).wf(),
            set_sink_flow_post(*old(self), *final(self), id@, v, r),
    {
        let i = match self.resolve(id, KindTag::Sink) {
            Ok(i) => i,
            Err(e) => {
                return Err(e);
            },
        };
        match self.kinds[i] {
            DeviceKind::Sink(s) => {
                let nk = DeviceKind::Sink(
                    SinkState { flow: v, temp: s.temp, level: s.level, drain: s.drain },
                );
                self.kinds.set(i, nk);
                proof {
                    lemma_set_kind(*old(self), *self, i as int, nk);
                }
                Ok(v)
            },
            _ => {
                proof {
                    assert(false);
                }
                Err(Error::NotFound(id.clone()))
            },
        }
    }

    /// Read the water flow of the sink under `id`.
    pub fn get_sink_flow(&self, id: &String) -> (r: Result<u8, Error>)
        requires
            self.wf(),
        ensures
            get_sink_flow_post(*self, id@, r),
    {
        match self.resolve(id, KindTag::Sink) {
            Err(e) => Err(e),
            Ok(i) => match self.kinds[i] {
                DeviceKind::Sink(s) => Ok(s.flow),
                _ => {
                    proof {
                        assert(false);
                    }
                    Err(Error::NotFound(id.clone()))
                },
            },
        }
    }

    /// Set the water temperature of the sink under `id` to `v`.
    pub fn set_sink_temp(&mut self, id: &String, v: u8) -> (r: Result<u8, Error>)
        requires
            old(self).wf(),
        ensures
            final(self).wf(),
            set_sink_temp_post(*old(self), *final(self), id@, v, r),
    {
        let i = match self.resolve(id, KindTag::Sink) {
            Ok(i) => i,
            Err(e) => {
                return Err(e);
            },
        };
        match self.kinds[i] {
            DeviceKind::Sink(s) => {
                let nk = DeviceKind::Sink(
                    SinkState { flow: s.flow, temp: v, level: s.level, drain: s.drain },
                );
                self.kinds.set(i, nk);
                proof {
                    lemma_set_kind(*old(self), *self, i as int, nk);
                }
                Ok(v)
            },
            _ => {
                proof {
                    assert(false);
                }
                Err(Error::NotFound(id.clone()))
            },
        }
    }

    /// Read the water temperature of the sink under `id`.
    pub fn get_sink_temp(&self, id: &String) -> (r: Result<u8, Error>)
        requires
            self.wf(),
        ensures
            get_sink_temp_post(*self, id@, r),
    {
        match self.resolve(id, KindTag::Sink) {
            Err(e) => Err(e),
            Ok(i) => match self.kinds[i] {
                DeviceKind::Sink(s) => Ok(s.temp),
                _ => {
                    proof {
                        assert(false);
                    }
                    Err(Error::NotFound(id.clone()))
                },
            },
        }
    }

    /// Close the drain of the sink under `id`, letting the water level rise.
    pub fn close_sink_drain(&mut self, id: &String) -> (r: Result<bool, Error>)
        requires
            old(self).wf(),
        ensures
            final(self).wf(),
            close_sink_drain_post(*old(self), *final(self), id@, r),
    {
        let i = match self.resolve(id, KindTag::Sink) {
            Ok(i) => i,
            Err(e) => {
                return Err(e);
            },
        };
        match self.kinds[i] {
            DeviceKind::Sink(s) => {
                let nk = DeviceKind::Sink(
                    SinkState { flow: s.flow, temp: s.temp, level: s.level, drain: false },
                );
                self.kinds.set(i, nk);
                proof {
                    lemma_set_kind(*old(self), *self, i as int, nk);
                }
                Ok(false)
            },
            _ => {
                proof {
                    assert(false);
                }
                Err(Error::NotFound(id.clone()))
            },
        }
    }

    /// Open the drain of the sink under `id`, emptying the basin.
    pub fn open_sink_drain(&mut self, id: &String) -> (r: Result<bool, Error>)
        requires
            old(self).wf(),
        ensures
            final(self).wf(),
            open_sink_drain_post(*old(self), *final(self), id@, r),
    {
        let i = match self.resolve(id, KindTag::Sink) {
            Ok(i) => i,
            Err(e) => {
                return Err(e);
            },
        };
        match self.kinds[i] {
            DeviceKind::Sink(s) => {
                let nk = DeviceKind::Sink(
                    SinkState { flow: s.flow, temp: s.temp, level: s.level, drain: true },
                );
                self.kinds.set(i, nk);
                proof {
                    lemma_set_kind(*old(self), *self, i as int, nk);
                }
                Ok(true)
            },
            _ => {
                proof {
                    assert(false);
                }
                Err(Error::NotFound(id.clone()))
            },
        }
    }

    /// Read the water level of the sink under `id`.
    pub fn get_sink_level(&self, id: &String) -> (r: Result<u8, Error>)
        requires
            self.wf(),
        ensures
            get_sink_level_post(*self, id@, r),
    {
        match self.resolve(id, KindTag::Sink) {
            Err(e) => Err(e),
            Ok(i) => match self.kinds[i] {
                DeviceKind::Sink(s) => Ok(s.level),
                _ => {
                    proof {
                        assert(false);
                    }
                    Err(Error::NotFound(id.clone()))
                },
            },
        }
    }

    /// Read the lock status of the door under `id`.
    pub fn get_door_lock_status(&self, id: &String) -> (r: Result<DoorLockStatus, Error>)
        requires
            self.wf(),
        ensures
            get_door_lock_status_post(*self, id@, r),
    {
        match self.resolve(id, KindTag::Door) {
            Err(e) => Err(e),
            Ok(i) => match self.kinds[i] {
                DeviceKind::Door(d) => Ok(d.lock),
                _ => {
                    proof {
                        assert(false);
                    }
                    Err(Error::NotFound(id.clone()))
                },
            },
        }
    }

    /// Read whether the door under `id` stands open.
    pub fn get_door_open(&self, id: &String) -> (r: Result<bool, Error>)
        requires
            self.wf(),
        ensures
            get_door_open_post(*self, id@, r),
    {
        match self.resolve(id, KindTag::Door) {
            Err(e) => Err(e),
            Ok(i) => match self.kinds[i] {
                DeviceKind::Door(d) => Ok(d.is_open),
                _ => {
                    proof {
                        assert(false);
                    }
                    Err(Error::NotFound(id.clone()))
                },
            },
        }
    }

    /// Try to lock the door under `id`. Succeeds, idempotently, unless the
    /// lock is jammed; a jammed lock reports failure and is left untouched.
    pub fn lock_door(&mut self, id: &String) -> (r: Result<bool, Error>)
        requires
            old(self).wf(),
        ensures
            final(self).wf(),
            lock_door_post(*old(self), *final(self), id@, r),
    {
        let i = match self.resolve(id, KindTag::Door) {
            Ok(i) => i,
            Err(e) => {
                return Err(e);
            },
        };
        match self.kinds[i] {
            DeviceKind::Door(d) => {
                let (nl, ok) = match d.lock {
                    DoorLockStatus::Unlocked => (DoorLockStatus::Locked, true),
                    DoorLockStatus::Locked => (DoorLockStatus::Locked, true),
                    DoorLockStatus::Jammed => (DoorLockStatus::Jammed, false),
                };
                let nk = DeviceKind::Door(DoorState { is_open: d.is_open, lock: nl });
                self.kinds.set(i, nk);
                proof {
                    lemma_set_kind(*old(self), *self, i as int, nk);
                }
                Ok(ok)
            },
            _ => {
                proof {
                    assert(false);
                }
                Err(Error::NotFound(id.clone()))
            },
        }
    }

    /// Try to unlock the door under `id`, symmetrically to `lock_door`.
    pub fn unlock_door(&mut self, id: &String) -> (r: Result<bool, Error>)
        requires
            old(self).wf(),
        ensures
            final(self).wf(),
            unlock_door_post(*old(self), *final(self), id@, r),
    {
        let i = match self.resolve(id, KindTag::Door) {
            Ok(i) => i,
            Err(e) => {
                return Err(e);
            },
        };
        match self.kinds[i] {
            DeviceKind::Door(d) => {
                let (nl, ok) = match d.lock {
                    DoorLockStatus::Unlocked => (DoorLockStatus::Unlocked, true),
                    DoorLockStatus::Locked => (DoorLockStatus::Unlocked, true),
                    DoorLockStatus::Jammed => (DoorLockStatus::Jammed, false),
                };
                let nk = DeviceKind::Door(DoorState { is_open: d.is_open, lock: nl });
                self.kinds.set(i, nk);
                proof {
                    lemma_set_kind(*old(self), *self, i as int, nk);
                }
                Ok(ok)
            },
            _ => {
                proof {
                    assert(false);
                }
                Err(Error::NotFound(id.clone()))
            },
        }
    }

    /// Read the measured temperature of the fridge under `id`.
    pub fn get_fridge_temperature(&self, id: &String) -> (r: Result<i8, Error>)
        requires
            self.wf(),
        ensures
            get_fridge_temperature_post(*self, id@, r),
    {
        match self.resolve(id, KindTag::Fridge) {
            Err(e) => Err(e),
            Ok(i) => match self.kinds[i] {
                DeviceKind::Fridge(f) => Ok(f.temperature),
                _ => {
                    proof {
                        assert(false);
                    }
                    Err(Error::NotFound(id.clone()))
                },
            },
        }
    }

    /// Read the target temperature of the fridge under `id`.
    pub fn get_fridge_target_temperature(&self, id: &String) -> (r: Result<i8, Error>)
        requires
            self.wf(),
        ensures
            get_fridge_target_temperature_post(*self, id@, r),
    {
        match self.resolve(id, KindTag::Fridge) {
            Err(e) => Err(e),
            Ok(i) => match self.kinds[i] {
                DeviceKind::Fridge(f) => Ok(f.target_temperature),
                _ => {
                    proof {
                        assert(false);
                    }
                    Err(Error::NotFound(id.clone()))
                },
            },
        }
    }

    /// Set the target temperature of the fridge under `id` to `v`.
    pub fn set_fridge_target_temperature(&mut self, id: &String, v: i8) -> (r: Result<i8, Error>)
        requires
            old(self).wf(),
        ensures
            final(self).wf(),
            set_fridge_target_temperature_post(*old(self), *final(self), id@, v, r),
    {
        let i = match self.resolve(id, KindTag::Fridge) {
            Ok(i) => i,
            Err(e) => {
                return Err(e);
            },
        };
        match self.kinds[i] {
            DeviceKind::Fridge(f) => {
                let nk = DeviceKind::Fridge(
                    FridgeState {
                        open: f.open,
                        temperature: f.temperature,
                        target_temperature: v,
                    },
                );
                self.kinds.set(i, nk);
                proof {
                    lemma_set_kind(*old(self), *self, i as int, nk);
                }
                Ok(v)
            },
            _ => {
                proof {
                    assert(false);
                }
                Err(Error::NotFound(id.clone()))
            },
        }
    }

    /// Read whether the fridge under `id` stands open.
    pub fn get_fridge_open(&self, id: &String) -> (r: Result<bool, Error>)
        requires
            self.wf(),
        ensures
            get_fridge_open_post(*self, id@, r),
    {
        match self.resolve(id, KindTag::Fridge) {
            Err(e) => Err(e),
            Ok(i) => match self.kinds[i] {
                DeviceKind::Fridge(f) => Ok(f.open),
                _ => {
                    proof {
                        assert(false);
                    }
                    Err(Error::NotFound(id.clone()))
                },
            },
        }
    }
}

/// Whether a device's kind carries this tag.
pub open spec fn kind_pred(r: Registry, tag: KindTag) -> spec_fn(Seq<char>) -> bool {
    |d: Seq<char>| tag_of(r.kind_of(d)) == tag
}

/// What a discovery operation answers: the ids of the devices of kind `tag`,
/// in the registry's iteration order.
pub open spec fn found_ids(r: Registry, tag: KindTag, out: Seq<Seq<char>>) -> bool {
    out == r.id_seq().filter(kind_pred(r, tag))
}

/// An element of a filtered sequence is an element of the sequence, and
/// satisfies the predicate.
proof fn lemma_filter_member<A>(s: Seq<A>, pred: spec_fn(A) -> bool, x: A)
    requires
        s.filter(pred).contains(x),
    ensures
        s.contains(x),
        pred(x),
    decreases s.len(),
{
    reveal(Seq::filter);
    if s.len() > 0 {
        if pred(s.last()) && x == s.last() {
            assert(s.contains(x)) by {
                assert(s[s.len() - 1] == x);
            }
        } else {
            assert(s.drop_last().filter(pred).contains(x));
            lemma_filter_member(s.drop_last(), pred, x);
            let j = choose|j: int| 0 <= j < s.drop_last().len() && s.drop_last()[j] == x;
            assert(s[j] == x);
        }
    }
}

/// What discovery answers holds exactly the ids that resolve to the kind:
/// every returned id names a device of kind `tag`, and every device of kind
/// `tag` is returned.
pub proof fn lemma_found_ids_characterize(r: Registry, tag: KindTag, out: Seq<Seq<char>>)
    requires
        r.wf(),
        found_ids(r, tag, out),
    ensures
        forall|d: Seq<char>| out.contains(d) <==> resolves(r, d, tag),
{
    let s = r.id_seq();
    let pred = kind_pred(r, tag);
    assert forall|d: Seq<char>| out.contains(d) implies resolves(r, d, tag) by {
        lemma_filter_member(s, pred, d);
    }
    assert forall|d: Seq<char>| resolves(r, d, tag) implies out.contains(d) by {
        let j = choose|j: int| 0 <= j < s.len() && s[j] == d;
        s.lemma_filter_contains(pred, j);
    }
}

/// A filter of a duplicate-free sequence is duplicate-free.
proof fn lemma_filter_distinct<A>(s: Seq<A>, pred: spec_fn(A) -> bool)
    requires
        forall|i: int, j: int| 0 <= i < j < s.len() ==> s[i] != s[j],
    ensures
        forall|i: int, j: int|
            0 <= i < j < s.filter(pred).len() ==> s.filter(pred)[i] != s.filter(pred)[j],
    decreases s.len(),
{
    reveal(Seq::filter);
    if s.len() > 0 {
        let t = s.drop_last();
        assert(forall|i: int, j: int| 0 <= i < j < t.len() ==> t[i] != t[j]);
        lemma_filter_distinct(t, pred);
        if pred(s.last()) {
            let out = s.filter(pred);
            assert(out == t.filter(pred).push(s.last()));
            assert forall|i: int, j: int|
                0 <= i < j < out.len() implies out[i] != out[j] by {
                if j == out.len() - 1 {
                    if out[i] == s.last() {
                        lemma_filter_member(t, pred, out[i]);
                        let w = choose|w: int| 0 <= w < t.len() && t[w] == out[i];
                        assert(s[w] == s[s.len() - 1]);
                    }
                }
            }
        }
    }
}

/// Discovery never lists an id twice: since ids are unique in the registry,
/// the ids a discovery operation answers with are pairwise distinct.
pub proof fn lemma_found_ids_distinct(r: Registry, tag: KindTag, out: Seq<Seq<char>>)
    requires
        r.wf(),
        found_ids(r, tag, out),
    ensures
        forall|i: int, j: int| 0 <= i < j < out.len() ==> out[i] != out[j],
{
    let s = r.id_seq();
    assert forall|i: int, j: int| 0 <= i < j < s.len() implies s[i] != s[j] by {
        assert(s[i] == r.ids@[i]@);
        assert(s[j] == r.ids@[j]@);
    }
    lemma_filter_distinct(s, kind_pred(r, tag));
}

impl Registry {
    /// The ids of all devices whose kind carries `tag`, in registry order.
    fn find_ids(&self, tag: KindTag) -> (out: Vec<String>)
        requires
            self.wf(),
        ensures
            found_ids(*self, tag, out.deep_view()),
    {
        let n = self.ids.len();
        let mut out: Vec<String> = Vec::new();
        let mut i: usize = 0;
        while i < n
            invariant
                self.wf(),
                n == self.ids@.len(),
                i <= n,
                out.deep_view() == self.id_seq().take(i as int).filter(
                    kind_pred(*self, tag),
                ),
            decreases n - i,
        {
            let ghost pre_dv = out.deep_view();
            let k = self.kinds[i];
            let matched = k.tag() == tag;
            if matched {
                out.push(self.ids[i].clone());
            }
            proof {
                lemma_index_of_at(*self, i as int);
                let s = self.id_seq();
                let pred = kind_pred(*self, tag);
                let t1 = s.take(i as int + 1);
                assert(t1.drop_last() =~= s.take(i as int));
                assert(t1.last() == s[i as int]);
                reveal(Seq::filter);
                if matched {
                    assert(out.deep_view() =~= pre_dv.push(s[i as int]));
                    assert(t1.filter(pred) =~= s.take(i as int).filter(pred).push(s[i as int]));
                } else {
                    assert(t1.filter(pred) =~= s.take(i as int).filter(pred));
                }
            }
            i += 1;
        }
        proof {
            assert(self.id_seq().take(n as int) =~= self.id_seq());
        }
        out
    }

    /// List the ids of all lamps.
    pub fn find_lamps(&self) -> (r: Result<Vec<String>, Error>)
        requires
            self.wf(),
        ensures
            r matches Ok(out) && found_ids(*self, KindTag::Lamp, out.deep_view()),
    {
        Ok(self.find_ids(KindTag::Lamp))
    }

    /// List the ids of all sinks.
    pub fn find_sinks(&self) -> (r: Result<Vec<String>, Error>)
        requires
            self.wf(),
        ensures
            r matches Ok(out) && found_ids(*self, KindTag::Sink, out.deep_view()),
    {
        Ok(self.find_ids(KindTag::Sink))
    }

    /// List the ids of all doors.
    pub fn find_doors(&self) -> (r: Result<Vec<String>, Error>)
        requires
            self.wf(),
        ensures
            r matches Ok(out) && found_ids(*self, KindTag::Door, out.deep_view()),
    {
        Ok(self.find_ids(KindTag::Door))
    }

    /// List the ids of all fridges.
    pub fn find_fridges(&self) -> (r: Result<Vec<String>, Error>)
        requires
            self.wf(),
        ensures
            r matches Ok(out) && found_ids(*self, KindTag::Fridge, out.deep_view()),
    {
        Ok(self.find_ids(KindTag::Fridge))
    }
}

/// What `insert` does: the device under `id` now has this name and state;
/// every other device is untouched, and the count grows exactly when the id
/// was new.
pub open spec fn inserted(
    pre: Registry,
    post: Registry,
    id: Seq<char>,
    name: Seq<char>,
    k: DeviceKind,
) -> bool {
    &&& post.contains_id(id)
    &&& post.kind_of(id) == k
    &&& post.name_of(id) == name
    &&& forall|d: Seq<char>| d != id ==> (#[trigger] post.contains_id(d) <==> pre.contains_id(d))
    &&& forall|d: Seq<char>|
        d != id && pre.contains_id(d) ==> #[trigger] post.kind_of(d) == pre.kind_of(d)
            && post.name_of(d) == pre.name_of(d)
    &&& post.device_count() == if pre.contains_id(id) {
        pre.device_count()
    } else {
        pre.device_count() + 1
    }
}

/// Overwriting the name and state at an existing index updates exactly that
/// device.
proof fn lemma_overwrite(pre: Registry, post: Registry, i: int, name: Seq<char>, k: DeviceKind)
    requires
        pre.wf(),
        0 <= i < pre.kinds@.len(),
        post.ids@ == pre.ids@,
        post.names@ == pre.names@.update(i, post.names@[i]),
        post.names@[i]@ == name,
        post.kinds@ == pre.kinds@.update(i, k),
    ensures
        post.wf(),
        inserted(pre, post, pre.id_seq()[i], name, k),
{
    assert(post.id_seq() =~= pre.id_seq());
    let id = pre.id_seq()[i];
    lemma_index_of_at(pre, i);
    assert(post.contains_id(id));
    lemma_index_of_contained(post, id);
    assert(post.index_of(id) == i);
    assert forall|d: Seq<char>|
        d != id && pre.contains_id(d) implies #[trigger] post.kind_of(d) == pre.kind_of(d)
        && post.name_of(d) == pre.name_of(d) by {
        lemma_index_of_contained(pre, d);
        lemma_index_of_contained(post, d);
        assert(pre.index_of(d) != i);
    }
}

/// Appending a fresh id adds exactly that device.
proof fn lemma_append(pre: Registry, post: Registry, id: Seq<char>, name: Seq<char>, k: DeviceKind)
    requires
        pre.wf(),
        !pre.contains_id(id),
        post.ids@.len() == pre.ids@.len() + 1,
        post.ids@ == pre.ids@.push(post.ids@[pre.ids@.len() as int]),
        post.ids@[pre.ids@.len() as int]@ == id,
        post.names@ == pre.names@.push(post.names@[pre.names@.len() as int]),
        post.names@[pre.names@.len() as int]@ == name,
        post.kinds@ == pre.kinds@.push(k),
    ensures
        post.wf(),
        inserted(pre, post, id, name, k),
{
    let n = pre.ids@.len() as int;
    assert(post.id_seq() =~= pre.id_seq().push(id));
    assert forall|j: int| 0 <= j < n implies pre.id_seq()[j] != id by {
        if pre.id_seq()[j] == id {
            assert(pre.contains_id(id));
        }
    }
    assert forall|i2: int, j2: int|
        0 <= i2 < j2 < post.ids@.len() implies post.ids@[i2]@ != post.ids@[j2]@ by {
        if j2 < n {
            assert(pre.ids@[i2]@ != pre.ids@[j2]@);
        } else {
            assert(post.ids@[j2]@ == id);
            assert(post.ids@[i2]@ == pre.id_seq()[i2]);
        }
    }
    assert(post.wf());
    assert(post.id_seq()[n] == id);
    assert(post.contains_id(id));
    lemma_index_of_contained(post, id);
    assert(post.index_of(id) == n);
    assert(post.kind_of(id) == k);
    assert(post.name_of(id) == name);
    assert forall|d: Seq<char>| d != id implies (#[trigger] post.contains_id(d)
        <==> pre.contains_id(d)) by {
        if post.contains_id(d) {
            let j = choose|j: int| 0 <= j < post.id_seq().len() && post.id_seq()[j] == d;
            assert(j != n);
            assert(pre.id_seq()[j] == d);
        }
        if pre.contains_id(d) {
            let j = choose|j: int| 0 <= j < pre.id_seq().len() && pre.id_seq()[j] == d;
            assert(post.id_seq()[j] == d);
        }
    }
    assert forall|d: Seq<char>|
        d != id && pre.contains_id(d) implies #[trigger] post.kind_of(d) == pre.kind_of(d)
        && post.name_of(d) == pre.name_of(d) by {
        lemma_index_of_contained(pre, d);
        lemma_index_of_contained(post, d);
        assert(post.id_seq()[pre.index_of(d)] == d);
        assert(post.index_of(d) == pre.index_of(d));
    }
}

impl Registry {
    /// Put a device under `id`: a new entry when the id is fresh, otherwise
    /// the stored name and state are replaced and the id keeps its place.
    pub fn insert(&mut self, id: String, name: String, kind: DeviceKind)
        requires
            old(self).wf(),
        ensures
            final(self).wf(),
            inserted(*old(self), *final(self), id@, name@, kind),
    {
        match self.position_of(&id) {
            Some(i) => {
                self.names.set(i, name);
                self.kinds.set(i, kind);
                proof {
                    lemma_overwrite(*old(self), *self, i as int, name@, kind);
                }
            },
            None => {
                let ghost n = self.ids@.len() as int;
                self.ids.push(id);
                self.names.push(name);
                self.kinds.push(kind);
                proof {
                    lemma_append(*old(self), *self, self.ids@[n]@, name@, kind);
                }
            },
        }
    }
}

impl Default for Registry {
    /// The built-in device set a server falls back to without configuration:
    /// two lamps, a kitchen sink, a bedroom door and a kitchen fridge, each
    /// in its kind's default state.
    fn default() -> (r: Registry)
        ensures
            r.wf(),
            r.device_count() == 5,
            r.contains_id("lamp1"@) && r.name_of("lamp1"@) == "Safe lamp"@,
            r.kind_of("lamp1"@) == (DeviceKind::Lamp(LampState { brightness: 0, on: false })),
            r.contains_id("lamp2"@) && r.name_of("lamp2"@) == "Unsafe lamp"@,
            r.kind_of("lamp2"@) == (DeviceKind::Lamp(LampState { brightness: 0, on: false })),
            r.contains_id("sink 1"@) && r.name_of("sink 1"@) == "Kitchen Sink"@,
            r.kind_of("sink 1"@) == (DeviceKind::Sink(
                SinkState { flow: 0, temp: 20, level: 0, drain: true },
            )),
            r.contains_id("door 1"@) && r.name_of("door 1"@) == "Bedroom Door"@,
            r.kind_of("door 1"@) == (DeviceKind::Door(
                DoorState { is_open: false, lock: DoorLockStatus::Unlocked },
            )),
            r.contains_id("fridge 1"@) && r.name_of("fridge 1"@) == "Kitchen Fridge"@,
            r.kind_of("fridge 1"@) == (DeviceKind::Fridge(
                FridgeState { open: false, temperature: 5, target_temperature: 4 },
            )),
            forall|d: Seq<char>| #[trigger]
                r.contains_id(d) ==> (d == "lamp1"@ || d == "lamp2"@ || d == "sink 1"@ || d
                    == "door 1"@ || d == "fridge 1"@),
    {
        let mut r = Registry::new();
        r.insert("lamp1".to_owned(), "Safe lamp".to_owned(), DeviceKind::Lamp(LampState::default()));
        r.insert(
            "lamp2".to_owned(),
            "Unsafe lamp".to_owned(),
            DeviceKind::Lamp(LampState::default()),
        );
        r.insert(
            "sink 1".to_owned(),
            "Kitchen Sink".to_owned(),
            DeviceKind::Sink(SinkState::default()),
        );
        r.insert(
            "door 1".to_owned(),
            "Bedroom Door".to_owned(),
            DeviceKind::Door(DoorState::default()),
        );
        r.insert(
            "fridge 1".to_owned(),
            "Kitchen Fridge".to_owned(),
            DeviceKind::Fridge(FridgeState::default()),
        );
        proof {
            reveal_strlit("lamp1");
            reveal_strlit("lamp2");
            reveal_strlit("sink 1");
            reveal_strlit("door 1");
            reveal_strlit("fridge 1");
            assert("lamp1"@.len() == 5);
            assert("lamp2"@.len() == 5);
            assert("sink 1"@.len() == 6);
            assert("door 1"@.len() == 6);
            assert("fridge 1"@.len() == 8);
            assert("lamp1"@[4] == '1');
            assert("lamp2"@[4] == '2');
            assert("sink 1"@[0] == 's');
            assert("door 1"@[0] == 'd');
            assert("lamp1"@ != "lamp2"@);
            assert("lamp1"@ != "sink 1"@);
            assert("lamp1"@ != "door 1"@);
            assert("lamp1"@ != "fridge 1"@);
            assert("lamp2"@ != "sink 1"@);
            assert("lamp2"@ != "door 1"@);
            assert("lamp2"@ != "fridge 1"@);
            assert("sink 1"@ != "door 1"@);
            assert("sink 1"@ != "fridge 1"@);
            assert("door 1"@ != "fridge 1"@);
            assert forall|d: Seq<char>| #[trigger] r.contains_id(d) implies (d == "lamp1"@ || d
                == "lamp2"@ || d == "sink 1"@ || d == "door 1"@ || d == "fridge 1"@) by {}
        }
        r
    }
}

/// A request naming a present device of the requested kind is never refused:
/// no protocol error, neither `NotFound` nor `Mismatch`, is consistent with
/// a registry that resolves the id to that kind. Since every operation's
/// contract makes a failed answer satisfy `err_for`, an operation on a valid
/// id of the matching kind always answers `Ok`.
pub proof fn lemma_matching_kind_never_fails(r: Registry, id: Seq<char>, tag: KindTag, e: Error)
    requires
        resolves(r, id, tag),
    ensures
        !err_for(r, id, tag, e),
{
}

/// An operation naming an absent id answers exactly `NotFound` carrying
/// that id, whatever kind it requested.
pub proof fn lemma_absent_id_not_found(r: Registry, id: Seq<char>, tag: KindTag, e: Error)
    requires
        !r.contains_id(id),
        err_for(r, id, tag, e),
    ensures
        e matches Error::NotFound(s) && s@ == id,
{
}

/// An operation naming a present device of the wrong kind answers exactly
/// `Mismatch`, whose `found` field names the stored kind and whose `req`
/// field names the requested one.
pub proof fn lemma_wrong_kind_mismatch(r: Registry, id: Seq<char>, tag: KindTag, e: Error)
    requires
        r.contains_id(id),
        tag_of(r.kind_of(id)) != tag,
        err_for(r, id, tag, e),
    ensures
        e matches Error::Mismatch { found, req } && found@ == tag_name(tag_of(r.kind_of(id)))
            && req@ == tag_name(tag),
{
}

/// Round trip: setting the brightness of a present lamp to `v` succeeds and
/// answers `v`, and a following read answers exactly `v`, for every `v`.
pub proof fn lemma_brightness_round_trip(
    pre: Registry,
    mid: Registry,
    id: Seq<char>,
    v: u8,
    rs: Result<u8, Error>,
    rg: Result<u8, Error>,
)
    requires
        pre.wf(),
        resolves(pre, id, KindTag::Lamp),
        set_lamp_brightness_post(pre, mid, id, v, rs),
        get_lamp_brightness_post(mid, id, rg),
    ensures
        rs == Result::<u8, Error>::Ok(v),
        rg == Result::<u8, Error>::Ok(v),
{
    if rs is Err {
        lemma_matching_kind_never_fails(pre, id, KindTag::Lamp, rs->Err_0);
    }
    assert(mid.contains_id(id));
    assert(resolves(mid, id, KindTag::Lamp));
    if rg is Err {
        lemma_matching_kind_never_fails(mid, id, KindTag::Lamp, rg->Err_0);
    }
}

/// Locking a present door twice: both calls succeed as operations, the
/// second leaves the lock exactly where the first put it, and both report
/// the same outcome. On an unlocked door the first call locks it and the
/// second is a successful no-op; a locked or jammed lock is unaffected by
/// repeated calls.
pub proof fn lemma_lock_door_idempotent(
    r0: Registry,
    r1: Registry,
    r2: Registry,
    id: Seq<char>,
    b1: bool,
    b2: bool,
)
    requires
        r0.wf(),
        lock_door_post(r0, r1, id, Result::<bool, Error>::Ok(b1)),
        lock_door_post(r1, r2, id, Result::<bool, Error>::Ok(b2)),
    ensures
        r2.kind_of(id) == r1.kind_of(id),
        b2 == b1,
        r0.kind_of(id) matches DeviceKind::Door(d) ==> {
            &&& d.lock is Unlocked ==> r1.kind_of(id)->Door_0.lock is Locked && b1 && b2
            &&& (d.lock is Locked || d.lock is Jammed) ==> r1.kind_of(id) == r0.kind_of(id)
        },
{
    let d0 = r0.kind_of(id)->Door_0;
    crate::device::lemma_lock_idempotent(d0.lock);
}

/// Serialized mutators realize one total order, with no lost update: after
/// a chain of successful flow settings on one sink, each applied to the
/// state the previous one left, the final flow is the last value written,
/// and in particular one of the submitted values.
pub proof fn lemma_sink_flow_last_write_wins(regs: Seq<Registry>, vs: Seq<u8>, id: Seq<char>)
    requires
        regs.len() == vs.len() + 1,
        vs.len() > 0,
        forall|k: int|
            0 <= k < vs.len() ==> set_sink_flow_post(
                regs[k],
                regs[k + 1],
                id,
                vs[k],
                Result::<u8, Error>::Ok(vs[k]),
            ),
    ensures
        regs.last().kind_of(id) matches DeviceKind::Sink(s) && s.flow == vs.last() && vs.contains(
            s.flow,
        ),
{
    let k = vs.len() - 1;
    assert(set_sink_flow_post(regs[k], regs[k + 1], id, vs[k], Result::<u8, Error>::Ok(vs[k])));
    assert(vs[k] == vs.last());
}

} // verus!
