//! Client-side typed handles and the proxy's local decisions.
//!
//! A connected client discovers devices by kind and holds one handle per
//! device id. The handles are cheap views: they cache no state, and every
//! operation on one costs one round trip. The protocol has no "get one
//! device by id" operation; a single-device lookup issues the kind's
//! discovery operation and filters the returned id list locally. That filter
//! and the wrapping of id lists into handles are the proxy's only decisions,
//! and they are verified here; issuing the calls is the transport's concern.

use vstd::prelude::*;

use crate::service;

verus! {

/// A client-side failure: either the server answered with a protocol error,
/// or a local lookup found no device with the requested id.
#[derive(Clone, Debug, PartialEq)]
pub enum Error {
    /// The server answered with a protocol error.
    Runtime(service::Error),
    /// A lookup found no device with the requested id.
    NotFound,
}

/// Whether an id stands in a discovered id list.
pub open spec fn id_listed(ids: Seq<Seq<char>>, id: Seq<char>) -> bool {
    ids.contains(id)
}

/// Pick the requested id out of a discovered id list: the id itself when it
/// is listed, `NotFound` otherwise. This is the one place the proxy
/// synthesizes an error the server did not return.
fn select_id(ids: &Vec<String>, target: &str) -> (r: Result<String, Error>)
    ensures
        match r {
            Ok(id) => id@ == target@ && id_listed(ids.deep_view(), target@),
            Err(e) => e is NotFound && !id_listed(ids.deep_view(), target@),
        },
{
    let owned: String = target.to_owned();
    let n = ids.len();
    let mut i: usize = 0;
    while i < n
        invariant
            n == ids@.len(),
            i <= n,
            owned@ == target@,
            forall|j: int| 0 <= j < i ==> ids.deep_view()[j] != target@,
        decreases n - i,
    {
        if ids[i] == owned {
            proof {
                assert(ids.deep_view()[i as int] == target@);
            }
            return Ok(ids[i].clone());
        }
        proof {
            assert(ids.deep_view()[i as int] == ids@[i as int]@);
        }
        i += 1;
    }
    Err(Error::NotFound)
}

/// A typed handle on one lamp.
#[derive(Clone, Debug, PartialEq)]
pub struct Lamp {
    /// The id of the lamp this handle stands for.
    pub id: String,
}

impl Lamp {
    /// The handle for `lamp_id`, picked out of the ids the lamp discovery
    /// operation returned; `NotFound` when no lamp carries that id.
    pub fn lookup(ids: &Vec<String>, lamp_id: &str) -> (r: Result<Lamp, Error>)
        ensures
            match r {
                Ok(h) => h.id@ == lamp_id@ && id_listed(ids.deep_view(), lamp_id@),
                Err(e) => e is NotFound && !id_listed(ids.deep_view(), lamp_id@),
            },
    {
        match select_id(ids, lamp_id) {
            Ok(id) => Ok(Lamp { id }),
            Err(e) => Err(e),
        }
    }

    /// One handle per discovered id, in the order the server returned them,
    /// with no further validation.
    pub fn from_ids(ids: &Vec<String>) -> (r: Vec<Lamp>)
        ensures
            r@.len() == ids@.len(),
            forall|i: int| 0 <= i < ids@.len() ==> #[trigger] r@[i].id@ == ids@[i]@,
    {
        let n = ids.len();
        let mut r: Vec<Lamp> = Vec::new();
        let mut i: usize = 0;
        while i < n
            invariant
                n == ids@.len(),
                i <= n,
                r@.len() == i,
                forall|j: int| 0 <= j < i ==> #[trigger] r@[j].id@ == ids@[j]@,
            decreases n - i,
        {
            r.push(Lamp { id: ids[i].clone() });
            i += 1;
        }
        r
    }
}

/// A typed handle on one sink.
#[derive(Clone, Debug, PartialEq)]
pub struct Sink {
    /// The id of the sink this handle stands for.
    pub id: String,
}

impl Sink {
    /// The handle for `sink_id`, picked out of the ids the sink discovery
    /// operation returned; `NotFound` when no sink carries that id.
    pub fn lookup(ids: &Vec<String>, sink_id: &str) -> (r: Result<Sink, Error>)
        ensures
            match r {
                Ok(h) => h.id@ == sink_id@ && id_listed(ids.deep_view(), sink_id@),
                Err(e) => e is NotFound && !id_listed(ids.deep_view(), sink_id@),
            },
    {
        match select_id(ids, sink_id) {
            Ok(id) => Ok(Sink { id }),
            Err(e) => Err(e),
        }
    }

    /// One handle per discovered id, in the order the server returned them,
    /// with no further validation.
    pub fn from_ids(ids: &Vec<String>) -> (r: Vec<Sink>)
        ensures
            r@.len() == ids@.len(),
            forall|i: int| 0 <= i < ids@.len() ==> #[trigger] r@[i].id@ == ids@[i]@,
    {
        let n = ids.len();
        let mut r: Vec<Sink> = Vec::new();
        let mut i: usize = 0;
        while i < n
            invariant
                n == ids@.len(),
                i <= n,
                r@.len() == i,
                forall|j: int| 0 <= j < i ==> #[trigger] r@[j].id@ == ids@[j]@,
            decreases n - i,
        {
            r.push(Sink { id: ids[i].clone() });
            i += 1;
        }
        r
    }
}

/// A typed handle on one door.
#[derive(Clone, Debug, PartialEq)]
pub struct Door {
    /// The id of the door this handle stands for.
    pub id: String,
}

impl Door {
    /// The handle for `door_id`, picked out of the ids the door discovery
    /// operation returned; `NotFound` when no door carries that id.
    pub fn lookup(ids: &Vec<String>, door_id: &str) -> (r: Result<Door, Error>)
        ensures
            match r {
                Ok(h) => h.id@ == door_id@ && id_listed(ids.deep_view(), door_id@),
                Err(e) => e is NotFound && !id_listed(ids.deep_view(), door_id@),
            },
    {
        match select_id(ids, door_id) {
            Ok(id) => Ok(Door { id }),
            Err(e) => Err(e),
        }
    }

    /// One handle per discovered id, in the order the server returned them,
    /// with no further validation.
    pub fn from_ids(ids: &Vec<String>) -> (r: Vec<Door>)
        ensures
            r@.len() == ids@.len(),
            forall|i: int| 0 <= i < ids@.len() ==> #[trigger] r@[i].id@ == ids@[i]@,
    {
        let n = ids.len();
        let mut r: Vec<Door> = Vec::new();
        let mut i: usize = 0;
        while i < n
            invariant
                n == ids@.len(),
                i <= n,
                r@.len() == i,
                forall|j: int| 0 <= j < i ==> #[trigger] r@[j].id@ == ids@[j]@,
            decreases n - i,
        {
            r.push(Door { id: ids[i].clone() });
            i += 1;
        }
        r
    }
}

/// A typed handle on one fridge.
#[derive(Clone, Debug, PartialEq)]
pub struct Fridge {
    /// The id of the fridge this handle stands for.
    pub id: String,
}

impl Fridge {
    /// The handle for `fridge_id`, picked out of the ids the fridge
    /// discovery operation returned; `NotFound` when no fridge carries it.
    pub fn lookup(ids: &Vec<String>, fridge_id: &str) -> (r: Result<Fridge, Error>)
        ensures
            match r {
                Ok(h) => h.id@ == fridge_id@ && id_listed(ids.deep_view(), fridge_id@),
                Err(e) => e is NotFound && !id_listed(ids.deep_view(), fridge_id@),
            },
    {
        match select_id(ids, fridge_id) {
            Ok(id) => Ok(Fridge { id }),
            Err(e) => Err(e),
        }
    }

    /// One handle per discovered id, in the order the server returned them,
    /// with no further validation.
    pub fn from_ids(ids: &Vec<String>) -> (r: Vec<Fridge>)
        ensures
            r@.len() == ids@.len(),
            forall|i: int| 0 <= i < ids@.len() ==> #[trigger] r@[i].id@ == ids@[i]@,
    {
        let n = ids.len();
        let mut r: Vec<Fridge> = Vec::new();
        let mut i: usize = 0;
        while i < n
            invariant
                n == ids@.len(),
                i <= n,
                r@.len() == i,
                forall|j: int| 0 <= j < i ==> #[trigger] r@[j].id@ == ids@[j]@,
            decreases n - i,
        {
            r.push(Fridge { id: ids[i].clone() });
            i += 1;
        }
        r
    }
}

/// Looking a device up through discovery finds exactly the present devices
/// of the kind: with `ids` being what discovery answered on registry `r`,
/// the local filter accepts `id` exactly when a device of kind `tag` stands
/// under `id` in the registry.
pub proof fn lemma_lookup_through_discovery(
    r: crate::registry::Registry,
    tag: crate::device::KindTag,
    ids: Seq<Seq<char>>,
    id: Seq<char>,
)
    requires
        r.wf(),
        crate::registry::found_ids(r, tag, ids),
    ensures
        id_listed(ids, id) <==> crate::registry::resolves(r, id, tag),
{
    crate::registry::lemma_found_ids_characterize(r, tag, ids);
}

} // verus!
