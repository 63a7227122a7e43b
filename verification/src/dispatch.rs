//! The dispatch engine: one decoded request, one registry operation.
//!
//! [`dispatch`] is the single entry the session layer hands decoded requests
//! to. It routes each request to the registry operation of the matching kind
//! and wraps the answer; it never hides a protocol error, and it touches the
//! registry exactly as the operation's own contract says. Callers serialize
//! calls to it: exclusive access to the registry for the duration of one
//! dispatch is the system's only synchronization requirement.

use vstd::prelude::*;

use crate::device::DoorLockStatus;
use crate::device::KindTag;
use crate::registry::Registry;
use crate::registry::close_sink_drain_post;
use crate::registry::found_ids;
use crate::registry::get_door_lock_status_post;
use crate::registry::get_door_open_post;
use crate::registry::get_fridge_open_post;
use crate::registry::get_fridge_target_temperature_post;
use crate::registry::get_fridge_temperature_post;
use crate::registry::get_lamp_brightness_post;
use crate::registry::get_lamp_on_off_post;
use crate::registry::get_sink_flow_post;
use crate::registry::get_sink_level_post;
use crate::registry::get_sink_temp_post;
use crate::registry::lock_door_post;
use crate::registry::open_sink_drain_post;
use crate::registry::set_fridge_target_temperature_post;
use crate::registry::set_lamp_brightness_post;
use crate::registry::set_sink_flow_post;
use crate::registry::set_sink_temp_post;
use crate::registry::turn_lamp_off_post;
use crate::registry::turn_lamp_on_post;
use crate::registry::unlock_door_post;
use crate::service::Error;
use crate::service::Reply;
use crate::service::Request;

verus! {

/// What one dispatch answers and does, request by request: each arm ties the
/// answer's shape to the routed operation's own contract. Read-only and
/// discovery requests leave the registry untouched.
pub open spec fn dispatch_post(pre: Registry, post: Registry, req: Request, r: Result<
    Reply,
    Error,
>) -> bool {
    match req {
        Request::FindLamps => {
            &&& post == pre
            &&& r matches Ok(rep) && rep matches Reply::Ids(ids) && found_ids(
                pre,
                KindTag::Lamp,
                ids.deep_view(),
            )
        },
        Request::TurnLampOn(id) => match r {
            Ok(Reply::Flag(b)) => {
                &&& turn_lamp_on_post(pre, post, id@, Result::<bool, Error>::Ok(b))
            },
            Err(e) => {
                &&& turn_lamp_on_post(pre, post, id@, Result::<bool, Error>::Err(e))
            },
            _ => false,
        },
        Request::TurnLampOff(id) => match r {
            Ok(Reply::Flag(b)) => {
                &&& turn_lamp_off_post(pre, post, id@, Result::<bool, Error>::Ok(b))
            },
            Err(e) => {
                &&& turn_lamp_off_post(pre, post, id@, Result::<bool, Error>::Err(e))
            },
            _ => false,
        },
        Request::GetLampOnOff(id) => match r {
            Ok(Reply::Flag(b)) => {
                &&& post == pre
                &&& get_lamp_on_off_post(pre, id@, Result::<bool, Error>::Ok(b))
            },
            Err(e) => {
                &&& post == pre
                &&& get_lamp_on_off_post(pre, id@, Result::<bool, Error>::Err(e))
            },
            _ => false,
        },
        Request::SetLampBrightness(id, v) => match r {
            Ok(Reply::Level(b)) => {
                &&& set_lamp_brightness_post(pre, post, id@, v, Result::<u8, Error>::Ok(b))
            },
            Err(e) => {
                &&& set_lamp_brightness_post(pre, post, id@, v, Result::<u8, Error>::Err(e))
            },
            _ => false,
        },
        Request::GetLampBrightness(id) => match r {
            Ok(Reply::Level(b)) => {
                &&& post == pre
                &&& get_lamp_brightness_post(pre, id@, Result::<u8, Error>::Ok(b))
            },
            Err(e) => {
                &&& post == pre
                &&& get_lamp_brightness_post(pre, id@, Result::<u8, Error>::Err(e))
            },
            _ => false,
        },
        Request::FindSinks => {
            &&& post == pre
            &&& r matches Ok(rep) && rep matches Reply::Ids(ids) && found_ids(
                pre,
                KindTag::Sink,
                ids.deep_view(),
            )
        },
        Request::SetSinkFlow(id, v) => match r {
            Ok(Reply::Level(b)) => {
                &&& set_sink_flow_post(pre, post, id@, v, Result::<u8, Error>::Ok(b))
            },
            Err(e) => {
                &&& set_sink_flow_post(pre, post, id@, v, Result::<u8, Error>::Err(e))
            },
            _ => false,
        },
        Request::GetSinkFlow(id) => match r {
            Ok(Reply::Level(b)) => {
                &&& post == pre
                &&& get_sink_flow_post(pre, id@, Result::<u8, Error>::Ok(b))
            },
            Err(e) => {
                &&& post == pre
                &&& get_sink_flow_post(pre, id@, Result::<u8, Error>::Err(e))
            },
            _ => false,
        },
        Request::SetSinkTemp(id, v) => match r {
            Ok(Reply::Level(b)) => {
                &&& set_sink_temp_post(pre, post, id@, v, Result::<u8, Error>::Ok(b))
            },
            Err(e) => {
                &&& set_sink_temp_post(pre, post, id@, v, Result::<u8, Error>::Err(e))
            },
            _ => false,
        },
        Request::GetSinkTemp(id) => match r {
            Ok(Reply::Level(b)) => {
                &&& post == pre
                &&& get_sink_temp_post(pre, id@, Result::<u8, Error>::Ok(b))
            },
            Err(e) => {
                &&& post == pre
                &&& get_sink_temp_post(pre, id@, Result::<u8, Error>::Err(e))
            },
            _ => false,
        },
        Request::CloseSinkDrain(id) => match r {
            Ok(Reply::Flag(b)) => {
                &&& close_sink_drain_post(pre, post, id@, Result::<bool, Error>::Ok(b))
            },
            Err(e) => {
                &&& close_sink_drain_post(pre, post, id@, Result::<bool, Error>::Err(e))
            },
            _ => false,
        },
        Request::OpenSinkDrain(id) => match r {
            Ok(Reply::Flag(b)) => {
                &&& open_sink_drain_post(pre, post, id@, Result::<bool, Error>::Ok(b))
            },
            Err(e) => {
                &&& open_sink_drain_post(pre, post, id@, Result::<bool, Error>::Err(e))
            },
            _ => false,
        },
        Request::GetSinkLevel(id) => match r {
            Ok(Reply::Level(b)) => {
                &&& post == pre
                &&& get_sink_level_post(pre, id@, Result::<u8, Error>::Ok(b))
            },
            Err(e) => {
                &&& post == pre
                &&& get_sink_level_post(pre, id@, Result::<u8, Error>::Err(e))
            },
            _ => false,
        },
        Request::FindDoors => {
            &&& post == pre
            &&& r matches Ok(rep) && rep matches Reply::Ids(ids) && found_ids(
                pre,
                KindTag::Door,
                ids.deep_view(),
            )
        },
        Request::GetDoorLockStatus(id) => match r {
            Ok(Reply::Lock(b)) => {
                &&& post == pre
                &&& get_door_lock_status_post(pre, id@, Result::<DoorLockStatus, Error>::Ok(b))
            },
            Err(e) => {
                &&& post == pre
                &&& get_door_lock_status_post(pre, id@, Result::<DoorLockStatus, Error>::Err(e))
            },
            _ => false,
        },
        Request::GetDoorOpen(id) => match r {
            Ok(Reply::Flag(b)) => {
                &&& post == pre
                &&& get_door_open_post(pre, id@, Result::<bool, Error>::Ok(b))
            },
            Err(e) => {
                &&& post == pre
                &&& get_door_open_post(pre, id@, Result::<bool, Error>::Err(e))
            },
            _ => false,
        },
        Request::LockDoor(id) => match r {
            Ok(Reply::Flag(b)) => {
                &&& lock_door_post(pre, post, id@, Result::<bool, Error>::Ok(b))
            },
            Err(e) => {
                &&& lock_door_post(pre, post, id@, Result::<bool, Error>::Err(e))
            },
            _ => false,
        },
        Request::UnlockDoor(id) => match r {
            Ok(Reply::Flag(b)) => {
                &&& unlock_door_post(pre, post, id@, Result::<bool, Error>::Ok(b))
            },
            Err(e) => {
                &&& unlock_door_post(pre, post, id@, Result::<bool, Error>::Err(e))
            },
            _ => false,
        },
        Request::FindFridges => {
            &&& post == pre
            &&& r matches Ok(rep) && rep matches Reply::Ids(ids) && found_ids(
                pre,
                KindTag::Fridge,
                ids.deep_view(),
            )
        },
        Request::GetFridgeTemperature(id) => match r {
            Ok(Reply::Degrees(b)) => {
                &&& post == pre
                &&& get_fridge_temperature_post(pre, id@, Result::<i8, Error>::Ok(b))
            },
            Err(e) => {
                &&& post == pre
                &&& get_fridge_temperature_post(pre, id@, Result::<i8, Error>::Err(e))
            },
            _ => false,
        },
        Request::GetFridgeTargetTemperature(id) => match r {
            Ok(Reply::Degrees(b)) => {
                &&& post == pre
                &&& get_fridge_target_temperature_post(pre, id@, Result::<i8, Error>::Ok(b))
            },
            Err(e) => {
                &&& post == pre
                &&& get_fridge_target_temperature_post(pre, id@, Result::<i8, Error>::Err(e))
            },
            _ => false,
        },
        Request::SetFridgeTargetTemperature(id, v) => match r {
            Ok(Reply::Degrees(b)) => {
                &&& set_fridge_target_temperature_post(pre, post, id@, v, Result::<i8, Error>::Ok(b))
            },
            Err(e) => {
                &&& set_fridge_target_temperature_post(pre, post, id@, v, Result::<i8, Error>::Err(e))
            },
            _ => false,
        },
        Request::GetFridgeOpen(id) => match r {
            Ok(Reply::Flag(b)) => {
                &&& post == pre
                &&& get_fridge_open_post(pre, id@, Result::<bool, Error>::Ok(b))
            },
            Err(e) => {
                &&& post == pre
                &&& get_fridge_open_post(pre, id@, Result::<bool, Error>::Err(e))
            },
            _ => false,
        },
    }
}

/// Resolve one request against the registry and answer it. Every protocol
/// error the operation produces is returned unchanged.
pub fn dispatch(reg: &mut Registry, req: Request) -> (r: Result<Reply, Error>)
    requires
        old(reg).wf(),
    ensures
        final(reg).wf(),
        dispatch_post(*old(reg), *final(reg), req, r),
{
    match req {
        Request::FindLamps => match reg.find_lamps() {
            Ok(ids) => Ok(Reply::Ids(ids)),
            Err(e) => Err(e),
        },
        Request::TurnLampOn(id) => match reg.turn_lamp_on(&id) {
            Ok(b) => Ok(Reply::Flag(b)),
            Err(e) => Err(e),
        },
        Request::TurnLampOff(id) => match reg.turn_lamp_off(&id) {
            Ok(b) => Ok(Reply::Flag(b)),
            Err(e) => Err(e),
        },
        Request::GetLampOnOff(id) => match reg.get_lamp_on_off(&id) {
            Ok(b) => Ok(Reply::Flag(b)),
            Err(e) => Err(e),
        },
        Request::SetLampBrightness(id, v) => match reg.set_lamp_brightness(&id, v) {
            Ok(b) => Ok(Reply::Level(b)),
            Err(e) => Err(e),
        },
        Request::GetLampBrightness(id) => match reg.get_lamp_brightness(&id) {
            Ok(b) => Ok(Reply::Level(b)),
            Err(e) => Err(e),
        },
        Request::FindSinks => match reg.find_sinks() {
            Ok(ids) => Ok(Reply::Ids(ids)),
            Err(e) => Err(e),
        },
        Request::SetSinkFlow(id, v) => match reg.set_sink_flow(&id, v) {
            Ok(b) => Ok(Reply::Level(b)),
            Err(e) => Err(e),
        },
        Request::GetSinkFlow(id) => match reg.get_sink_flow(&id) {
            Ok(b) => Ok(Reply::Level(b)),
            Err(e) => Err(e),
        },
        Request::SetSinkTemp(id, v) => match reg.set_sink_temp(&id, v) {
            Ok(b) => Ok(Reply::Level(b)),
            Err(e) => Err(e),
        },
        Request::GetSinkTemp(id) => match reg.get_sink_temp(&id) {
            Ok(b) => Ok(Reply::Level(b)),
            Err(e) => Err(e),
        },
        Request::CloseSinkDrain(id) => match reg.close_sink_drain(&id) {
            Ok(b) => Ok(Reply::Flag(b)),
            Err(e) => Err(e),
        },
        Request::OpenSinkDrain(id) => match reg.open_sink_drain(&id) {
            Ok(b) => Ok(Reply::Flag(b)),
            Err(e) => Err(e),
        },
        Request::GetSinkLevel(id) => match reg.get_sink_level(&id) {
            Ok(b) => Ok(Reply::Level(b)),
            Err(e) => Err(e),
        },
        Request::FindDoors => match reg.find_doors() {
            Ok(ids) => Ok(Reply::Ids(ids)),
            Err(e) => Err(e),
        },
        Request::GetDoorLockStatus(id) => match reg.get_door_lock_status(&id) {
            Ok(b) => Ok(Reply::Lock(b)),
            Err(e) => Err(e),
        },
        Request::GetDoorOpen(id) => match reg.get_door_open(&id) {
            Ok(b) => Ok(Reply::Flag(b)),
            Err(e) => Err(e),
        },
        Request::LockDoor(id) => match reg.lock_door(&id) {
            Ok(b) => Ok(Reply::Flag(b)),
            Err(e) => Err(e),
        },
        Request::UnlockDoor(id) => match reg.unlock_door(&id) {
            Ok(b) => Ok(Reply::Flag(b)),
            Err(e) => Err(e),
        },
        Request::FindFridges => match reg.find_fridges() {
            Ok(ids) => Ok(Reply::Ids(ids)),
            Err(e) => Err(e),
        },
        Request::GetFridgeTemperature(id) => match reg.get_fridge_temperature(&id) {
            Ok(b) => Ok(Reply::Degrees(b)),
            Err(e) => Err(e),
        },
        Request::GetFridgeTargetTemperature(id) => match reg.get_fridge_target_temperature(&id) {
            Ok(b) => Ok(Reply::Degrees(b)),
            Err(e) => Err(e),
        },
        Request::SetFridgeTargetTemperature(id, v) => match reg.set_fridge_target_temperature(&id, v) {
            Ok(b) => Ok(Reply::Degrees(b)),
            Err(e) => Err(e),
        },
        Request::GetFridgeOpen(id) => match reg.get_fridge_open(&id) {
            Ok(b) => Ok(Reply::Flag(b)),
            Err(e) => Err(e),
        },
    }
}

} // verus!
