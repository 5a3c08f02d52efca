//! What the controller does with a frame received from the charge port.
use vstd::prelude::*;
use crate::types::{
    ActivityEvent, CPState, CanFrame, ChargeStateEnum, CpLink, DoorStateEnum, log_push,
};
use crate::process_cp::{cp_frame_readable, spec_process_cp};
use crate::process_door::{door_frame_readable, spec_process_door};
use crate::process_init::spec_process_init;
use crate::process_version::{spec_process_version, version_frame_readable};

verus! {

/// The frame comes from the charge port (its hello or its status frame).
pub open spec fn from_charge_port(id: u32) -> bool {
    id == 0x00E || id == 0x00F
}

/// The frame restarts the handshake: a hello frame, or a status frame while
/// the link waits for one after a timeout.
pub open spec fn restarts_handshake(s: CPState, id: u32) -> bool {
    id == 0x00E || (id == 0x00F && !s.link.cp_init && s.link.init_sequence == 3)
}

/// The link fields after a frame from the charge port has been seen at `elapsed`.
pub open spec fn spec_link_seen(s: CPState, id: u32, elapsed: u32) -> CPState {
    if from_charge_port(id) {
        CPState {
            link: CpLink { previous_cptod_ts: elapsed, cp_comm_timeout: false, ..s.link },
            ..s
        }
    } else {
        s
    }
}

/// The activity log after a frame at `elapsed`: a recovery entry when a frame
/// from the charge port ends a timeout.
pub open spec fn spec_receive_log(s: CPState, id: u32, elapsed: u32) -> Seq<ActivityEvent> {
    if from_charge_port(id) && s.link.cp_comm_timeout {
        log_push(
            s.activity_list@,
            ActivityEvent::TimeoutRecovery {
                elapsed,
                after: (elapsed - s.link.previous_cptod_ts) as u32,
            },
        )
    } else {
        s.activity_list@
    }
}

/// The state after the handshake step that frame `id` may trigger.
pub open spec fn spec_handshake(s1: CPState, id: u32, elapsed: u32) -> CPState {
    if restarts_handshake(s1, id) {
        spec_process_init(CPState { link: CpLink { init_sequence: 0, ..s1.link }, ..s1 }, elapsed)
    } else {
        s1
    }
}

/// The state (its log aside) after the handshake step that frame `id` may trigger.
pub open spec fn spec_receive_handshake(s: CPState, id: u32, elapsed: u32) -> CPState {
    spec_handshake(spec_link_seen(s, id, elapsed), id, elapsed)
}

/// The state after version detection, the door and the charge-state machine
/// have seen frame `id` with `data`.
pub open spec fn spec_dispatch(s2: CPState, id: u32, data: Seq<u8>) -> CPState {
    let s3 = spec_process_version(s2, id, data);
    let s4 = spec_process_door(s3, id);
    if id == 0x00F {
        spec_process_cp(s4, id, data)
    } else {
        s4
    }
}

/// The state (its log aside) after data frame `id` with `data` at `elapsed`.
pub open spec fn spec_receive_data(s: CPState, id: u32, data: Seq<u8>, elapsed: u32) -> CPState {
    spec_dispatch(spec_receive_handshake(s, id, elapsed), id, data)
}

/// Every byte that the state machines read for this frame is present, and the
/// time since the last frame from the charge port is not negative when it is logged.
pub open spec fn receive_defined(s: CPState, id: u32, data: Seq<u8>, elapsed: u32) -> bool {
    &&& (from_charge_port(id) && s.link.cp_comm_timeout) ==> s.link.previous_cptod_ts <= elapsed
    &&& version_frame_readable(id, data)
    &&& door_frame_readable(s.vehicle.cp_door_state, id, data)
    &&& cp_frame_readable(spec_receive_handshake(s, id, elapsed).charge.charge_state, id, data)
}

/// Notes that a frame arrived: a frame from the charge port ends a timeout
/// (logging the recovery) and restarts the timeout clock.
fn note_frame(cp_state: &mut CPState, id: u32, elapsed: u32)
    requires
        (from_charge_port(id) && old(cp_state).link.cp_comm_timeout)
            ==> old(cp_state).link.previous_cptod_ts <= elapsed,
    ensures
        final(cp_state).activity_list@ == spec_receive_log(*old(cp_state), id, elapsed),
        *final(cp_state) == (CPState {
            activity_list: final(cp_state).activity_list,
            ..spec_link_seen(*old(cp_state), id, elapsed)
        }),
{
    // Can only say you've gotten a frame, not
    // that you _haven't_ gotten a frame.
    // Timeout needs to be set somewhere else.
    if id == 0x00E || id == 0x00F {
        if cp_state.link.cp_comm_timeout {
            cp_state.activity_list.push_back(
                ActivityEvent::TimeoutRecovery {
                    elapsed,
                    after: elapsed - cp_state.link.previous_cptod_ts,
                },
            );
        }
        cp_state.link.previous_cptod_ts = elapsed;
        cp_state.link.cp_comm_timeout = false;
    }
}

/// Restarts the handshake on a hello frame, or on a status frame after a timeout.
fn handshake(cp_state: &mut CPState, id: u32, elapsed: u32)
    ensures
        *final(cp_state) == spec_handshake(*old(cp_state), id, elapsed),
{
    // Handle init.
    if id == 0x00E || (id == 0x00F && cp_state.link.cp_init == false
        && cp_state.link.init_sequence == 3) {
        // Handle a hello frame or attempt to pick up from a happy CP ECU.
        cp_state.link.init_sequence = 0;
        crate::process_init::init(cp_state, elapsed);
    }
}

/// Hands the frame to version detection, the door and the charge-state machine.
fn dispatch(cp_state: &mut CPState, id: u32, data: &[u8])
    requires
        version_frame_readable(id, data@),
        door_frame_readable(old(cp_state).vehicle.cp_door_state, id, data@),
        cp_frame_readable(old(cp_state).charge.charge_state, id, data@),
    ensures
        *final(cp_state) == spec_dispatch(*old(cp_state), id, data@),
{
    // Handle version.
    if id == 0x00E {
        crate::process_version::init(cp_state, id, data);
    }
    // Do something about the door
    if id == 0x00F {
        crate::process_door::init(cp_state, id, data);
    }
    // Main state machine for charge state here
    if id == 0x00F || id == 0x00F {
        crate::process_cp::init(cp_state, id, data);
    }
}

/// Whether [`init`] is defined on this frame at `elapsed`: every byte that the
/// state machines read is present and the logged time since the last frame is
/// not negative. (Where it is not, reading the frame fails.)
pub fn receive_is_defined(can_frame: &CanFrame, elapsed: u32, cp_state: &CPState) -> (r: bool)
    ensures
        r == (can_frame matches CanFrame::DataFrame(f) ==> receive_defined(
            *cp_state,
            f.id,
            f.data@,
            elapsed,
        )),
{
    match can_frame {
        CanFrame::RemoteFrame(_) => true,
        CanFrame::DataFrame(frame) => {
            let id: u32 = frame.id;
            let len: usize = frame.data.len();
            let from_cp: bool = id == 0x00E || id == 0x00F;
            if from_cp && cp_state.link.cp_comm_timeout && cp_state.link.previous_cptod_ts
                > elapsed {
                return false;
            }
            if id == 0x00E && (len < 1 || (frame.data[0] == 0 && len < 8)) {
                return false;
            }
            let door = cp_state.vehicle.cp_door_state;
            let settled = door == DoorStateEnum::DoorOpen || door == DoorStateEnum::DoorClosed
                || door == DoorStateEnum::DoorIdle;
            if id == 0x00F && !settled && len < 2 {
                return false;
            }
            let restarts = id == 0x00E || (id == 0x00F && !cp_state.link.cp_init
                && cp_state.link.init_sequence == 3);
            let state = if restarts {
                ChargeStateEnum::Init
            } else {
                cp_state.charge.charge_state
            };
            let needed: usize = match state {
                ChargeStateEnum::ChargeIdle => 7,
                ChargeStateEnum::ACBlocked => 5,
                ChargeStateEnum::WaitForComms => 5,
                ChargeStateEnum::ContactorWaitRequest => 5,
                ChargeStateEnum::ContactorRequest => 2,
                _ => 1,
            };
            id != 0x00F || len >= needed
        },
    }
}

/// Feeds a received frame to the state machines. Remote frames change nothing.
pub fn init(can_frame: &CanFrame, elapsed: u32, cp_state: &mut CPState)
    requires
        (can_frame matches CanFrame::DataFrame(f) ==> receive_defined(
            *old(cp_state),
            f.id,
            f.data@,
            elapsed,
        )),
    ensures
        (can_frame matches CanFrame::DataFrame(f) ==> {
            &&& final(cp_state).activity_list@ == spec_receive_log(*old(cp_state), f.id, elapsed)
            &&& *final(cp_state) == (CPState {
                activity_list: final(cp_state).activity_list,
                ..spec_receive_data(*old(cp_state), f.id, f.data@, elapsed)
            })
        }),
        (can_frame is RemoteFrame) ==> *final(cp_state) == *old(cp_state),
{
    if let CanFrame::DataFrame(frame) = can_frame {
        let id: u32 = frame.id;
        let data: &[u8] = frame.data.as_slice();
        let ghost s0 = *cp_state;
        note_frame(cp_state, id, elapsed);
        let ghost log = cp_state.activity_list;
        handshake(cp_state, id, elapsed);
        assert(*cp_state == CPState {
            activity_list: log,
            ..spec_receive_handshake(s0, id, elapsed)
        });
        dispatch(cp_state, id, data);
    }
}

} // verus!
