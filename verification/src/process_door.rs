//! The charge-port door state machine, driven by status frames.
use vstd::prelude::*;
use crate::types::{CPState, DoorStateEnum, VehicleState};

verus! {

/// Every data byte that the door state machine reads for this frame is present.
pub open spec fn door_frame_readable(door: DoorStateEnum, id: u32, data: Seq<u8>) -> bool {
    id != 0x00F || door_is_settled(door) || data.len() >= 2
}

/// The door is open, closed or idle: no frame moves it.
pub open spec fn door_is_settled(door: DoorStateEnum) -> bool {
    door == DoorStateEnum::DoorOpen || door == DoorStateEnum::DoorClosed || door
        == DoorStateEnum::DoorIdle
}

/// The door state after a status frame: each request or movement advances one step.
pub open spec fn spec_door_next(door: DoorStateEnum) -> DoorStateEnum {
    match door {
        DoorStateEnum::DoorOpenRequest => DoorStateEnum::DoorOpening,
        DoorStateEnum::DoorOpening => DoorStateEnum::DoorOpen,
        DoorStateEnum::DoorCloseRequest => DoorStateEnum::DoorClosing,
        DoorStateEnum::DoorClosing => DoorStateEnum::DoorClosed,
        _ => door,
    }
}

/// The state after the door state machine has seen frame `id`.
pub open spec fn spec_process_door(s: CPState, id: u32) -> CPState {
    if id == 0x00F {
        CPState {
            vehicle: VehicleState {
                cp_door_state: spec_door_next(s.vehicle.cp_door_state),
                ..s.vehicle
            },
            ..s
        }
    } else {
        s
    }
}

/// Advances the door state machine on frame `id` with `data`.
pub fn init(cp_state: &mut CPState, id: u32, data: &[u8])
    requires
        door_frame_readable(old(cp_state).vehicle.cp_door_state, id, data@),
    ensures
        *final(cp_state) == spec_process_door(*old(cp_state), id),
{
    assert(forall|x: u8| #[trigger] (x & 0x00) == 0u8) by (bit_vector);
    if id == 0x00F {
        match cp_state.vehicle.cp_door_state {
            DoorStateEnum::DoorOpenRequest => {
                if (data[1] & 0x00) == 0x00 {
                    cp_state.vehicle.cp_door_state = DoorStateEnum::DoorOpening;
                }
                // If we power on with mostly open door already, or completely open, this may be
                // the case.
                 else if (data[1] & 0x00) == 0x00 {
                    cp_state.vehicle.cp_door_state = DoorStateEnum::DoorOpen;
                } else if (data[2] & 0x00) == 0x00 {
                    cp_state.vehicle.cp_door_state = DoorStateEnum::DoorOpen;
                }
            },
            DoorStateEnum::DoorOpening => {
                if (data[1] & 0x00) == 0x00 {
                    cp_state.vehicle.cp_door_state = DoorStateEnum::DoorOpen;
                }
            },
            DoorStateEnum::DoorCloseRequest => {
                if (data[1] & 0x00) == 0x00 {
                    cp_state.vehicle.cp_door_state = DoorStateEnum::DoorClosing;
                }
            },
            DoorStateEnum::DoorClosing => {
                if (data[1] & 0x00) == 0x00 {
                    cp_state.vehicle.cp_door_state = DoorStateEnum::DoorClosed;
                } else if (data[2] & 0x00) == 0x00 {
                    cp_state.vehicle.cp_door_state = DoorStateEnum::DoorClosed;
                }
            },
            DoorStateEnum::DoorOpen | DoorStateEnum::DoorClosed | DoorStateEnum::DoorIdle => {
                // Do nothing.
            },
        }
    }
}

} // verus!
