//! Frames sent every 500 ms.
use vstd::prelude::*;
use crate::types::{
    CPState, CPVerEnum, DataFrame, DoorStateEnum, Transmission, base_frame, frame_data, frame_is,
    sends, tag, zeros, tagged,
};

verus! {

/// The door is moving, so the door frame is preceded by a response frame.
pub open spec fn door_moving(door: DoorStateEnum) -> bool {
    door == DoorStateEnum::DoorClosing || door == DoorStateEnum::DoorOpening
}

/// The length of the door frame: five bytes for the 2020 firmware, else four.
pub open spec fn tatata_len(fw: CPVerEnum) -> nat {
    if fw == CPVerEnum::Fw2020 {
        5
    } else {
        4
    }
}

/// Sends the 500 ms frames; returns the counter advanced by one, wrapping after 255.
pub fn init(five_hunded_ms_counter: u8, cp_state: &mut CPState) -> (r: (u8, Vec<Transmission>))
    ensures
        r.0 == (five_hunded_ms_counter + 1) % 256,
        *final(cp_state) == *old(cp_state),
        door_moving(old(cp_state).vehicle.cp_door_state) ==> {
            &&& r.1@.len() == 4
            &&& sends(r.1@[0], 0, zeros(5), tag(500, 0))
            &&& sends(r.1@[1], 0, zeros(8), None)
            &&& sends(r.1@[2], 0, zeros(tatata_len(old(cp_state).link.fw_ver)), tag(500, 1))
            &&& sends(r.1@[3], 0, zeros(8), tag(500, 2))
        },
        !door_moving(old(cp_state).vehicle.cp_door_state) ==> {
            &&& r.1@.len() == 3
            &&& sends(r.1@[0], 0, zeros(5), tag(500, 0))
            &&& sends(r.1@[1], 0, zeros(tatata_len(old(cp_state).link.fw_ver)), tag(500, 1))
            &&& sends(r.1@[2], 0, zeros(8), tag(500, 2))
        },
{
    let mut five_hunded_ms_counter: u8 = five_hunded_ms_counter;
    let mut frames: Vec<Transmission> = Vec::new();
    frames.push(tagged(vvvm(), 500, 0));
    let (response, door) = tatata(cp_state);
    if let Some(response_frame) = response {
        // A failure to send the response is not logged.
        frames.push(Transmission { frame: response_frame, tag: None });
    }
    frames.push(tagged(door, 500, 1));
    frames.push(tagged(u6(five_hunded_ms_counter), 500, 2));
    if five_hunded_ms_counter < 255 {
        five_hunded_ms_counter = five_hunded_ms_counter + 1;
    } else {
        five_hunded_ms_counter = 0;
    }
    (five_hunded_ms_counter, frames)
}

/// A five-byte zero frame.
pub fn vvvm() -> (f: DataFrame)
    ensures
        frame_is(f, 0, zeros(5)),
{
    let id: u16 = 0x000;
    let size: u8 = 5;
    let mut vvvm: Vec<u8> = frame_data(size);
    vvvm[0] = 0x00;
    vvvm[1] = 0x00;
    vvvm[2] = 0x00;
    vvvm[3] = 0x00;
    vvvm[4] = 0x00;
    assert(vvvm@ =~= zeros(5));
    base_frame(id, vvvm)
}

/// The door frame (five zero bytes for the 2020 firmware, else four), preceded
/// while the door moves by an eight-byte zero response frame.
pub fn tatata(cp_state: &mut CPState) -> (r: (Option<DataFrame>, DataFrame))
    ensures
        *final(cp_state) == *old(cp_state),
        frame_is(r.1, 0, zeros(tatata_len(old(cp_state).link.fw_ver))),
        door_moving(old(cp_state).vehicle.cp_door_state) <==> r.0 is Some,
        (r.0 matches Some(resp) ==> frame_is(resp, 0, zeros(8))),
{
    assert(forall|x: u8| #[trigger] (x & 0x00) == 0u8) by (bit_vector);
    assert(forall|x: u8| #[trigger] (x | 0x00) == x) by (bit_vector);
    let id: u16 = 0x000;
    let size: u8 = if cp_state.link.fw_ver == CPVerEnum::Fw2020 {
        5
    } else {
        4
    };
    let mut tatata: Vec<u8> = frame_data(size);
    let mut response: Option<DataFrame> = None;
    tatata[1] = 0x00;
    tatata[2] = 0x00;
    tatata[3] = 0x00;
    match cp_state.vehicle.cp_door_state {
        DoorStateEnum::DoorIdle => {
            if cp_state.charge.auto_start {
                tatata[0] = 0x00;
            } else {
                tatata[0] = 0x00;
            }
        },
        DoorStateEnum::DoorOpenRequest => {
            tatata[0] = tatata[0] | 0x00;
        },
        DoorStateEnum::DoorCloseRequest => {
            tatata[0] = tatata[0] | 0x00;
        },
        DoorStateEnum::DoorClosing => {
            tatata[0] = tatata[0] & 0x00;
            response = Some(door_response());
        },
        DoorStateEnum::DoorOpening => {
            tatata[0] = tatata[0] & 0x00;
            response = Some(door_response());
        },
        DoorStateEnum::DoorOpen | DoorStateEnum::DoorClosed => {
            // Do nothing.
        },
    }
    if cp_state.link.fw_ver == CPVerEnum::Fw2020 {
        tatata[0] = tatata[0] | 0x00;
        tatata[4] = 0x00;
    }
    assert(tatata@ =~= zeros(tatata_len(cp_state.link.fw_ver)));
    (response, base_frame(id, tatata))
}

/// The response frame sent while the door moves: eight zero bytes.
fn door_response() -> (f: DataFrame)
    ensures
        frame_is(f, 0, zeros(8)),
{
    let id: u16 = 0x000;
    let size: u8 = 8;
    let mut response: Vec<u8> = frame_data(size);
    response[0] = 0x00;
    response[1] = 0x00;
    response[2] = 0x00;
    response[3] = 0x00;
    response[4] = 0x00;
    response[5] = 0x00;
    response[6] = 0x00;
    response[7] = 0x00;
    assert(response@ =~= zeros(8));
    base_frame(id, response)
}

/// An all-zero eight-byte frame, whichever of its twelve phases the counter selects.
pub fn u6(five_hunded_ms_counter: u8) -> (f: DataFrame)
    ensures
        frame_is(f, 0, zeros(8)),
{
    let id: u16 = 0x000;
    let size: u8 = 8;
    let mut u6: Vec<u8> = frame_data(size);
    let res = five_hunded_ms_counter % 12;
    match res {
        0 => {
            u6[0] = 0x00;
            u6[1] = 0x00;
            u6[2] = 0x00;
            u6[3] = 0x00;
            u6[4] = 0x00;
            u6[5] = 0x00;
            u6[6] = 0x00;
            u6[7] = 0x00;
        },
        1 => {
            u6[0] = 0x00;
            u6[1] = 0x00;
            u6[2] = 0x00;
            u6[3] = 0x00;
            u6[4] = 0x00;
            u6[5] = 0x00;
            u6[6] = 0x00;
            u6[7] = 0x00;
        },
        2 => {
            u6[0] = 0x00;
            u6[1] = 0x00;
            u6[2] = 0x00;
            u6[3] = 0x00;
            u6[4] = 0x00;
            u6[5] = 0x00;
            u6[6] = 0x00;
            u6[7] = 0x00;
        },
        3 => {
            u6[0] = 0x00;
            u6[1] = 0x00;
            u6[2] = 0x00;
            u6[3] = 0x00;
            u6[4] = 0x00;
            u6[5] = 0x00;
            u6[6] = 0x00;
            u6[7] = 0x00;
        },
        4 => {
            u6[0] = 0x00;
            u6[1] = 0x00;
            u6[2] = 0x00;
            u6[3] = 0x00;
            u6[4] = 0x00;
            u6[5] = 0x00;
            u6[6] = 0x00;
            u6[7] = 0x00;
        },
        5 => {
            u6[0] = 0x00;
            u6[1] = 0x00;
            u6[2] = 0x00;
            u6[3] = 0x00;
            u6[4] = 0x00;
            u6[5] = 0x00;
            u6[6] = 0x00;
            u6[7] = 0x00;
        },
        6 => {
            u6[0] = 0x00;
            u6[1] = 0x00;
            u6[2] = 0x00;
            u6[3] = 0x00;
            u6[4] = 0x00;
            u6[5] = 0x00;
            u6[6] = 0x00;
            u6[7] = 0x00;
        },
        7 => {
            u6[0] = 0x00;
            u6[1] = 0x00;
            u6[2] = 0x00;
            u6[3] = 0x00;
            u6[4] = 0x00;
            u6[5] = 0x00;
            u6[6] = 0x00;
            u6[7] = 0x00;
        },
        8 => {
            u6[0] = 0x00;
            u6[1] = 0x00;
            u6[2] = 0x00;
            u6[3] = 0x00;
            u6[4] = 0x00;
            u6[5] = 0x00;
            u6[6] = 0x00;
            u6[7] = 0x00;
        },
        9 => {
            u6[0] = 0x00;
            u6[1] = 0x00;
            u6[2] = 0x00;
            u6[3] = 0x00;
            u6[4] = 0x00;
            u6[5] = 0x00;
            u6[6] = 0x00;
            u6[7] = 0x00;
        },
        10 => {
            u6[0] = 0x00;
            u6[1] = 0x00;
            u6[2] = 0x00;
            u6[3] = 0x00;
            u6[4] = 0x00;
            u6[5] = 0x00;
            u6[6] = 0x00;
            u6[7] = 0x00;
        },
        11 | _ => {
            u6[0] = 0x00;
            u6[1] = 0x00;
            u6[2] = 0x00;
            u6[3] = 0x00;
            u6[4] = 0x00;
            u6[5] = 0x00;
            u6[6] = 0x00;
            u6[7] = 0x00;
        },
    }
    assert(u6@ =~= zeros(8));
    base_frame(id, u6)
}

} // verus!
