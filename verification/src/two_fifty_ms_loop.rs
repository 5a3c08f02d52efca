//! Frames sent every 250 ms.
use vstd::prelude::*;
use crate::types::{DataFrame, Transmission, base_frame, frame_data, frame_is, sends, tag, tagged};

verus! {

/// The vehicle identification number that the 250 ms frame spells out, as bytes.
pub const VIN: [u8; 17] = [
    0x35, 0x59, 0x31, 0x32, 0x33, 0x34, 0x35, 0x36, 0x37, 0x38, 0x39, 0x30, 0x31, 0x32, 0x33, 0x34,
    0x35,
];

/// The bytes of "5Y123456789012345".
pub open spec fn vin_bytes() -> Seq<u8> {
    seq![
        0x35u8, 0x59u8, 0x31u8, 0x32u8, 0x33u8, 0x34u8, 0x35u8, 0x36u8, 0x37u8, 0x38u8, 0x39u8,
        0x30u8, 0x31u8, 0x32u8, 0x33u8, 0x34u8, 0x35u8,
    ]
}

/// The VIN frame for counter `c`: a zero byte, then, by `c % 3`, four zero bytes
/// and VIN bytes 0..3, VIN bytes 3..10, or VIN bytes 10..17.
pub open spec fn vin405_bytes(c: u8) -> Seq<u8> {
    let v = vin_bytes();
    if c % 3 == 0 {
        seq![0u8, 0u8, 0u8, 0u8, 0u8].add(v.subrange(0, 3))
    } else if c % 3 == 1 {
        seq![0u8].add(v.subrange(3, 10))
    } else {
        seq![0u8].add(v.subrange(10, 17))
    }
}

/// Sends the 250 ms frame; the counter then advances, wrapping after 255.
pub fn init(two_fifty_ms_ptr: &mut u8) -> (r: Vec<Transmission>)
    ensures
        *final(two_fifty_ms_ptr) == (*old(two_fifty_ms_ptr) + 1) % 256,
        r@.len() == 1,
        sends(r@[0], 0, vin405_bytes(*old(two_fifty_ms_ptr)), tag(250, 0)),
{
    let two_fifty_ms_counter: u8 = *two_fifty_ms_ptr;
    let mut frames: Vec<Transmission> = Vec::new();
    frames.push(tagged(vin405(two_fifty_ms_counter), 250, 0));
    if two_fifty_ms_counter < 255 {
        *two_fifty_ms_ptr = two_fifty_ms_counter + 1;
    } else {
        *two_fifty_ms_ptr = 0;
    }
    frames
}

/// One third of the VIN, chosen by the counter.
pub fn vin405(two_fifty_ms_counter: u8) -> (f: DataFrame)
    ensures
        frame_is(f, 0, vin405_bytes(two_fifty_ms_counter)),
{
    let id: u16 = 0x000;
    let size: u8 = 8;
    let mut vin405: Vec<u8> = frame_data(size);
    let res = two_fifty_ms_counter % 3;

    let vin: [u8; 17] = VIN;
    assert(vin@ =~= vin_bytes());

    match res {
        0 => {
            vin405[0] = 0x00;
            vin405[1] = 0;
            vin405[2] = 0;
            vin405[3] = 0;
            vin405[4] = 0;
            vin405[5] = vin[0];
            vin405[6] = vin[1];
            vin405[7] = vin[2];
        },
        1 => {
            vin405[0] = 0x00;
            vin405[1] = vin[3];
            vin405[2] = vin[4];
            vin405[3] = vin[5];
            vin405[4] = vin[6];
            vin405[5] = vin[7];
            vin405[6] = vin[8];
            vin405[7] = vin[9];
        },
        2 | _ => {
            vin405[0] = 0x00;
            vin405[1] = vin[10];
            vin405[2] = vin[11];
            vin405[3] = vin[12];
            vin405[4] = vin[13];
            vin405[5] = vin[14];
            vin405[6] = vin[15];
            vin405[7] = vin[16];
        },
    }
    assert(vin405@ =~= vin405_bytes(two_fifty_ms_counter));
    base_frame(id, vin405)
}

} // verus!
