//! Frames sent every second.
use vstd::prelude::*;
use crate::types::{
    CPState, DataFrame, Transmission, VehicleState, base_frame, frame_data, frame_is, sends, tag,
    zeros, tagged,
};

verus! {

/// The rolling value of the once-a-second frame after one second: it counts up
/// and falls back to 0x60 after 255.
pub open spec fn next_tcgz(t: u8) -> u8 {
    if t < 255 {
        (t + 1) as u8
    } else {
        0x60
    }
}

/// The bytes of the rolling frame carrying `t`.
pub open spec fn tcgd_bytes(t: u8) -> Seq<u8> {
    seq![t].add(zeros(7))
}

/// Sends the once-a-second frames and advances the rolling value; returns the
/// counter advanced by one, wrapping after 255.
pub fn init(thousand_ms_counter: u8, cp_state: &mut CPState) -> (r: (u8, Vec<Transmission>))
    ensures
        r.0 == (thousand_ms_counter + 1) % 256,
        *final(cp_state) == (CPState {
            vehicle: VehicleState {
                tcgz: next_tcgz(old(cp_state).vehicle.tcgz),
                ..old(cp_state).vehicle
            },
            ..*old(cp_state)
        }),
        r.1@.len() == 6,
        sends(r.1@[0], 0, zeros(8), tag(1000, 0)),
        sends(r.1@[1], 0, zeros(8), tag(1000, 1)),
        sends(r.1@[2], 0, zeros(8), tag(1000, 2)),
        sends(r.1@[3], 0, zeros(8), tag(1000, 3)),
        sends(r.1@[4], 0, zeros(8), tag(1000, 4)),
        sends(r.1@[5], 0, tcgd_bytes(old(cp_state).vehicle.tcgz), tag(1000, 5)),
{
    let mut thousand_ms_counter: u8 = thousand_ms_counter;
    let mut frames: Vec<Transmission> = Vec::new();
    frames.push(tagged(usx(), 1000, 0));
    frames.push(tagged(tto(), 1000, 1));
    frames.push(tagged(rss(), 1000, 2));
    frames.push(tagged(usy(), 1000, 3));
    frames.push(tagged(u5(), 1000, 4));
    frames.push(tagged(tcgd(cp_state), 1000, 5));
    if thousand_ms_counter < 255 {
        thousand_ms_counter = thousand_ms_counter + 1;
    } else {
        thousand_ms_counter = 0;
    }
    if cp_state.vehicle.tcgz < 255 {
        cp_state.vehicle.tcgz = cp_state.vehicle.tcgz + 1;
    } else {
        cp_state.vehicle.tcgz = 0x60;
    }
    (thousand_ms_counter, frames)
}

/// An all-zero eight-byte frame.
pub fn usx() -> (f: DataFrame)
    ensures
        frame_is(f, 0, zeros(8)),
{
    let id: u16 = 0x000;
    let size: u8 = 8;
    let mut usx: Vec<u8> = frame_data(size);
    usx[0] = 0x00;
    usx[1] = 0x00;
    usx[2] = 0x00;
    usx[3] = 0x00;
    usx[4] = 0x00;
    usx[5] = 0x00;
    usx[6] = 0x00;
    usx[7] = 0x00;
    assert(usx@ =~= zeros(8));
    base_frame(id, usx)
}

/// An all-zero eight-byte frame.
pub fn usy() -> (f: DataFrame)
    ensures
        frame_is(f, 0, zeros(8)),
{
    let new_id: u16 = 0x000;
    let size: u8 = 8;
    let mut usy: Vec<u8> = frame_data(size);
    usy[0] = 0x00;
    usy[1] = 0x00;
    usy[2] = 0x00;
    usy[3] = 0x00;
    usy[4] = 0x00;
    usy[5] = 0x00;
    usy[6] = 0x00;
    usy[7] = 0x00;
    assert(usy@ =~= zeros(8));
    base_frame(new_id, usy)
}

/// An all-zero eight-byte frame.
pub fn tto() -> (f: DataFrame)
    ensures
        frame_is(f, 0, zeros(8)),
{
    let id: u16 = 0x000;
    let size: u8 = 8;
    let mut tto: Vec<u8> = frame_data(size);
    tto[0] = 0x00;
    tto[1] = 0x00;
    tto[2] = 0x00;
    tto[3] = 0x00;
    tto[4] = 0x00;
    tto[5] = 0x00;
    tto[6] = 0x00;
    tto[7] = 0x00;
    assert(tto@ =~= zeros(8));
    base_frame(id, tto)
}

/// An all-zero eight-byte frame.
pub fn rss() -> (f: DataFrame)
    ensures
        frame_is(f, 0, zeros(8)),
{
    let id: u16 = 0x000;
    let size: u8 = 8;
    let mut rss: Vec<u8> = frame_data(size);
    rss[0] = 0x00;
    rss[1] = 0x00;
    rss[2] = 0x00;
    rss[3] = 0x00;
    rss[4] = 0x00;
    rss[5] = 0x00;
    rss[6] = 0x00;
    rss[7] = 0x00;
    assert(rss@ =~= zeros(8));
    base_frame(id, rss)
}

/// An all-zero eight-byte frame.
pub fn u5() -> (f: DataFrame)
    ensures
        frame_is(f, 0, zeros(8)),
{
    let id: u16 = 0x000;
    let size: u8 = 8;
    let mut u5: Vec<u8> = frame_data(size);
    u5[0] = 0x00;
    u5[1] = 0x00;
    u5[2] = 0x00;
    u5[3] = 0x00;
    u5[4] = 0x00;
    u5[5] = 0x00;
    u5[6] = 0x00;
    u5[7] = 0x00;
    assert(u5@ =~= zeros(8));
    base_frame(id, u5)
}

/// The rolling frame: the rolling value, then seven zero bytes.
pub fn tcgd(cp_state: &mut CPState) -> (f: DataFrame)
    ensures
        frame_is(f, 0, tcgd_bytes(old(cp_state).vehicle.tcgz)),
        *final(cp_state) == *old(cp_state),
{
    let id: u16 = 0x000;
    let size: u8 = 8;
    let mut tcgd: Vec<u8> = frame_data(size);
    tcgd[0] = cp_state.vehicle.tcgz;
    tcgd[1] = 0x00;
    tcgd[2] = 0x00;
    tcgd[3] = 0x00;
    tcgd[4] = 0x00;
    tcgd[5] = 0x00;
    tcgd[6] = 0x00;
    tcgd[7] = 0x00;
    assert(tcgd@ =~= tcgd_bytes(cp_state.vehicle.tcgz));
    base_frame(id, tcgd)
}

} // verus!
