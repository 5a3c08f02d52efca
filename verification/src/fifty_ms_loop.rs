//! Frames sent every 50 ms.
use vstd::prelude::*;
use crate::types::{
    CPState, DataFrame, Transmission, base_frame, frame_data, frame_is, sends, tag, zeros, tagged,
};
use crate::utils::{checksum_calc, lemma_byte_sum_bound};

verus! {

/// The counter nibble of a 50 ms frame: `value` in the upper four bits of a byte.
pub open spec fn upper_nibble(value: int) -> u8 {
    ((value * 16) % 256) as u8
}

/// The bytes of the first 50 ms frame for checksum count `count`.
pub open spec fn p2_bytes(count: u8) -> Seq<u8> {
    zeros(6).push(upper_nibble(count + 1)).push(0)
}

/// The bytes of the second 50 ms frame for checksum count `count`.
pub open spec fn u7_bytes(count: u8) -> Seq<u8> {
    zeros(6).push(upper_nibble(count as int)).push(0)
}

/// Sends the 50 ms frames; the counter then advances, wrapping after 255.
pub fn init(fifty_ms_ptr: &mut u8, cp_state: &mut CPState) -> (r: Vec<Transmission>)
    ensures
        *final(fifty_ms_ptr) == (*old(fifty_ms_ptr) + 1) % 256,
        *final(cp_state) == *old(cp_state),
        r@.len() == 2,
        sends(r@[0], 0, p2_bytes(*old(fifty_ms_ptr) % 16), tag(50, 0)),
        sends(r@[1], 0, u7_bytes(*old(fifty_ms_ptr) % 16), tag(50, 1)),
{
    let fifty_ms_counter: u8 = *fifty_ms_ptr;
    let fifty_ms_checksum_count: u8 = fifty_ms_counter % 16;
    let mut frames: Vec<Transmission> = Vec::new();
    frames.push(tagged(p2(fifty_ms_checksum_count, cp_state), 50, 0));
    frames.push(tagged(u7(fifty_ms_checksum_count), 50, 1));
    if fifty_ms_counter < 255 {
        *fifty_ms_ptr = fifty_ms_counter + 1;
    } else {
        *fifty_ms_ptr = 0;
    }
    frames
}

/// The first 50 ms frame: the count plus one in the upper nibble of byte 6, and
/// its checksum in byte 7.
pub fn p2(fifty_ms_checksum_count: u8, cp_state: &mut CPState) -> (f: DataFrame)
    requires
        fifty_ms_checksum_count < 255,
    ensures
        frame_is(f, 0, p2_bytes(fifty_ms_checksum_count)),
        *final(cp_state) == *old(cp_state),
{
    // Checksum correct.
    let id: u16 = 0x000;
    let size: u8 = 8;
    let mut p2: Vec<u8> = frame_data(size);
    let res = fifty_ms_checksum_count % 2;
    let c: u8 = fifty_ms_checksum_count + 1;
    let nibble: u8 = c << 4;
    assert(nibble == upper_nibble(c as int)) by (bit_vector)
        requires
            nibble == c << 4,
    ;
    match res {
        0 => {
            p2[0] = 0x00;
            p2[1] = 0x00;
            p2[2] = 0x00;
            p2[3] = 0x00;
            p2[4] = 0x00;
            p2[5] = 0x00;
            p2[6] = 0x00;
            p2[6] = p2[6] | nibble;
        },
        1 | _ => {
            p2[0] = 0x00;
            if cp_state.link.cp_init {
                p2[1] = 0x00;
            } else {
                p2[1] = 0x00;
            }
            p2[2] = 0x00;
            p2[3] = 0x00;
            p2[4] = 0x00;
            p2[5] = 0x00;
            p2[6] = 0x00;
            p2[6] = p2[6] | nibble;
        },
    }
    p2[7] = 0;
    assert(0u8 | nibble == nibble) by (bit_vector);
    assert(p2@ =~= p2_bytes(fifty_ms_checksum_count));
    proof {
        lemma_byte_sum_bound(p2@, 7);
    }
    let sum: u8 = checksum_calc(p2.as_slice(), id, size);
    p2[7] = sum;
    assert(p2@ =~= p2_bytes(fifty_ms_checksum_count));
    base_frame(id, p2)
}

/// The second 50 ms frame: the count in the upper nibble of byte 6, and its
/// checksum in byte 7.
pub fn u7(fifty_ms_checksum_count: u8) -> (f: DataFrame)
    ensures
        frame_is(f, 0, u7_bytes(fifty_ms_checksum_count)),
{
    // Checksum correct.
    let id: u16 = 0x000;
    let size: u8 = 8;
    let mut u7: Vec<u8> = frame_data(size);
    let res = fifty_ms_checksum_count % 2;
    let c: u8 = fifty_ms_checksum_count;
    let nibble: u8 = c << 4;
    assert(nibble == upper_nibble(c as int)) by (bit_vector)
        requires
            nibble == c << 4,
    ;
    match res {
        0 => {
            u7[0] = 0x00;
            u7[1] = 0x00;
            u7[2] = 0x00;
            u7[3] = 0x00;
            u7[4] = 0x00;
            u7[5] = 0x00;
            u7[6] = 0x00;
            u7[6] = u7[6] | nibble;
        },
        1 | _ => {
            u7[0] = 0x00;
            u7[1] = 0x00;
            u7[2] = 0x00;
            u7[3] = 0x00;
            u7[4] = 0x00;
            u7[5] = 0x00;
            u7[6] = 0x00;
            u7[6] = u7[6] | nibble;
        },
    }
    u7[7] = 0;
    assert(0u8 | nibble == nibble) by (bit_vector);
    assert(u7@ =~= u7_bytes(fifty_ms_checksum_count));
    proof {
        lemma_byte_sum_bound(u7@, 7);
    }
    let sum: u8 = checksum_calc(u7.as_slice(), id, size);
    u7[7] = sum;
    assert(u7@ =~= u7_bytes(fifty_ms_checksum_count));
    base_frame(id, u7)
}

} // verus!
