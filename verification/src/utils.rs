//! Frame checksums and the empty frame.
use vstd::prelude::*;
use crate::types::{
    ActivityEvent, CPState, CanError, DataFrame, FrameTag, frame_is, log_push, zeros, zero_frame,
};

verus! {

/// Sum of the first `n` bytes of `data`.
pub open spec fn byte_sum(data: Seq<u8>, n: int) -> int
    decreases n,
{
    if n <= 0 {
        0
    } else {
        byte_sum(data, n - 1) + data[n - 1]
    }
}

/// The sum of `n` bytes is at most `255 * n`.
pub proof fn lemma_byte_sum_bound(data: Seq<u8>, n: int)
    requires
        0 <= n <= data.len(),
    ensures
        0 <= byte_sum(data, n) <= 255 * n,
    decreases n,
{
    if n > 0 {
        lemma_byte_sum_bound(data, n - 1);
    }
}

/// The checksum byte of a frame: the running sum of the first `size - 1`
/// bytes and of the two bytes of `id` is masked to nothing, so it is 0.
pub fn checksum_calc(data: &[u8], id: u16, size: u8) -> (r: u8)
    requires
        size >= 1,
        size - 1 <= data@.len(),
        id + id / 256 <= u16::MAX,
        byte_sum(data@, size - 1) + id + id / 256 <= u16::MAX,
    ensures
        r == 0,
{
    let mut checksum_calc: u16 = 0;
    let n: u8 = size - 1;
    let mut i: u8 = 0;
    proof {
        lemma_byte_sum_bound(data@, size - 1);
    }
    while i < n
        invariant
            n == size - 1,
            n <= data@.len(),
            i <= n,
            checksum_calc == byte_sum(data@, i as int),
            byte_sum(data@, n as int) + id + id / 256 <= u16::MAX,
        decreases n - i,
    {
        proof {
            lemma_byte_sum_bound(data@, i as int);
            lemma_byte_sum_monotone(data@, i as int + 1, n as int);
        }
        checksum_calc = checksum_calc + data[i as usize] as u16;
        i = i + 1;
    }
    assert(id >> 8 == id / 256) by (bit_vector);
    checksum_calc += id + (id >> 8);
    let sum: u16 = checksum_calc;
    checksum_calc = sum & 0x00;
    assert(checksum_calc == 0) by (bit_vector)
        requires
            checksum_calc == sum & 0,
    ;
    checksum_calc as u8
}

proof fn lemma_byte_sum_monotone(data: Seq<u8>, a: int, b: int)
    requires
        0 <= a <= b <= data.len(),
    ensures
        byte_sum(data, a) <= byte_sum(data, b),
    decreases b - a,
{
    if a < b {
        lemma_byte_sum_monotone(data, a, b - 1);
    }
}

/// A frame with identifier `id` and `size` (a full eight) zero bytes.
pub fn send_empty_message(id: u16, size: u8) -> (f: DataFrame)
    requires
        size == 8,
    ensures
        frame_is(f, id as int, zeros(size as nat)),
{
    zero_frame(id, size)
}

/// Logs that the frame tagged `tag` could not be sent at `elapsed`.
pub fn handle_can_error(cp_state: &mut CPState, error: CanError, tag: FrameTag, elapsed: u32)
    ensures
        final(cp_state).activity_list@ == log_push(
            old(cp_state).activity_list@,
            ActivityEvent::SendError { elapsed, error, tag },
        ),
        *final(cp_state) == (CPState {
            activity_list: final(cp_state).activity_list,
            ..*old(cp_state)
        }),
{
    match error {
        CanError::BufferExhausted => {
            cp_state.activity_list.push_back(ActivityEvent::SendError { elapsed, error, tag });
        },
        CanError::ConfigurationFailed => {
            cp_state.activity_list.push_back(ActivityEvent::SendError { elapsed, error, tag });
        },
        CanError::InvalidFrame => {
            cp_state.activity_list.push_back(ActivityEvent::SendError { elapsed, error, tag });
        },
        CanError::Timeout => {
            cp_state.activity_list.push_back(ActivityEvent::SendError { elapsed, error, tag });
        },
    }
}

} // verus!
