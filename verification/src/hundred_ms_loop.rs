//! Frames sent every 100 ms.
use vstd::prelude::*;
use crate::types::{
    CPState, CpLink, DataFrame, LEDStateEnum, Transmission, base_frame, frame_data, frame_is,
    sends, spec_set_led, tag, zeros, tagged,
};
use crate::utils::{checksum_calc, lemma_byte_sum_bound};

verus! {

/// The state after the 100 ms schedule: the initialisation flag follows the
/// fault line, and a pending EVSE request turns the LED green-blinking.
pub open spec fn spec_hundred_ms_state(s: CPState, fault_line_high: bool) -> CPState {
    let s1 = CPState { link: CpLink { cp_init: fault_line_high, ..s.link }, ..s };
    if s1.charge.evse_request {
        spec_set_led(s1, LEDStateEnum::GreenBlink)
    } else {
        s1
    }
}

/// The bytes of the status frame that carries counter `c` (its low four bits
/// in the upper nibble of byte 6).
pub open spec fn vvvsv_bytes(c: u8) -> Seq<u8> {
    zeros(6).push(((c % 16) * 16) as u8).push(0)
}

/// The bytes of the counter frame for counter `c`: twice its low four bits, then 0.
pub open spec fn counter_bytes(c: u8) -> Seq<u8> {
    seq![((c % 16) * 2) as u8, 0u8]
}

/// Sends the 100 ms frames. The initialisation flag is first set from the
/// fault line (`fault_line_high`); the counter then advances, wrapping after 255.
pub fn init(
    hundred_ms_ptr: &mut u8,
    cp_state: &mut CPState,
    fault_line_high: bool,
) -> (r: Vec<Transmission>)
    ensures
        *final(hundred_ms_ptr) == (*old(hundred_ms_ptr) + 1) % 256,
        *final(cp_state) == spec_hundred_ms_state(*old(cp_state), fault_line_high),
        r@.len() == 11,
        sends(r@[0], 0, zeros(8), tag(100, 0)),
        sends(r@[1], 0, zeros(1), tag(100, 1)),
        sends(r@[2], 0, zeros(8), tag(100, 2)),
        sends(r@[3], 0, zeros(1), tag(100, 3)),
        sends(r@[4], 0, zeros(8), tag(100, 4)),
        sends(r@[5], 0, zeros(2), tag(100, 5)),
        sends(r@[6], 0, zeros(8), tag(100, 6)),
        sends(r@[7], 0, vvvsv_bytes(*old(hundred_ms_ptr)), tag(100, 7)),
        sends(r@[8], 0, counter_bytes(*old(hundred_ms_ptr)), tag(100, 8)),
        sends(r@[9], 0, zeros(6), tag(100, 9)),
        sends(r@[10], 0, zeros(8), tag(100, 10)),
{
    if fault_line_high == false {
        // If this is low, then the GPIO is low.
        cp_state.link.cp_init = false;
    } else {
        cp_state.link.cp_init = true;
    }

    let hundred_ms_counter: u8 = *hundred_ms_ptr;
    let mut frames: Vec<Transmission> = Vec::new();
    frames.push(tagged(ltbxtxf(), 100, 0));
    frames.push(tagged(u2(), 100, 1));
    frames.push(tagged(u3(cp_state), 100, 2));
    frames.push(tagged(ctfa(cp_state, false), 100, 3));
    frames.push(tagged(scss(), 100, 4));
    frames.push(tagged(da(cp_state), 100, 5));
    frames.push(tagged(u4(cp_state), 100, 6));
    frames.push(tagged(vvvsv(hundred_ms_counter), 100, 7));
    frames.push(tagged(counter(hundred_ms_counter), 100, 8));
    frames.push(tagged(msx(), 100, 9));
    frames.push(tagged(vvvv(hundred_ms_counter), 100, 10));
    if hundred_ms_counter < 255 {
        *hundred_ms_ptr = hundred_ms_counter + 1;
    } else {
        *hundred_ms_ptr = 0;
    }
    frames
}

/// An all-zero eight-byte frame.
pub fn ltbxtxf() -> (f: DataFrame)
    ensures
        frame_is(f, 0, zeros(8)),
{
    let id: u16 = 0x000;
    let size: u8 = 8;
    let mut ltbxtxf: Vec<u8> = frame_data(size);
    ltbxtxf[0] = 0x00;
    ltbxtxf[1] = 0x00;
    ltbxtxf[2] = 0x00;
    ltbxtxf[3] = 0x00;
    ltbxtxf[4] = 0x00;
    ltbxtxf[5] = 0x00;
    ltbxtxf[6] = 0x00;
    ltbxtxf[7] = 0x00;
    assert(ltbxtxf@ =~= zeros(8));
    base_frame(id, ltbxtxf)
}

/// A one-byte zero frame.
pub fn u2() -> (f: DataFrame)
    ensures
        frame_is(f, 0, zeros(1)),
{
    let id: u16 = 0x000;
    let size: u8 = 1;
    let mut u2: Vec<u8> = frame_data(size);
    u2[0] = 0x00;
    assert(u2@ =~= zeros(1));
    base_frame(id, u2)
}

/// An all-zero eight-byte frame; a pending EVSE request also asks for the
/// green-blinking LED.
pub fn u3(cp_state: &mut CPState) -> (f: DataFrame)
    ensures
        frame_is(f, 0, zeros(8)),
        *final(cp_state) == if old(cp_state).charge.evse_request {
            spec_set_led(*old(cp_state), LEDStateEnum::GreenBlink)
        } else {
            *old(cp_state)
        },
{
    let id: u16 = 0x000;
    let size: u8 = 8;
    let mut u3: Vec<u8> = frame_data(size);
    u3[0] = 0x00;
    u3[1] = 0x00;
    u3[2] = 0x00;
    u3[3] = 0x00;
    u3[4] = 0x00;
    u3[5] = 0x00;
    u3[6] = 0x00;
    u3[7] = 0x00;
    if cp_state.charge.evse_request {
        u3[0] = u3[0] + 0x00;
        u3[7] = u3[7] + 0x00;
        cp_state.set_led(LEDStateEnum::GreenBlink);
    }
    assert(u3@ =~= zeros(8));
    base_frame(id, u3)
}

/// A one-byte zero frame, whether or not a fault is set or the relay is on.
pub fn ctfa(cp_state: &mut CPState, fault_set: bool) -> (f: DataFrame)
    ensures
        frame_is(f, 0, zeros(1)),
        *final(cp_state) == *old(cp_state),
{
    let id: u16 = 0x000;
    let size: u8 = 1;
    let mut ctfa: Vec<u8> = frame_data(size);
    ctfa[0] = 0x00;
    if fault_set {
        ctfa[0] = ctfa[0] + 0x00;
    }
    if cp_state.charge.charger_relay_enabled {
        ctfa[0] = ctfa[0] - 0x00;
    }
    assert(ctfa@ =~= zeros(1));
    base_frame(id, ctfa)
}

/// An all-zero eight-byte frame.
pub fn scss() -> (f: DataFrame)
    ensures
        frame_is(f, 0, zeros(8)),
{
    let id: u16 = 0x000;
    let size: u8 = 8;
    let mut scss: Vec<u8> = frame_data(size);
    scss[0] = 0x00;
    scss[1] = 0x00;
    scss[2] = 0x00;
    scss[3] = 0x00;
    scss[4] = 0x00;
    scss[5] = 0x00;
    scss[6] = 0x00;
    scss[7] = 0x00;
    assert(scss@ =~= zeros(8));
    base_frame(id, scss)
}

/// A two-byte zero frame, whether or not the charge port is initialised.
pub fn da(cp_state: &mut CPState) -> (f: DataFrame)
    ensures
        frame_is(f, 0, zeros(2)),
        *final(cp_state) == *old(cp_state),
{
    let id: u16 = 0x000;
    let size: u8 = 2;
    let mut da: Vec<u8> = frame_data(size);
    if cp_state.link.cp_init {
        da[0] = 0x00;
    } else {
        da[0] = 0x00;
    }
    da[1] = 0x00;
    assert(da@ =~= zeros(2));
    base_frame(id, da)
}

/// An all-zero eight-byte frame, whether or not the vehicle is locked.
pub fn u4(cp_state: &mut CPState) -> (f: DataFrame)
    ensures
        frame_is(f, 0, zeros(8)),
        *final(cp_state) == *old(cp_state),
{
    let id: u16 = 0x000;
    let size: u8 = 8;
    let mut u4: Vec<u8> = frame_data(size);
    u4[0] = 0x00;
    u4[1] = 0x00;
    u4[2] = 0x00;
    u4[3] = 0x00;
    u4[4] = 0x00;
    u4[5] = 0x00;
    u4[6] = 0x00;
    u4[7] = 0x00;
    if cp_state.vehicle.vehicle_locked {
        u4[5] = u4[5] + 0x00;
        u4[6] = u4[6] + 0x00;
    }
    assert(u4@ =~= zeros(8));
    base_frame(id, u4)
}

/// The status frame that carries the low four bits of the counter in the
/// upper nibble of byte 6, with its checksum in byte 7.
pub fn vvvsv(hundred_ms_counter: u8) -> (f: DataFrame)
    ensures
        frame_is(f, 0, vvvsv_bytes(hundred_ms_counter)),
{
    // Checksum verified to be correct.
    let id: u16 = 0x000;
    let size: u8 = 8;
    let res: u8 = hundred_ms_counter % 16;
    let mut vvvsv: Vec<u8> = frame_data(size);
    vvvsv[0] = 0x00;
    vvvsv[1] = 0x00;
    vvvsv[2] = 0x00;
    vvvsv[3] = 0x00;
    vvvsv[4] = 0x00;
    vvvsv[5] = 0x00;
    vvvsv[6] = 0x00;
    let nibble: u8 = res << 4;
    assert(nibble == res * 16) by (bit_vector)
        requires
            nibble == res << 4,
            res < 16,
    ;
    assert(0u8 | nibble == nibble) by (bit_vector);
    vvvsv[6] = vvvsv[6] | nibble;
    assert(vvvsv@ =~= vvvsv_bytes(hundred_ms_counter));
    proof {
        lemma_byte_sum_bound(vvvsv@, 7);
    }
    let sum: u8 = checksum_calc(vvvsv.as_slice(), id, size);
    vvvsv[7] = sum;
    assert(vvvsv@ =~= vvvsv_bytes(hundred_ms_counter));
    base_frame(id, vvvsv)
}

/// The counter frame: twice the low four bits of the counter, then 0.
pub fn counter(hundred_ms_counter: u8) -> (f: DataFrame)
    ensures
        frame_is(f, 0, counter_bytes(hundred_ms_counter)),
{
    let id: u16 = 0x000;
    let size: u8 = 2;
    let mut data: Vec<u8> = frame_data(size);
    let res: u8 = hundred_ms_counter % 16;
    data[0] = res + res;
    data[1] = 0;
    assert(data@ =~= counter_bytes(hundred_ms_counter));
    base_frame(id, data)
}

/// A six-byte zero frame.
pub fn msx() -> (f: DataFrame)
    ensures
        frame_is(f, 0, zeros(6)),
{
    let id: u16 = 0x000;
    let size: u8 = 6;
    let mut msx: Vec<u8> = frame_data(size);
    msx[0] = 0x00;
    msx[1] = 0x00;
    msx[2] = 0x00;
    msx[3] = 0x00;
    msx[4] = 0x00;
    msx[5] = 0x00;
    assert(msx@ =~= zeros(6));
    base_frame(id, msx)
}

/// An all-zero eight-byte frame, whichever of its four phases the counter selects.
pub fn vvvv(hundred_ms_counter: u8) -> (f: DataFrame)
    ensures
        frame_is(f, 0, zeros(8)),
{
    let id: u16 = 0x000;
    let size: u8 = 8;
    let mut vvvv: Vec<u8> = frame_data(size);
    let res = hundred_ms_counter % 4;
    match res {
        0 => {
            vvvv[0] = 0x00;
            vvvv[1] = 0x00;
            vvvv[2] = 0x00;
            vvvv[3] = 0x00;
            vvvv[4] = 0x00;
            vvvv[5] = 0x00;
            vvvv[6] = 0x00;
            vvvv[7] = 0x00;
        },
        1 => {
            vvvv[0] = 0x00;
            vvvv[1] = 0x00;
            vvvv[2] = 0x00;
            vvvv[3] = 0x00;
            vvvv[4] = 0x00;
            vvvv[5] = 0x00;
            vvvv[6] = 0x00;
            vvvv[7] = 0x00;
        },
        2 => {
            vvvv[0] = 0x00;
            vvvv[1] = 0x00;
            vvvv[2] = 0x00;
            vvvv[3] = 0x00;
            vvvv[4] = 0x00;
            vvvv[5] = 0x00;
            vvvv[6] = 0x00;
            vvvv[7] = 0x00;
        },
        3 | _ => {
            vvvv[0] = 0x00;
            vvvv[1] = 0x00;
            vvvv[2] = 0x00;
            vvvv[3] = 0x00;
            vvvv[4] = 0x00;
            vvvv[5] = 0x00;
            vvvv[6] = 0x00;
            vvvv[7] = 0x00;
        },
    }
    assert(vvvv@ =~= zeros(8));
    base_frame(id, vvvv)
}

/// The level of the latch output: it is driven low while the charger relay is
/// enabled (the insert-enable line is low during a charge), high otherwise.
pub fn latch_output_high(cp_state: &CPState) -> (high: bool)
    ensures
        high == !cp_state.charge.charger_relay_enabled,
{
    if cp_state.charge.charger_relay_enabled {
        false
    } else {
        true
    }
}

} // verus!
