//! Frames sent every 10 ms, and the charge-port timeout.
use vstd::prelude::*;
use crate::types::{
    ActivityEvent, CPState, ChargeControl, ConsoleFlags, ChargeStateEnum,
    ContactorRequestStateEnum, CpLink, DataFrame, LEDStateEnum, Transmission, base_frame,
    frame_data, frame_is, log_push, sends, spec_set_led, tag, zeros, tagged,
};
use crate::process_init::{init_step_defined, spec_process_init};

verus! {

/// How long (ms) the charge port may stay silent before the link times out.
pub const CP_TIMEOUT_MS: u32 = 3500;

/// The contactor request is an AC one (requested or enabled).
pub open spec fn ac_contactor(c: ContactorRequestStateEnum) -> bool {
    c == ContactorRequestStateEnum::ContactorACRequest || c
        == ContactorRequestStateEnum::ContactorACEnable
}

/// The state after the contactor frame: a request that the charger has
/// acknowledged becomes an enable, and the charge waits for the contactor.
pub open spec fn spec_ccaa(s: CPState) -> CPState {
    let c = s.charge;
    if c.contactor_request_state == ContactorRequestStateEnum::ContactorACRequest
        && c.cbtxva_request {
        CPState {
            charge: ChargeControl {
                contactor_request_state: ContactorRequestStateEnum::ContactorACEnable,
                charge_state: ChargeStateEnum::ContactorRequest,
                ..c
            },
            ..s
        }
    } else if c.contactor_request_state == ContactorRequestStateEnum::ContactorDCRequest
        && c.cbtxva_request {
        CPState {
            charge: ChargeControl {
                contactor_request_state: ContactorRequestStateEnum::ContactorDCEnable,
                charge_state: ChargeStateEnum::ContactorRequest,
                ..c
            },
            ..s
        }
    } else {
        s
    }
}

/// The state after the charger frame: an AC contactor request is acknowledged,
/// and a fresh AC request turns the LED blue-blinking.
pub open spec fn spec_cbtxt(s: CPState) -> CPState {
    let c = s.charge.contactor_request_state;
    if ac_contactor(c) {
        let s1 = if c == ContactorRequestStateEnum::ContactorACRequest {
            spec_set_led(s, LEDStateEnum::BlueBlink)
        } else {
            s
        };
        CPState { charge: ChargeControl { cbtxva_request: true, ..s1.charge }, ..s1 }
    } else {
        s
    }
}

/// The state after the 10 ms schedule (the timeout check aside).
pub open spec fn spec_ten_ms_state(s: CPState, elapsed: u32) -> CPState {
    spec_cbtxt(spec_ccaa(spec_process_init(s, elapsed)))
}

/// The charge port has been silent for longer than the timeout.
pub open spec fn cp_timed_out(s: CPState, elapsed: u32) -> bool {
    elapsed - s.link.previous_cptod_ts > CP_TIMEOUT_MS
}

/// The activity log after the timeout check: a timeout entry when the link
/// times out and had not timed out already.
pub open spec fn spec_timeout_log(s: CPState, elapsed: u32) -> Seq<ActivityEvent> {
    if cp_timed_out(s, elapsed) && !s.link.cp_comm_timeout {
        log_push(s.activity_list@, ActivityEvent::Timeout { elapsed })
    } else {
        s.activity_list@
    }
}

/// The state (its log aside) after the timeout check: a silent charge port
/// puts the link back to waiting for its handshake.
pub open spec fn spec_timeout_state(s: CPState, elapsed: u32) -> CPState {
    if cp_timed_out(s, elapsed) {
        CPState {
            link: CpLink { cp_comm_timeout: true, cp_init: false, init_sequence: 3, ..s.link },
            charge: ChargeControl { charge_state: ChargeStateEnum::TimeOut, ..s.charge },
            ..s
        }
    } else {
        s
    }
}

/// Runs the 10 ms schedule: a handshake step, then the 10 ms frames. Returns
/// the counter advanced by one (wrapping after 65535) and the frames to send.
/// The timeout check, which comes after the frames are sent, is
/// [`check_cp_timeout`].
pub fn init(cp_state: &mut CPState, elapsed: u32, ten_ms_counter: u16) -> (r: (
    u16,
    Vec<Transmission>,
))
    requires
        init_step_defined(*old(cp_state), elapsed),
    ensures
        r.0 == (ten_ms_counter + 1) % 65536,
        *final(cp_state) == spec_ten_ms_state(*old(cp_state), elapsed),
        r.1@.len() == 6,
        sends(r.1@[0], 0, zeros(8), tag(10, 0)),
        sends(r.1@[1], 0, zeros(6), tag(10, 1)),
        sends(r.1@[2], 0, zeros(4), tag(10, 2)),
        sends(r.1@[3], 0, zeros(8), tag(10, 3)),
        sends(r.1@[4], 0, zeros(8), tag(10, 4)),
        sends(r.1@[5], 0, zeros(8), tag(10, 5)),
{
    let mut ten_ms_counter: u16 = ten_ms_counter;
    crate::process_init::init(cp_state, elapsed);
    let mut frames: Vec<Transmission> = Vec::new();
    frames.push(tagged(u1(ten_ms_counter), 10, 0));
    frames.push(tagged(ccaa(cp_state), 10, 1));
    frames.push(tagged(cbtxva(cp_state), 10, 2));
    frames.push(tagged(cbtxt(cp_state), 10, 3));
    frames.push(tagged(sid845(cp_state), 10, 4));
    frames.push(tagged(cs(cp_state), 10, 5));
    if ten_ms_counter < 65535 {
        ten_ms_counter = ten_ms_counter + 1;
    } else {
        ten_ms_counter = 0;
    }
    (ten_ms_counter, frames)
}

/// Checks for a timeout with the charge port at `elapsed`: after more than
/// 3.5 s of silence the link waits for a new handshake and the charge state
/// becomes `TimeOut`; the first such check after the link was up is logged.
pub fn check_cp_timeout(cp_state: &mut CPState, elapsed: u32)
    requires
        old(cp_state).link.previous_cptod_ts <= elapsed,
    ensures
        final(cp_state).activity_list@ == spec_timeout_log(*old(cp_state), elapsed),
        *final(cp_state) == (CPState {
            activity_list: final(cp_state).activity_list,
            ..spec_timeout_state(*old(cp_state), elapsed)
        }),
{
    // Check for timeout with CP ECU
    if (elapsed - cp_state.link.previous_cptod_ts) > CP_TIMEOUT_MS {
        // Only log a message if we've transitioned to an OK state before.
        if !cp_state.link.cp_comm_timeout {
            cp_state.activity_list.push_back(ActivityEvent::Timeout { elapsed });
        }
        cp_state.link.cp_comm_timeout = true;
        cp_state.link.cp_init = false;
        cp_state.link.init_sequence = 3;
        cp_state.charge.charge_state = ChargeStateEnum::TimeOut;
    }
}

/// An all-zero eight-byte frame, whichever of its six phases the counter selects.
pub fn u1(ten_ms_counter: u16) -> (f: DataFrame)
    ensures
        frame_is(f, 0, zeros(8)),
{
    let id: u16 = 0x000;
    let size: u8 = 8;
    let mut u1: Vec<u8> = frame_data(size);
    let res = ten_ms_counter % 6;
    match res {
        0 => {
            u1[0] = 0x00;
            u1[1] = 0x00;
            u1[2] = 0x00;
            u1[3] = 0x00;
            u1[4] = 0x00;
            u1[5] = 0x00;
            u1[6] = 0x00;
            u1[7] = 0x00;
        },
        1 => {
            u1[0] = 0x00;
            u1[1] = 0x00;
            u1[2] = 0x00;
            u1[3] = 0x00;
            u1[4] = 0x00;
            u1[5] = 0x00;
            u1[6] = 0x00;
            u1[7] = 0x00;
        },
        2 => {
            u1[0] = 0x00;
            u1[1] = 0x00;
            u1[2] = 0x00;
            u1[3] = 0x00;
            u1[4] = 0x00;
            u1[5] = 0x00;
            u1[6] = 0x00;
            u1[7] = 0x00;
        },
        3 => {
            u1[0] = 0x00;
            u1[1] = 0x00;
            u1[2] = 0x00;
            u1[3] = 0x00;
            u1[4] = 0x00;
            u1[5] = 0x00;
            u1[6] = 0x00;
            u1[7] = 0x00;
        },
        4 => {
            u1[0] = 0x00;
            u1[1] = 0x00;
            u1[2] = 0x00;
            u1[3] = 0x00;
            u1[4] = 0x00;
            u1[5] = 0x00;
            u1[6] = 0x00;
            u1[7] = 0x00;
        },
        5 => {
            u1[0] = 0x00;
            u1[1] = 0x00;
            u1[2] = 0x00;
            u1[3] = 0x00;
            u1[4] = 0x00;
            u1[5] = 0x00;
            u1[6] = 0x00;
            u1[7] = 0x00;
        },
        _ => {
            u1[0] = 0x00;
            u1[1] = 0x00;
            u1[2] = 0x00;
            u1[3] = 0x00;
            u1[4] = 0x00;
            u1[5] = 0x00;
            u1[6] = 0x00;
            u1[7] = 0x00;
        },
    }
    assert(u1@ =~= zeros(8));
    base_frame(id, u1)
}

/// The contactor frame (six zero bytes); an acknowledged contactor request
/// becomes an enable first.
pub fn ccaa(cp_state: &mut CPState) -> (f: DataFrame)
    ensures
        frame_is(f, 0, zeros(6)),
        *final(cp_state) == spec_ccaa(*old(cp_state)),
{
    let id: u16 = 0x000;
    let size: u8 = 6;
    let mut ccaa: Vec<u8> = frame_data(size);

    if cp_state.charge.contactor_request_state == ContactorRequestStateEnum::ContactorACRequest
        && cp_state.charge.cbtxva_request {
        cp_state.charge.contactor_request_state = ContactorRequestStateEnum::ContactorACEnable;
        cp_state.charge.charge_state = ChargeStateEnum::ContactorRequest;
    } else if cp_state.charge.contactor_request_state
        == ContactorRequestStateEnum::ContactorDCRequest && cp_state.charge.cbtxva_request {
        cp_state.charge.contactor_request_state = ContactorRequestStateEnum::ContactorDCEnable;
        cp_state.charge.charge_state = ChargeStateEnum::ContactorRequest;
    }
    ccaa[0] = 0x00;
    ccaa[1] = 0x00;
    ccaa[2] = 0x00;
    ccaa[3] = 0x00;
    ccaa[4] = 0x00;
    ccaa[5] = 0x00;

    if cp_state.charge.contactor_request_state == ContactorRequestStateEnum::ContactorACEnable {
        ccaa[5] = 0x00;
    } else if cp_state.charge.contactor_request_state
        == ContactorRequestStateEnum::ContactorDCEnable {
        ccaa[5] = 0x00;
    }
    assert(ccaa@ =~= zeros(6));
    base_frame(id, ccaa)
}

/// A four-byte zero frame, whether or not the charger has acknowledged.
pub fn cbtxva(cp_state: &mut CPState) -> (f: DataFrame)
    ensures
        frame_is(f, 0, zeros(4)),
        *final(cp_state) == *old(cp_state),
{
    let id: u16 = 0x000;
    let size: u8 = 4;
    let mut cbtxva: Vec<u8> = frame_data(size);
    cbtxva[0] = 0x00;
    cbtxva[1] = 0x00;
    cbtxva[2] = 0x00;
    if cp_state.charge.cbtxva_request {
        cbtxva[2] = cbtxva[2] + 0x00;
    }
    cbtxva[3] = 0x00;
    assert(cbtxva@ =~= zeros(4));
    base_frame(id, cbtxva)
}

/// The charger frame (eight zero bytes); an AC contactor request is acknowledged,
/// and a fresh one turns the LED blue-blinking.
pub fn cbtxt(cp_state: &mut CPState) -> (f: DataFrame)
    ensures
        frame_is(f, 0, zeros(8)),
        *final(cp_state) == spec_cbtxt(*old(cp_state)),
{
    let id: u16 = 0x000;
    let size: u8 = 8;
    let mut cbtxt: Vec<u8> = frame_data(size);

    cbtxt[0] = 0x00;
    cbtxt[1] = 0x00;
    if (cp_state.charge.contactor_request_state == ContactorRequestStateEnum::ContactorACRequest)
        || (cp_state.charge.contactor_request_state
        == ContactorRequestStateEnum::ContactorACEnable) {
        if cp_state.charge.contactor_request_state
            == ContactorRequestStateEnum::ContactorACRequest {
            cp_state.set_led(LEDStateEnum::BlueBlink);
        }
        cbtxt[0] = cbtxt[0] - 0x00;
        cbtxt[1] = cbtxt[1] + 0x00;
        cp_state.charge.cbtxva_request = true;
    }
    cbtxt[2] = 0x00;
    cbtxt[3] = 0x00;
    cbtxt[4] = 0x00;
    cbtxt[5] = 0x00;
    cbtxt[6] = 0x00;
    cbtxt[7] = 0x00;
    assert(cbtxt@ =~= zeros(8));
    base_frame(id, cbtxt)
}

/// An all-zero eight-byte frame, whatever the relay, contactor and LED states.
pub fn sid845(cp_state: &mut CPState) -> (f: DataFrame)
    ensures
        frame_is(f, 0, zeros(8)),
        *final(cp_state) == *old(cp_state),
{
    let id: u16 = 0x000;
    let size: u8 = 8;
    let mut cs: Vec<u8> = frame_data(size);

    cs[0] = 0x00;
    cs[1] = 0x00;
    cs[2] = 0x00;
    cs[3] = 0x00;
    cs[4] = 0x00;

    if cp_state.charge.charger_relay_enabled {
        cs[3] = cs[3] + 0x00;
    } else if cp_state.charge.cbtxva_request && (cp_state.charge.contactor_request_state
        == ContactorRequestStateEnum::ContactorACRequest || cp_state.charge.contactor_request_state
        == ContactorRequestStateEnum::ContactorACEnable) {
        cs[3] = cs[3] + 0x00;
    }
    match cp_state.vehicle.desired_cp_led_state {
        LEDStateEnum::WhiteBlue => {},
        LEDStateEnum::BlueBlink => {
            cs[3] = cs[3] + 0x00;
        },
        LEDStateEnum::GreenBlink => {
            cs[3] = cs[3] + 0x00;
        },
        LEDStateEnum::GreenSolid => {
            cs[3] = cs[3] + 0x00;
        },
        LEDStateEnum::Rainbow => {
            cs[3] = cs[3] + 0x00;
        },
    }
    if cp_state.charge.charger_relay_enabled {
        cs[4] = cs[4] + 0x00;
    }
    cs[5] = 0x00;
    cs[6] = 0x00;
    cs[7] = 0x00;
    assert(cs@ =~= zeros(8));
    base_frame(id, cs)
}

/// An all-zero eight-byte frame, whatever the relay, contactor and LED states.
pub fn cs(cp_state: &mut CPState) -> (f: DataFrame)
    ensures
        frame_is(f, 0, zeros(8)),
        *final(cp_state) == *old(cp_state),
{
    let id: u16 = 0x000;
    let size: u8 = 8;
    let mut cs: Vec<u8> = frame_data(size);

    cs[0] = 0x00;
    cs[1] = 0x00;
    cs[2] = 0x00;
    cs[3] = 0x00;
    cs[4] = 0x00;

    if cp_state.charge.charger_relay_enabled {
        cs[4] = cs[4] + 0x00;
    } else if cp_state.charge.cbtxva_request && (cp_state.charge.contactor_request_state
        == ContactorRequestStateEnum::ContactorACRequest || cp_state.charge.contactor_request_state
        == ContactorRequestStateEnum::ContactorACEnable) {
        cs[4] = cs[4] + 0x00;
    } else if cp_state.charge.charge_state == ChargeStateEnum::StopCharge {
        cs[4] = 0x00;
    }
    match cp_state.vehicle.desired_cp_led_state {
        LEDStateEnum::WhiteBlue => {},
        LEDStateEnum::BlueBlink => {
            cs[4] = cs[4] + 0x00;
        },
        LEDStateEnum::GreenBlink => {
            cs[4] = cs[4] + 0x00;
        },
        LEDStateEnum::GreenSolid => {
            cs[4] = cs[4] + 0x00;
        },
        LEDStateEnum::Rainbow => {
            cs[4] = cs[4] + 0x00;
        },
    }
    cs[5] = 0x00;
    cs[6] = 0x00;
    cs[7] = 0x00;
    assert(cs@ =~= zeros(8));
    base_frame(id, cs)
}

/// After a console refresh: the one-off requests to redraw the header and to
/// show the menu have been served.
pub fn console_requests_served(cp_state: &mut CPState)
    ensures
        *final(cp_state) == (CPState {
            console: ConsoleFlags {
                quiet_to_verbose: false,
                print_menu_request: false,
                ..old(cp_state).console
            },
            ..*old(cp_state)
        }),
{
    // Once run, flip it off.
    if cp_state.console.quiet_to_verbose {
        cp_state.console.quiet_to_verbose = false;
    }
    if cp_state.console.print_menu_request {
        cp_state.console.print_menu_request = false;
    }
}

} // verus!
