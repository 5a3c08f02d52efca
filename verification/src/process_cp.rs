//! The charge-state machine, driven by status frames from the charge port.
use vstd::prelude::*;
use crate::types::{
    CPState, ChargeControl, ChargeStateEnum, ChargerTypeEnum, ContactorRequestStateEnum,
    LEDStateEnum, VehicleState,
};

verus! {

/// Identifier of the charge port's status frame.
pub const CP_STATUS_ID: u32 = 0x00F;

/// Every data byte that the charge-state machine reads for this frame is present.
pub open spec fn cp_frame_readable(state: ChargeStateEnum, id: u32, data: Seq<u8>) -> bool {
    id != CP_STATUS_ID || data.len() >= match state {
        ChargeStateEnum::ChargeIdle => 7int,
        ChargeStateEnum::ACBlocked => 5int,
        ChargeStateEnum::WaitForComms => 5int,
        ChargeStateEnum::ContactorWaitRequest => 5int,
        ChargeStateEnum::ContactorRequest => 2int,
        _ => 1int,
    }
}

/// The charge fields after the charge-state machine has seen frame `id` with `data`.
pub open spec fn spec_cp_charge(c: ChargeControl, id: u32, data: Seq<u8>) -> ChargeControl {
    let status = id == CP_STATUS_ID;
    let idle = status && data[0] == 0;
    match c.charge_state {
        ChargeStateEnum::ChargePortError => {
            if idle {
                ChargeControl { charge_state: ChargeStateEnum::ChargeIdle, ..c }
            } else {
                c
            }
        },
        ChargeStateEnum::ChargeIdle => {
            if status && ((data[6] == 0 && data[4] == 0) || data[0] == 0) {
                ChargeControl { charge_state: ChargeStateEnum::ACBlocked, ..c }
            } else {
                c
            }
        },
        ChargeStateEnum::ACBlocked => {
            if status {
                ChargeControl { charge_state: ChargeStateEnum::WaitForComms, ..c }
            } else {
                c
            }
        },
        ChargeStateEnum::WaitForComms => {
            if status {
                ChargeControl { charge_state: ChargeStateEnum::ContactorWaitRequest, ..c }
            } else {
                c
            }
        },
        ChargeStateEnum::ContactorWaitRequest => {
            if status {
                let current = data[1] != 0;
                ChargeControl {
                    contactor_request_state: if current {
                        ContactorRequestStateEnum::ContactorDCRequest
                    } else {
                        c.contactor_request_state
                    },
                    charger_type: if current {
                        ChargerTypeEnum::DC
                    } else {
                        c.charger_type
                    },
                    charger_relay_enabled: false,
                    charge_state: ChargeStateEnum::StopCharge,
                    ..c
                }
            } else {
                c
            }
        },
        ChargeStateEnum::ContactorRequest => {
            if status && data[1] != 0 && c.contactor_request_state
                == ContactorRequestStateEnum::ContactorACEnable {
                ChargeControl {
                    charge_state: ChargeStateEnum::ContactorFixed,
                    charger_relay_enabled: c.charger_relay_enabled || c.auto_start,
                    ..c
                }
            } else if status && data[1] == 0 && c.contactor_request_state
                == ContactorRequestStateEnum::ContactorDCEnable {
                ChargeControl { charge_state: ChargeStateEnum::ContactorFixed, ..c }
            } else {
                c
            }
        },
        ChargeStateEnum::ContactorFixed => {
            if status {
                ChargeControl {
                    charger_relay_enabled: false,
                    charge_state: ChargeStateEnum::StopCharge,
                    ..c
                }
            } else {
                c
            }
        },
        ChargeStateEnum::StopCharge => {
            ChargeControl {
                contactor_request_state: ContactorRequestStateEnum::ContactorNone,
                cbtxva_request: if c.contactor_request_state
                    != ContactorRequestStateEnum::ContactorNone {
                    false
                } else {
                    c.cbtxva_request
                },
                charger_type: ChargerTypeEnum::NoCharger,
                charge_state: if idle {
                    ChargeStateEnum::ChargeIdle
                } else {
                    ChargeStateEnum::ContactorWaitRequest
                },
                ..c
            }
        },
        ChargeStateEnum::TimeOut => {
            if idle {
                ChargeControl { charge_state: ChargeStateEnum::ChargeIdle, ..c }
            } else if status {
                ChargeControl { charge_state: ChargeStateEnum::ContactorWaitRequest, ..c }
            } else {
                c
            }
        },
        ChargeStateEnum::Init => c,
    }
}

/// The LED pattern after the charge-state machine has seen frame `id`: an AC
/// charge that is fixed turns it green-blinking, and a stopped charge turns it
/// white-blue.
pub open spec fn spec_cp_led(s: CPState, id: u32) -> LEDStateEnum {
    let c = s.charge;
    if c.charge_state == ChargeStateEnum::StopCharge {
        LEDStateEnum::WhiteBlue
    } else if c.charge_state == ChargeStateEnum::ContactorFixed && id == CP_STATUS_ID
        && c.charger_type == ChargerTypeEnum::AC {
        LEDStateEnum::GreenBlink
    } else {
        s.vehicle.desired_cp_led_state
    }
}

/// The state after the charge-state machine has seen frame `id` with `data`.
pub open spec fn spec_process_cp(s: CPState, id: u32, data: Seq<u8>) -> CPState {
    CPState {
        charge: spec_cp_charge(s.charge, id, data),
        vehicle: VehicleState { desired_cp_led_state: spec_cp_led(s, id), ..s.vehicle },
        ..s
    }
}

/// Advances the charge-state machine on frame `id` with `data`.
pub fn init(cp_state: &mut CPState, id: u32, data: &[u8])
    requires
        cp_frame_readable(old(cp_state).charge.charge_state, id, data@),
    ensures
        *final(cp_state) == spec_process_cp(*old(cp_state), id, data@),
{
    // Declare some tests which are useful later on in the code.
    let charge_port_error: bool = (id == 0x00F) && (data[0] == 0x00);
    let charge_idle: bool = (id == 0x00F) && data[0] == 0x00;

    // Main state machine for charge state here
    match cp_state.charge.charge_state {
        ChargeStateEnum::ChargePortError => charge_port_error_step(cp_state, id, data, charge_idle),
        ChargeStateEnum::ChargeIdle => charge_idle_step(cp_state, id, data, charge_port_error),
        ChargeStateEnum::ACBlocked => {
            ac_blocked_step(cp_state, id, data, charge_idle, charge_port_error)
        },
        ChargeStateEnum::WaitForComms => {
            wait_for_comms_step(cp_state, id, data, charge_idle, charge_port_error)
        },
        ChargeStateEnum::ContactorWaitRequest => contactor_wait_request_step(cp_state, id, data),
        ChargeStateEnum::ContactorRequest => contactor_request_step(cp_state, id, data),
        ChargeStateEnum::ContactorFixed => contactor_fixed_step(cp_state, id, data),
        ChargeStateEnum::StopCharge => stop_charge_step(cp_state, id, data, charge_idle),
        ChargeStateEnum::TimeOut => {
            time_out_step(cp_state, id, data, charge_idle, charge_port_error)
        },
        ChargeStateEnum::Init => {
            // Waiting for the init sequence; status frames change nothing yet.
        },
    }
}

fn charge_port_error_step(cp_state: &mut CPState, id: u32, data: &[u8], charge_idle: bool)
    requires
        old(cp_state).charge.charge_state == ChargeStateEnum::ChargePortError,
        cp_frame_readable(old(cp_state).charge.charge_state, id, data@),
        charge_idle == (id == CP_STATUS_ID && data@[0] == 0),
    ensures
        *final(cp_state) == spec_process_cp(*old(cp_state), id, data@),
{
    // States allowed - ChargeIdle, idle
    if charge_idle {
        cp_state.charge.charge_state = ChargeStateEnum::ChargeIdle;
    }
}

fn time_out_step(
    cp_state: &mut CPState,
    id: u32,
    data: &[u8],
    charge_idle: bool,
    charge_port_error: bool,
)
    requires
        old(cp_state).charge.charge_state == ChargeStateEnum::TimeOut,
        cp_frame_readable(old(cp_state).charge.charge_state, id, data@),
        charge_idle == (id == CP_STATUS_ID && data@[0] == 0),
        charge_port_error == charge_idle,
    ensures
        *final(cp_state) == spec_process_cp(*old(cp_state), id, data@),
{
    // States allowed - ChargeIdle, Standby?, ChargePortError
    if charge_idle {
        cp_state.charge.charge_state = ChargeStateEnum::ChargeIdle;
    } else if charge_port_error {
        cp_state.charge.charge_state = ChargeStateEnum::ChargePortError;
    } else if id == 0x00F && !(charge_idle && charge_port_error) {
        cp_state.charge.charge_state = ChargeStateEnum::ContactorWaitRequest;
    }
}

fn charge_idle_step(cp_state: &mut CPState, id: u32, data: &[u8], charge_port_error: bool)
    requires
        old(cp_state).charge.charge_state == ChargeStateEnum::ChargeIdle,
        cp_frame_readable(old(cp_state).charge.charge_state, id, data@),
        charge_port_error == (id == CP_STATUS_ID && data@[0] == 0),
    ensures
        *final(cp_state) == spec_process_cp(*old(cp_state), id, data@),
{
    // States allowed - ACBlocked, Standby, Error state if we lose ground.
    if (id == 0x00F) && (data[6] == 0x00) && (data[4] == 0x00) {
        cp_state.charge.charge_state = ChargeStateEnum::ACBlocked;
    } else if (id == 0x00F) && (data[0] == 0x00) {
        cp_state.charge.charge_state = ChargeStateEnum::ACBlocked;
    } else if (id == 0x00F) && (data[4] == 0x00) {
    } else if (id == 0x00F) && (data[6] == 0x00) {
    } else if charge_port_error {
        cp_state.charge.charge_state = ChargeStateEnum::ChargePortError;
    }
}

fn ac_blocked_step(
    cp_state: &mut CPState,
    id: u32,
    data: &[u8],
    charge_idle: bool,
    charge_port_error: bool,
)
    requires
        old(cp_state).charge.charge_state == ChargeStateEnum::ACBlocked,
        cp_frame_readable(old(cp_state).charge.charge_state, id, data@),
        charge_idle == (id == CP_STATUS_ID && data@[0] == 0),
        charge_port_error == charge_idle,
    ensures
        *final(cp_state) == spec_process_cp(*old(cp_state), id, data@),
{
    assert(forall|x: u8| #[trigger] (x & 0x00) == 0u8) by (bit_vector);
    let sw_can: bool = id == 0x00F && data[4] == 0x00;
    let j1772: bool = id == 0x00F && (data[0] & 0x00) == 0x00;
    let eu_ac: bool = id == 0x00F && (data[0] & 0x00) == 0x00;

    // States allowed - wait for comms, idle, error
    if sw_can || j1772 || eu_ac {
        cp_state.charge.charge_state = ChargeStateEnum::WaitForComms;
    } else if charge_idle {
        cp_state.charge.charge_state = ChargeStateEnum::ChargeIdle;
    } else if charge_port_error {
        cp_state.charge.charge_state = ChargeStateEnum::ChargePortError;
    }
}

fn wait_for_comms_step(
    cp_state: &mut CPState,
    id: u32,
    data: &[u8],
    charge_idle: bool,
    charge_port_error: bool,
)
    requires
        old(cp_state).charge.charge_state == ChargeStateEnum::WaitForComms,
        cp_frame_readable(old(cp_state).charge.charge_state, id, data@),
        charge_idle == (id == CP_STATUS_ID && data@[0] == 0),
        charge_port_error == charge_idle,
    ensures
        *final(cp_state) == spec_process_cp(*old(cp_state), id, data@),
{
    assert(forall|x: u8| #[trigger] (x & 0x00) == 0u8) by (bit_vector);
    // Comms here can be either SWCAN, or standard charging.
    if (id == 0x00F) && ((data[4] & 0x00) == 0x00) {
        cp_state.charge.charge_state = ChargeStateEnum::ContactorWaitRequest;
    } else if (id == 0x00F) && data[3] != 0x00 {
        cp_state.charge.charge_state = ChargeStateEnum::ContactorWaitRequest;
    } else if charge_idle {
        cp_state.charge.charge_state = ChargeStateEnum::ChargeIdle;
    } else if charge_port_error {
        cp_state.charge.charge_state = ChargeStateEnum::ChargePortError;
    }
}

fn contactor_wait_request_step(cp_state: &mut CPState, id: u32, data: &[u8])
    requires
        old(cp_state).charge.charge_state == ChargeStateEnum::ContactorWaitRequest,
        cp_frame_readable(old(cp_state).charge.charge_state, id, data@),
    ensures
        *final(cp_state) == spec_process_cp(*old(cp_state), id, data@),
{
    assert(forall|x: u8| #[trigger] (x & 0x00) == 0u8) by (bit_vector);
    // Charge current set, make contactor request
    if (id == 0x00F) && ((data[4] & 0x00) == 0x00) && (data[1] != 0x00) {
        if cp_state.charge.auto_start {
            cp_state.charge.contactor_request_state = ContactorRequestStateEnum::ContactorACRequest;
        }
        cp_state.charge.charger_type = ChargerTypeEnum::AC;
    }
    // Charge current set, make contactor request
    if (id == 0x00F) && ((data[4] & 0x00) == 0x00) && (data[1] != 0x00) {
        cp_state.charge.contactor_request_state = ContactorRequestStateEnum::ContactorDCRequest;
        cp_state.charge.charger_type = ChargerTypeEnum::DC;
    }
    if (id == 0x00F) && ((data[0] & 0x00) == 0x00) {
        // Disable...
        cp_state.charge.charger_relay_enabled = false;
        cp_state.charge.charge_state = ChargeStateEnum::StopCharge;
    }
}

fn contactor_request_step(cp_state: &mut CPState, id: u32, data: &[u8])
    requires
        old(cp_state).charge.charge_state == ChargeStateEnum::ContactorRequest,
        cp_frame_readable(old(cp_state).charge.charge_state, id, data@),
    ensures
        *final(cp_state) == spec_process_cp(*old(cp_state), id, data@),
{
    if (id == 0x00F) && (data[1] != 0x00) && (cp_state.charge.contactor_request_state
        == ContactorRequestStateEnum::ContactorACEnable) {
        cp_state.charge.charge_state = ChargeStateEnum::ContactorFixed;
        if cp_state.charge.auto_start {
            cp_state.charge.charger_relay_enabled = true;
        }
    } else if (id == 0x00F) && (data[1] == 0x00) && (cp_state.charge.contactor_request_state
        == ContactorRequestStateEnum::ContactorDCEnable) {
        cp_state.charge.charge_state = ChargeStateEnum::ContactorFixed;
    }
}

fn contactor_fixed_step(cp_state: &mut CPState, id: u32, data: &[u8])
    requires
        old(cp_state).charge.charge_state == ChargeStateEnum::ContactorFixed,
        cp_frame_readable(old(cp_state).charge.charge_state, id, data@),
    ensures
        *final(cp_state) == spec_process_cp(*old(cp_state), id, data@),
{
    assert(forall|x: u8| #[trigger] (x & 0x00) == 0u8) by (bit_vector);
    // If EVSE Request or Accept, enable the relay.
    let evse_request: bool = (id == 0x00F) && ((data[0] & 0x00) == 0x00);
    let evse_accept: bool = (id == 0x00F) && ((data[0] & 0x00) == 0x00);
    if evse_request || evse_accept {
        if cp_state.charge.charger_type == ChargerTypeEnum::AC {
            cp_state.charge.charger_relay_enabled = true;
            cp_state.vehicle.desired_cp_led_state = LEDStateEnum::GreenBlink;
        }
    }
    if (id == 0x00F) && ((data[0] & 0x00) == 0x00) {
        // Disable...
        cp_state.charge.charger_relay_enabled = false;
        cp_state.charge.charge_state = ChargeStateEnum::StopCharge;
    }
}

fn stop_charge_step(cp_state: &mut CPState, id: u32, data: &[u8], charge_idle: bool)
    requires
        old(cp_state).charge.charge_state == ChargeStateEnum::StopCharge,
        cp_frame_readable(old(cp_state).charge.charge_state, id, data@),
        charge_idle == (id == CP_STATUS_ID && data@[0] == 0),
    ensures
        *final(cp_state) == spec_process_cp(*old(cp_state), id, data@),
{
    // States allowed - ChargeIdle (if cable removed), Standby
    if cp_state.charge.contactor_request_state != ContactorRequestStateEnum::ContactorNone {
        cp_state.charge.contactor_request_state = ContactorRequestStateEnum::ContactorNone;
        cp_state.charge.cbtxva_request = false;
    }
    cp_state.vehicle.desired_cp_led_state = LEDStateEnum::WhiteBlue;
    cp_state.charge.charger_type = ChargerTypeEnum::NoCharger;
    cp_state.charge.charge_state = ChargeStateEnum::ContactorWaitRequest;
    if charge_idle {
        cp_state.charge.charge_state = ChargeStateEnum::ChargeIdle;
    }
}

} // verus!
