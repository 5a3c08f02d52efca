//! The start-up handshake with the charge port.
use vstd::prelude::*;
use crate::types::{CPState, ChargeControl, ChargeStateEnum, CpLink};

verus! {

/// Time (ms) spent in the first phase of the handshake.
pub const INIT_PHASE1_MS: u32 = 250;

/// Time (ms) spent in the second phase before the charge port counts as initialised.
pub const INIT_PHASE2_MS: u32 = 5000;

/// The handshake step can take the time since `init_ts` without going below zero.
pub open spec fn init_step_defined(s: CPState, elapsed: u32) -> bool {
    (s.link.init_sequence == 1 || s.link.init_sequence == 2) ==> s.link.init_ts <= elapsed
}

/// The state after one handshake step at time `elapsed`.
pub open spec fn spec_process_init(s: CPState, elapsed: u32) -> CPState {
    let l = s.link;
    if l.init_sequence == 0 {
        CPState {
            link: CpLink {
                init_sequence: 1,
                init_ts: elapsed,
                cp_comm_timeout: false,
                previous_cptod_ts: elapsed,
                ..l
            },
            charge: ChargeControl { charge_state: ChargeStateEnum::Init, ..s.charge },
            ..s
        }
    } else if l.init_sequence == 1 && elapsed - l.init_ts >= INIT_PHASE1_MS {
        CPState { link: CpLink { init_ts: elapsed, init_sequence: 2, ..l }, ..s }
    } else if l.init_sequence == 2 && elapsed - l.init_ts >= INIT_PHASE2_MS && !l.cp_init {
        CPState { link: CpLink { init_ts: elapsed, cp_init: true, ..l }, ..s }
    } else {
        s
    }
}

/// Whether a handshake step is defined at `elapsed` (the time since the phase
/// began is not negative).
pub fn step_is_defined(cp_state: &CPState, elapsed: u32) -> (r: bool)
    ensures
        r == init_step_defined(*cp_state, elapsed),
{
    !(cp_state.link.init_sequence == 1 || cp_state.link.init_sequence == 2)
        || cp_state.link.init_ts <= elapsed
}

/// One step of the handshake at time `elapsed`.
pub fn init(cp_state: &mut CPState, elapsed: u32)
    requires
        init_step_defined(*old(cp_state), elapsed),
    ensures
        *final(cp_state) == spec_process_init(*old(cp_state), elapsed),
{
    let ph1_ts: u32 = INIT_PHASE1_MS;
    let ph2_ts: u32 = INIT_PHASE2_MS;

    match cp_state.link.init_sequence {
        0 => {
            cp_state.link.init_sequence = 1;
            cp_state.link.init_ts = elapsed;
            cp_state.link.cp_comm_timeout = false;
            cp_state.link.previous_cptod_ts = elapsed;
            cp_state.charge.charge_state = ChargeStateEnum::Init;
        },
        1 => {
            if (elapsed - cp_state.link.init_ts) >= ph1_ts {
                cp_state.link.init_ts = elapsed;
                cp_state.link.init_sequence = 2;
            }
        },
        2 => {
            if (elapsed - cp_state.link.init_ts) >= ph2_ts && cp_state.link.cp_init == false {
                cp_state.link.init_ts = elapsed;
                cp_state.link.init_sequence = 2;
                cp_state.link.cp_init = true;
            }
        },
        3 => {
            // Haven't seen an init frame yet.
        },
        _ => {
            // Shouldn't be here.
        },
    }
}

} // verus!
