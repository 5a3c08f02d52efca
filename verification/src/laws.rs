//! Properties that hold across the controller's operations.
use vstd::prelude::*;
use crate::types::{
    ACTIVITY_CAPACITY, ActivityEvent, CPState, CPVerEnum, ChargeStateEnum, ChargerTypeEnum,
    ContactorRequestStateEnum, LEDStateEnum, RTCUpdate, log_push, spec_set_led,
    spec_set_previous_led,
};
use crate::process_door::{door_is_settled, spec_process_door};
use crate::process_cp::spec_process_cp;
use crate::process_init::spec_process_init;
use crate::can_receive_logic::{from_charge_port, spec_receive_data};
use crate::ten_ms_loop::{cp_timed_out, spec_timeout_log, spec_timeout_state};
use crate::process_serial::{
    RtcField, SerialAction, entry_complete, rtc_input_ensures, spec_entry_temp, spec_normal_input,
};
use crate::process_version::{
    FW_2018_VERSIONS, FW_2019_VERSIONS, FW_2020_VERSIONS, spec_process_version,
};
use crate::ten_ms_loop::spec_ten_ms_state;

verus! {

/// The activity log keeps the most recent entries in order: appending to a log
/// of at most `ACTIVITY_CAPACITY` entries gives the old entries (the oldest one
/// dropped when full) followed by the new one.
pub proof fn log_keeps_most_recent(s: Seq<ActivityEvent>, e: ActivityEvent)
    requires
        s.len() <= ACTIVITY_CAPACITY,
    ensures
        s.len() < ACTIVITY_CAPACITY ==> log_push(s, e) == s.push(e),
        s.len() == ACTIVITY_CAPACITY ==> log_push(s, e) == s.drop_first().push(e),
        log_push(s, e).len() <= ACTIVITY_CAPACITY,
{
    if s.len() == ACTIVITY_CAPACITY {
        assert(log_push(s, e) =~= s.drop_first().push(e));
    }
}

/// An open, closed or idle door stays as it is, whatever frame arrives; other
/// frames than the status frame never move the door.
pub proof fn settled_door_stays(s: CPState, id: u32)
    ensures
        door_is_settled(s.vehicle.cp_door_state) ==> spec_process_door(s, id).vehicle.cp_door_state
            == s.vehicle.cp_door_state,
        id != 0x00F ==> spec_process_door(s, id) == s,
{
}

/// The charge-state machine changes only the charge fields and the LED: the
/// link, the door, the console flags and the log are left as they were.
pub proof fn charge_machine_is_confined(s: CPState, id: u32, data: Seq<u8>)
    ensures
        spec_process_cp(s, id, data).link == s.link,
        spec_process_cp(s, id, data).console == s.console,
        spec_process_cp(s, id, data).activity_list == s.activity_list,
        spec_process_cp(s, id, data).vehicle.cp_door_state == s.vehicle.cp_door_state,
        spec_process_cp(s, id, data).vehicle.vehicle_locked == s.vehicle.vehicle_locked,
{
}

/// A timeout is logged once: when the link has already timed out, a later
/// timeout check adds nothing to the log.
pub proof fn timeout_logged_once(s: CPState, after: CPState, e1: u32, e2: u32)
    requires
        cp_timed_out(s, e1),
        after == (CPState { activity_list: after.activity_list, ..spec_timeout_state(s, e1) }),
    ensures
        spec_timeout_log(after, e2) == after.activity_list@,
{
}

/// A frame from the charge port restarts the timeout clock: right after it the
/// link is not timed out, and a timeout check at the same time does nothing.
pub proof fn frame_restarts_timeout(s: CPState, id: u32, data: Seq<u8>, elapsed: u32)
    requires
        from_charge_port(id),
    ensures
        !spec_receive_data(s, id, data, elapsed).link.cp_comm_timeout,
        spec_receive_data(s, id, data, elapsed).link.previous_cptod_ts == elapsed,
        !cp_timed_out(spec_receive_data(s, id, data, elapsed), elapsed),
{
}

/// After a timeout the next status frame from the charge port restarts the
/// handshake: the link goes to its first phase and the charge state to `Init`.
pub proof fn status_frame_after_timeout_restarts_handshake(
    s: CPState,
    after: CPState,
    e1: u32,
    data: Seq<u8>,
    e2: u32,
)
    requires
        cp_timed_out(s, e1),
        after == (CPState { activity_list: after.activity_list, ..spec_timeout_state(s, e1) }),
    ensures
        spec_receive_data(after, 0x00F, data, e2).link.init_sequence == 1,
        spec_receive_data(after, 0x00F, data, e2).link.init_ts == e2,
        spec_receive_data(after, 0x00F, data, e2).charge.charge_state == ChargeStateEnum::Init,
{
}

/// The handshake only moves forward: from phase 0, 1 or 2 a step lands in
/// phase 1 or 2, and a charge port that counts as initialised stays so.
pub proof fn handshake_moves_forward(s: CPState, elapsed: u32)
    requires
        s.link.init_sequence <= 2,
    ensures
        1 <= spec_process_init(s, elapsed).link.init_sequence <= 2,
        s.link.init_sequence >= 1 ==> spec_process_init(s, elapsed).link.init_sequence
            >= s.link.init_sequence,
        s.link.cp_init ==> spec_process_init(s, elapsed).link.cp_init,
        !s.link.cp_init && spec_process_init(s, elapsed).link.cp_init ==> s.link.init_sequence == 2
            && elapsed - s.link.init_ts >= 5000,
{
}

/// Going back to the previous LED pattern undoes a change of pattern.
pub proof fn previous_led_undoes_change(s: CPState, led: LEDStateEnum)
    requires
        s.vehicle.desired_cp_led_state != led,
    ensures
        spec_set_previous_led(spec_set_led(s, led)).vehicle.desired_cp_led_state
            == s.vehicle.desired_cp_led_state,
{
}

/// The commands come in pairs that undo each other: 'R' ends the rainbow that
/// 'r' started (restoring the pattern before it), 'L' unlocks what 'l' locked,
/// 'A' turns off the auto-start that 'a' turned on, 'V' turns off the verbose
/// mode that 'v' turned on.
pub proof fn command_pairs_undo(s: CPState)
    ensures
        s.vehicle.desired_cp_led_state != LEDStateEnum::Rainbow ==> spec_normal_input(
            spec_normal_input(s, 0x72),
            0x52,
        ).vehicle.desired_cp_led_state == s.vehicle.desired_cp_led_state,
        !spec_normal_input(spec_normal_input(s, 0x6C), 0x4C).vehicle.vehicle_locked,
        spec_normal_input(s, 0x6C).vehicle.vehicle_locked,
        spec_normal_input(s, 0x61).charge.auto_start,
        !spec_normal_input(spec_normal_input(s, 0x61), 0x41).charge.auto_start,
        spec_normal_input(s, 0x76).console.verbose_stats,
        !spec_normal_input(spec_normal_input(s, 0x76), 0x56).console.verbose_stats,
{
}

/// A clock entry never grows beyond its length, and it is complete only at
/// exactly that length.
pub proof fn entry_stays_within_length(temp: Seq<char>, command: u8, max_len: u8)
    requires
        temp.len() <= max_len,
    ensures
        spec_entry_temp(temp, command, max_len).len() <= max_len,
        entry_complete(temp, command, max_len) ==> spec_entry_temp(temp, command, max_len).len()
            == max_len,
{
}

/// Waiting for a contactor request, a status frame stops the charge and opens
/// the relay; it requests the DC contactor (for a DC charger) only when the
/// charge port offers current (byte 1 non-zero). Without current the contactor
/// request and the charger type stay as they were.
pub proof fn contactor_wait_needs_current(s: CPState, data: Seq<u8>)
    requires
        s.charge.charge_state == ChargeStateEnum::ContactorWaitRequest,
        data.len() >= 5,
    ensures
        spec_process_cp(s, 0x00F, data).charge.charge_state == ChargeStateEnum::StopCharge,
        !spec_process_cp(s, 0x00F, data).charge.charger_relay_enabled,
        data[1] == 0 ==> spec_process_cp(s, 0x00F, data).charge.contactor_request_state
            == s.charge.contactor_request_state,
        data[1] == 0 ==> spec_process_cp(s, 0x00F, data).charge.charger_type
            == s.charge.charger_type,
        data[1] != 0 ==> spec_process_cp(s, 0x00F, data).charge.contactor_request_state
            == ContactorRequestStateEnum::ContactorDCRequest,
        data[1] != 0 ==> spec_process_cp(s, 0x00F, data).charge.charger_type
            == ChargerTypeEnum::DC,
{
}

/// A hello frame from the charge port always restarts the handshake, whatever
/// the link's state: the handshake is in its first phase, begun at the time of
/// the frame, and the charge state is `Init`.
pub proof fn hello_frame_restarts_handshake(s: CPState, data: Seq<u8>, elapsed: u32)
    ensures
        spec_receive_data(s, 0x00E, data, elapsed).link.init_sequence == 1,
        spec_receive_data(s, 0x00E, data, elapsed).link.init_ts == elapsed,
        spec_receive_data(s, 0x00E, data, elapsed).charge.charge_state == ChargeStateEnum::Init,
        !spec_receive_data(s, 0x00E, data, elapsed).link.cp_comm_timeout,
{
}

/// Outside an entry, the keys '1' to '6' start the entry of year, month, day,
/// hour, minute and second respectively: the console is asked for exactly
/// that field's prompt, only that field's flag is set, and nothing is typed yet.
pub proof fn clock_keys_select_their_field(
    old_r: RTCUpdate,
    new_r: RTCUpdate,
    command: u8,
    actions: Seq<SerialAction>,
)
    requires
        !old_r.y_uip && !old_r.m_uip && !old_r.d_uip && !old_r.h_uip && !old_r.min_uip
            && !old_r.s_uip,
        rtc_input_ensures(old_r, new_r, command, actions),
    ensures
        new_r.temp@ == old_r.temp@,
        command == 0x31 ==> actions == seq![SerialAction::Prompt { field: RtcField::Year }]
            && new_r.y_uip && !new_r.m_uip && !new_r.d_uip && !new_r.h_uip && !new_r.min_uip
            && !new_r.s_uip,
        command == 0x32 ==> actions == seq![SerialAction::Prompt { field: RtcField::Month }]
            && !new_r.y_uip && new_r.m_uip && !new_r.d_uip && !new_r.h_uip && !new_r.min_uip
            && !new_r.s_uip,
        command == 0x33 ==> actions == seq![SerialAction::Prompt { field: RtcField::Day }]
            && !new_r.y_uip && !new_r.m_uip && new_r.d_uip && !new_r.h_uip && !new_r.min_uip
            && !new_r.s_uip,
        command == 0x34 ==> actions == seq![SerialAction::Prompt { field: RtcField::Hour }]
            && !new_r.y_uip && !new_r.m_uip && !new_r.d_uip && new_r.h_uip && !new_r.min_uip
            && !new_r.s_uip,
        command == 0x35 ==> actions == seq![SerialAction::Prompt { field: RtcField::Minute }]
            && !new_r.y_uip && !new_r.m_uip && !new_r.d_uip && !new_r.h_uip && new_r.min_uip
            && !new_r.s_uip,
        command == 0x36 ==> actions == seq![SerialAction::Prompt { field: RtcField::Second }]
            && !new_r.y_uip && !new_r.m_uip && !new_r.d_uip && !new_r.h_uip && !new_r.min_uip
            && new_r.s_uip,
        command == 0x0D ==> actions == seq![SerialAction::LeaveClockMode],
{
}

/// A hello frame that carries an application hash (byte 0 is zero) records the
/// hash read little-endian from bytes 4..8, and a hash listed for a firmware
/// generation identifies that generation.
pub proof fn hello_frame_identifies_listed_firmware(s: CPState, data: Seq<u8>)
    requires
        data.len() >= 8,
        data[0] == 0,
    ensures
        spec_process_version(s, 0x00E, data).link.app_hash == data[4] + data[5] * 256 + data[6]
            * 65536 + data[7] * 16777216,
        (exists|i: int|
            0 <= i < 3 && #[trigger] FW_2020_VERSIONS@[i] == spec_process_version(
                s,
                0x00E,
                data,
            ).link.app_hash) ==> spec_process_version(s, 0x00E, data).link.fw_ver
            == CPVerEnum::Fw2020,
        FW_2019_VERSIONS@[0] == spec_process_version(s, 0x00E, data).link.app_hash
            ==> spec_process_version(s, 0x00E, data).link.fw_ver == CPVerEnum::Fw2019,
        FW_2018_VERSIONS@[0] == spec_process_version(s, 0x00E, data).link.app_hash
            ==> spec_process_version(s, 0x00E, data).link.fw_ver == CPVerEnum::Fw2018,
{
    let w = data[4] + data[5] * 256 + data[6] * 65536 + data[7] * 16777216;
    assert(0 <= w <= 0xFFFF_FFFF);
    assert(FW_2020_VERSIONS@ =~= seq![0x5860BCDFu32, 0xBB6B3E7Eu32, 0x4B773D16u32]);
    assert(FW_2019_VERSIONS@ =~= seq![0x27CE851Au32]);
    assert(FW_2018_VERSIONS@ =~= seq![0xAC5A15C4u32]);
}

/// An AC or DC contactor request that the charger has acknowledged becomes an
/// enable in the next 10 ms step, and the charge moves on to `ContactorRequest`.
pub proof fn acknowledged_request_is_enabled(s: CPState, elapsed: u32)
    requires
        s.charge.cbtxva_request,
        s.charge.contactor_request_state == ContactorRequestStateEnum::ContactorACRequest
            || s.charge.contactor_request_state == ContactorRequestStateEnum::ContactorDCRequest,
    ensures
        spec_ten_ms_state(s, elapsed).charge.charge_state == ChargeStateEnum::ContactorRequest,
        s.charge.contactor_request_state == ContactorRequestStateEnum::ContactorACRequest
            ==> spec_ten_ms_state(s, elapsed).charge.contactor_request_state
            == ContactorRequestStateEnum::ContactorACEnable,
        s.charge.contactor_request_state == ContactorRequestStateEnum::ContactorDCRequest
            ==> spec_ten_ms_state(s, elapsed).charge.contactor_request_state
            == ContactorRequestStateEnum::ContactorDCEnable,
{
}

} // verus!
