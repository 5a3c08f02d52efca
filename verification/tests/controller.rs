use cpcontrol::can_receive_logic;
use cpcontrol::fifty_ms_loop;
use cpcontrol::five_hundred_ms_loop;
use cpcontrol::hundred_ms_loop;
use cpcontrol::process_cp;
use cpcontrol::process_door;
use cpcontrol::process_init;
use cpcontrol::process_version;
use cpcontrol::ten_ms_loop;
use cpcontrol::thousand_ms_loop;
use cpcontrol::two_fifty_ms_loop;
use cpcontrol::types::{
    ActivityEvent, ActivityLog, CPState, CPVerEnum, CanError, CanFrame, ChargeStateEnum,
    ChargerTypeEnum, CommandNote, ContactorRequestStateEnum, DataFrame, DoorStateEnum, FrameTag,
    LEDStateEnum,
};
use cpcontrol::utils::{checksum_calc, handle_can_error, send_empty_message};

fn data_frame(id: u32, data: &[u8]) -> CanFrame {
    CanFrame::DataFrame(DataFrame { id, data: data.to_vec() })
}

fn events(s: &CPState) -> Vec<ActivityEvent> {
    s.activity_list.events().to_vec()
}

#[test]
fn checksum_is_masked_to_zero() {
    assert_eq!(checksum_calc(&[1, 2, 3, 4, 5, 6, 7, 0], 0x123, 8), 0);
    assert_eq!(checksum_calc(&[0xFF; 8], 0, 8), 0);
    assert_eq!(checksum_calc(&[], 7, 1), 0);
}

#[test]
fn empty_message_is_eight_zero_bytes() {
    let f = send_empty_message(0x2A1, 8);
    assert_eq!(f.id, 0x2A1);
    assert_eq!(f.data, vec![0u8; 8]);
}

#[test]
fn activity_log_keeps_four_most_recent() {
    let mut log = ActivityLog::new();
    for t in 0..6u32 {
        log.push_back(ActivityEvent::Timeout { elapsed: t });
    }
    assert_eq!(log.len(), 4);
    let kept: Vec<u32> = log
        .events()
        .iter()
        .map(|e| match e {
            ActivityEvent::Timeout { elapsed } => *elapsed,
            _ => panic!("unexpected entry"),
        })
        .collect();
    assert_eq!(kept, vec![2, 3, 4, 5]);
}

#[test]
fn send_errors_are_logged_with_their_tag() {
    let mut s = CPState::new();
    let errors = [
        CanError::BufferExhausted,
        CanError::ConfigurationFailed,
        CanError::InvalidFrame,
        CanError::Timeout,
    ];
    for (i, e) in errors.iter().enumerate() {
        handle_can_error(&mut s, *e, FrameTag { period_ms: 50, index: 1 }, 100 + i as u32);
    }
    let ev = events(&s);
    assert_eq!(ev.len(), 4);
    assert_eq!(
        ev[0],
        ActivityEvent::SendError {
            elapsed: 100,
            error: CanError::BufferExhausted,
            tag: FrameTag { period_ms: 50, index: 1 }
        }
    );
    assert_eq!(
        ev[3],
        ActivityEvent::SendError {
            elapsed: 103,
            error: CanError::Timeout,
            tag: FrameTag { period_ms: 50, index: 1 }
        }
    );
}

#[test]
fn led_change_can_be_undone() {
    let mut s = CPState::new();
    s.vehicle.desired_cp_led_state = LEDStateEnum::GreenSolid;
    s.set_led(LEDStateEnum::Rainbow);
    assert_eq!(s.vehicle.desired_cp_led_state, LEDStateEnum::Rainbow);
    assert_eq!(s.vehicle.previous_cp_led_state, LEDStateEnum::GreenSolid);
    s.set_led(LEDStateEnum::Rainbow);
    assert_eq!(s.vehicle.previous_cp_led_state, LEDStateEnum::GreenSolid);
    s.set_previous_led();
    assert_eq!(s.vehicle.desired_cp_led_state, LEDStateEnum::GreenSolid);
}

#[test]
fn charge_machine_walks_to_contactor_wait() {
    let mut s = CPState::new();
    s.charge.charge_state = ChargeStateEnum::ChargePortError;
    process_cp::init(&mut s, 0x00F, &[0, 1, 1, 1, 1, 1, 1, 1]);
    assert_eq!(s.charge.charge_state, ChargeStateEnum::ChargeIdle);
    process_cp::init(&mut s, 0x00F, &[1, 1, 1, 1, 0, 1, 0, 1]);
    assert_eq!(s.charge.charge_state, ChargeStateEnum::ACBlocked);
    process_cp::init(&mut s, 0x00F, &[1, 1, 1, 1, 1, 1, 1, 1]);
    assert_eq!(s.charge.charge_state, ChargeStateEnum::WaitForComms);
    process_cp::init(&mut s, 0x00F, &[1, 1, 1, 1, 1]);
    assert_eq!(s.charge.charge_state, ChargeStateEnum::ContactorWaitRequest);
}

#[test]
fn charge_idle_stays_without_zero_bytes() {
    let mut s = CPState::new();
    s.charge.charge_state = ChargeStateEnum::ChargeIdle;
    process_cp::init(&mut s, 0x00F, &[1, 1, 1, 1, 0, 1, 1]);
    assert_eq!(s.charge.charge_state, ChargeStateEnum::ChargeIdle);
    process_cp::init(&mut s, 0x00E, &[0]);
    assert_eq!(s.charge.charge_state, ChargeStateEnum::ChargeIdle);
}

#[test]
fn contactor_wait_with_current_requests_dc_and_stops() {
    let mut s = CPState::new();
    s.charge.charge_state = ChargeStateEnum::ContactorWaitRequest;
    s.charge.auto_start = true;
    s.charge.charger_relay_enabled = true;
    process_cp::init(&mut s, 0x00F, &[0, 5, 0, 0, 0]);
    assert_eq!(
        s.charge.contactor_request_state,
        ContactorRequestStateEnum::ContactorDCRequest
    );
    assert_eq!(s.charge.charger_type, ChargerTypeEnum::DC);
    assert!(!s.charge.charger_relay_enabled);
    assert_eq!(s.charge.charge_state, ChargeStateEnum::StopCharge);
}

#[test]
fn contactor_request_becomes_fixed() {
    let mut s = CPState::new();
    s.charge.charge_state = ChargeStateEnum::ContactorRequest;
    s.charge.contactor_request_state = ContactorRequestStateEnum::ContactorACEnable;
    s.charge.auto_start = true;
    process_cp::init(&mut s, 0x00F, &[0, 3]);
    assert_eq!(s.charge.charge_state, ChargeStateEnum::ContactorFixed);
    assert!(s.charge.charger_relay_enabled);

    let mut d = CPState::new();
    d.charge.charge_state = ChargeStateEnum::ContactorRequest;
    d.charge.contactor_request_state = ContactorRequestStateEnum::ContactorDCEnable;
    process_cp::init(&mut d, 0x00F, &[0, 3]);
    assert_eq!(d.charge.charge_state, ChargeStateEnum::ContactorRequest);
    process_cp::init(&mut d, 0x00F, &[0, 0]);
    assert_eq!(d.charge.charge_state, ChargeStateEnum::ContactorFixed);
}

#[test]
fn fixed_ac_charge_blinks_green_then_stops() {
    let mut s = CPState::new();
    s.charge.charge_state = ChargeStateEnum::ContactorFixed;
    s.charge.charger_type = ChargerTypeEnum::AC;
    process_cp::init(&mut s, 0x00F, &[9]);
    assert_eq!(s.vehicle.desired_cp_led_state, LEDStateEnum::GreenBlink);
    assert!(!s.charge.charger_relay_enabled);
    assert_eq!(s.charge.charge_state, ChargeStateEnum::StopCharge);
}

#[test]
fn stop_charge_resets_contactor() {
    let mut s = CPState::new();
    s.charge.charge_state = ChargeStateEnum::StopCharge;
    s.charge.contactor_request_state = ContactorRequestStateEnum::ContactorACEnable;
    s.charge.cbtxva_request = true;
    s.charge.charger_type = ChargerTypeEnum::AC;
    s.vehicle.desired_cp_led_state = LEDStateEnum::Rainbow;
    process_cp::init(&mut s, 0x123, &[]);
    assert_eq!(
        s.charge.contactor_request_state,
        ContactorRequestStateEnum::ContactorNone
    );
    assert!(!s.charge.cbtxva_request);
    assert_eq!(s.charge.charger_type, ChargerTypeEnum::NoCharger);
    assert_eq!(s.vehicle.desired_cp_led_state, LEDStateEnum::WhiteBlue);
    assert_eq!(s.charge.charge_state, ChargeStateEnum::ContactorWaitRequest);

    s.charge.charge_state = ChargeStateEnum::StopCharge;
    process_cp::init(&mut s, 0x00F, &[0]);
    assert_eq!(s.charge.charge_state, ChargeStateEnum::ChargeIdle);
}

#[test]
fn timed_out_charge_state_resumes() {
    let mut s = CPState::new();
    s.charge.charge_state = ChargeStateEnum::TimeOut;
    process_cp::init(&mut s, 0x00F, &[4]);
    assert_eq!(s.charge.charge_state, ChargeStateEnum::ContactorWaitRequest);
    s.charge.charge_state = ChargeStateEnum::TimeOut;
    process_cp::init(&mut s, 0x00F, &[0]);
    assert_eq!(s.charge.charge_state, ChargeStateEnum::ChargeIdle);
}

#[test]
fn door_steps_on_status_frames() {
    let mut s = CPState::new();
    s.vehicle.cp_door_state = DoorStateEnum::DoorOpenRequest;
    process_door::init(&mut s, 0x00F, &[0, 0]);
    assert_eq!(s.vehicle.cp_door_state, DoorStateEnum::DoorOpening);
    process_door::init(&mut s, 0x00E, &[0, 0]);
    assert_eq!(s.vehicle.cp_door_state, DoorStateEnum::DoorOpening);
    process_door::init(&mut s, 0x00F, &[0, 0]);
    assert_eq!(s.vehicle.cp_door_state, DoorStateEnum::DoorOpen);
    process_door::init(&mut s, 0x00F, &[]);
    assert_eq!(s.vehicle.cp_door_state, DoorStateEnum::DoorOpen);
    s.vehicle.cp_door_state = DoorStateEnum::DoorCloseRequest;
    process_door::init(&mut s, 0x00F, &[0, 0]);
    assert_eq!(s.vehicle.cp_door_state, DoorStateEnum::DoorClosing);
    process_door::init(&mut s, 0x00F, &[0, 0]);
    assert_eq!(s.vehicle.cp_door_state, DoorStateEnum::DoorClosed);
}

#[test]
fn handshake_phases() {
    let mut s = CPState::new();
    s.link.cp_comm_timeout = true;
    process_init::init(&mut s, 1000);
    assert_eq!(s.link.init_sequence, 1);
    assert_eq!(s.link.init_ts, 1000);
    assert_eq!(s.link.previous_cptod_ts, 1000);
    assert!(!s.link.cp_comm_timeout);
    assert_eq!(s.charge.charge_state, ChargeStateEnum::Init);
    process_init::init(&mut s, 1249);
    assert_eq!(s.link.init_sequence, 1);
    process_init::init(&mut s, 1250);
    assert_eq!(s.link.init_sequence, 2);
    assert_eq!(s.link.init_ts, 1250);
    process_init::init(&mut s, 6249);
    assert!(!s.link.cp_init);
    process_init::init(&mut s, 6250);
    assert!(s.link.cp_init);
    assert_eq!(s.link.init_sequence, 2);
    assert_eq!(s.link.init_ts, 6250);
    s.link.init_sequence = 3;
    process_init::init(&mut s, 9000);
    assert_eq!(s.link.init_sequence, 3);
}

#[test]
fn hello_frame_identifies_firmware() {
    let mut s = CPState::new();
    process_version::init(&mut s, 0x00E, &[0, 0, 0, 0, 0xDF, 0xBC, 0x60, 0x58]);
    assert_eq!(s.link.app_hash, 0x5860BCDF);
    assert_eq!(s.link.fw_ver, CPVerEnum::Fw2020);
    process_version::init(&mut s, 0x00E, &[0, 0, 0, 0, 0x1A, 0x85, 0xCE, 0x27]);
    assert_eq!(s.link.fw_ver, CPVerEnum::Fw2019);
    process_version::init(&mut s, 0x00E, &[0, 0, 0, 0, 1, 2, 3, 4]);
    assert_eq!(s.link.app_hash, 0x04030201);
    assert_eq!(s.link.fw_ver, CPVerEnum::Fw2019);
    process_version::init(&mut s, 0x00E, &[1]);
    assert_eq!(s.link.app_hash, 0x04030201);
    s.link.app_hash = 0xAC5A15C4;
    process_version::init(&mut s, 0x00E, &[7]);
    assert_eq!(s.link.fw_ver, CPVerEnum::Fw2018);
}

#[test]
fn received_frame_ends_timeout() {
    let mut s = CPState::new();
    s.link.cp_comm_timeout = true;
    s.link.previous_cptod_ts = 100;
    s.link.init_sequence = 3;
    s.charge.charge_state = ChargeStateEnum::TimeOut;
    can_receive_logic::init(&data_frame(0x00F, &[4, 0, 0, 0, 0, 0, 0, 0]), 4000, &mut s);
    assert_eq!(
        events(&s),
        vec![ActivityEvent::TimeoutRecovery { elapsed: 4000, after: 3900 }]
    );
    assert!(!s.link.cp_comm_timeout);
    assert_eq!(s.link.previous_cptod_ts, 4000);
    assert_eq!(s.link.init_sequence, 1);
    assert_eq!(s.charge.charge_state, ChargeStateEnum::Init);
    can_receive_logic::init(&data_frame(0x00F, &[4, 0, 0, 0, 0, 0, 0, 0]), 4010, &mut s);
    assert_eq!(events(&s).len(), 1);
}

#[test]
fn remote_and_foreign_frames() {
    let mut s = CPState::new();
    s.link.cp_comm_timeout = true;
    can_receive_logic::init(&CanFrame::RemoteFrame(0x00F), 50, &mut s);
    assert!(s.link.cp_comm_timeout);
    can_receive_logic::init(&data_frame(0x200, &[]), 50, &mut s);
    assert!(s.link.cp_comm_timeout);
    assert!(events(&s).is_empty());
}

#[test]
fn hello_frame_restarts_handshake_and_reads_version() {
    let mut s = CPState::new();
    s.link.init_sequence = 2;
    s.link.init_ts = 10;
    can_receive_logic::init(
        &data_frame(0x00E, &[0, 0, 0, 0, 0x16, 0x3D, 0x77, 0x4B]),
        20,
        &mut s,
    );
    assert_eq!(s.link.init_sequence, 1);
    assert_eq!(s.link.init_ts, 20);
    assert_eq!(s.link.fw_ver, CPVerEnum::Fw2020);
}

#[test]
fn fifty_ms_frames_carry_the_counter() {
    let mut counter: u8 = 3;
    let mut s = CPState::new();
    let frames = fifty_ms_loop::init(&mut counter, &mut s);
    assert_eq!(counter, 4);
    assert_eq!(frames.len(), 2);
    assert_eq!(frames[0].frame.data, vec![0, 0, 0, 0, 0, 0, 0x40, 0]);
    assert_eq!(frames[0].tag, Some(FrameTag { period_ms: 50, index: 0 }));
    assert_eq!(frames[1].frame.data, vec![0, 0, 0, 0, 0, 0, 0x30, 0]);
    assert_eq!(frames[1].tag, Some(FrameTag { period_ms: 50, index: 1 }));
    let mut top: u8 = 255;
    let frames = fifty_ms_loop::init(&mut top, &mut s);
    assert_eq!(top, 0);
    assert_eq!(frames[0].frame.data[6], 0x00);
    assert_eq!(frames[1].frame.data[6], 0xF0);
}

#[test]
fn p2_and_u7_nibbles() {
    let mut s = CPState::new();
    assert_eq!(fifty_ms_loop::p2(0, &mut s).data[6], 0x10);
    assert_eq!(fifty_ms_loop::p2(15, &mut s).data[6], 0x00);
    assert_eq!(fifty_ms_loop::u7(7).data[6], 0x70);
    assert_eq!(fifty_ms_loop::u7(31).data[6], 0xF0);
    assert_eq!(fifty_ms_loop::u7(7).id, 0);
}

#[test]
fn hundred_ms_frames() {
    let mut counter: u8 = 0x13;
    let mut s = CPState::new();
    s.charge.evse_request = true;
    let frames = hundred_ms_loop::init(&mut counter, &mut s, true);
    assert_eq!(counter, 0x14);
    assert!(s.link.cp_init);
    assert_eq!(s.vehicle.desired_cp_led_state, LEDStateEnum::GreenBlink);
    let lens: Vec<usize> = frames.iter().map(|t| t.frame.data.len()).collect();
    assert_eq!(lens, vec![8, 1, 8, 1, 8, 2, 8, 8, 2, 6, 8]);
    assert_eq!(frames[7].frame.data, vec![0, 0, 0, 0, 0, 0, 0x30, 0]);
    assert_eq!(frames[8].frame.data, vec![6, 0]);
    assert_eq!(frames[10].tag, Some(FrameTag { period_ms: 100, index: 10 }));
    let frames = hundred_ms_loop::init(&mut counter, &mut s, false);
    assert!(!s.link.cp_init);
    assert_eq!(frames[8].frame.data, vec![8, 0]);
}

#[test]
fn counter_frame_doubles_low_nibble() {
    assert_eq!(hundred_ms_loop::counter(0xFF).data, vec![30, 0]);
    assert_eq!(hundred_ms_loop::vvvsv(0xFF).data[6], 0xF0);
    assert_eq!(hundred_ms_loop::vvvv(3).data, vec![0u8; 8]);
}

#[test]
fn five_hundred_ms_door_response() {
    let mut s = CPState::new();
    s.link.fw_ver = CPVerEnum::Fw2020;
    s.vehicle.cp_door_state = DoorStateEnum::DoorClosing;
    let (next, frames) = five_hundred_ms_loop::init(255, &mut s);
    assert_eq!(next, 0);
    assert_eq!(frames.len(), 4);
    assert_eq!(frames[1].tag, None);
    assert_eq!(frames[1].frame.data, vec![0u8; 8]);
    assert_eq!(frames[2].frame.data, vec![0u8; 5]);
    s.link.fw_ver = CPVerEnum::Fw2018;
    s.vehicle.cp_door_state = DoorStateEnum::DoorOpen;
    let (next, frames) = five_hundred_ms_loop::init(9, &mut s);
    assert_eq!(next, 10);
    assert_eq!(frames.len(), 3);
    assert_eq!(frames[1].frame.data, vec![0u8; 4]);
    assert_eq!(frames[2].tag, Some(FrameTag { period_ms: 500, index: 2 }));
}

#[test]
fn vin_is_spread_over_three_frames() {
    let vin = b"5Y123456789012345";
    let f0 = two_fifty_ms_loop::vin405(0);
    assert_eq!(f0.data, vec![0, 0, 0, 0, 0, vin[0], vin[1], vin[2]]);
    let f1 = two_fifty_ms_loop::vin405(4);
    assert_eq!(f1.data[1..].to_vec(), vin[3..10].to_vec());
    let f2 = two_fifty_ms_loop::vin405(5);
    assert_eq!(f2.data[1..].to_vec(), vin[10..17].to_vec());
    let mut c: u8 = 255;
    let frames = two_fifty_ms_loop::init(&mut c);
    assert_eq!(c, 0);
    assert_eq!(frames[0].frame.data, vec![0, 0, 0, 0, 0, 0x35, 0x59, 0x31]);
}

#[test]
fn rolling_value_wraps_to_0x60() {
    let mut s = CPState::new();
    s.vehicle.tcgz = 254;
    let (next, frames) = thousand_ms_loop::init(7, &mut s);
    assert_eq!(next, 8);
    assert_eq!(frames[5].frame.data, vec![254, 0, 0, 0, 0, 0, 0, 0]);
    assert_eq!(s.vehicle.tcgz, 255);
    let (_, frames) = thousand_ms_loop::init(255, &mut s);
    assert_eq!(frames[5].frame.data[0], 255);
    assert_eq!(s.vehicle.tcgz, 0x60);
}

#[test]
fn ten_ms_acknowledges_ac_contactor() {
    let mut s = CPState::new();
    s.link.init_sequence = 3;
    s.charge.contactor_request_state = ContactorRequestStateEnum::ContactorACRequest;
    let (next, frames) = ten_ms_loop::init(&mut s, 10, 65535);
    assert_eq!(next, 0);
    assert_eq!(frames.len(), 6);
    assert!(s.charge.cbtxva_request);
    assert_eq!(s.vehicle.desired_cp_led_state, LEDStateEnum::BlueBlink);
    assert_eq!(
        s.charge.contactor_request_state,
        ContactorRequestStateEnum::ContactorACRequest
    );
    let _ = ten_ms_loop::init(&mut s, 20, 0);
    assert_eq!(
        s.charge.contactor_request_state,
        ContactorRequestStateEnum::ContactorACEnable
    );
    assert_eq!(s.charge.charge_state, ChargeStateEnum::ContactorRequest);
}

#[test]
fn ten_ms_dc_request_needs_acknowledge() {
    let mut s = CPState::new();
    s.link.init_sequence = 3;
    s.charge.contactor_request_state = ContactorRequestStateEnum::ContactorDCRequest;
    let _ = ten_ms_loop::init(&mut s, 0, 1);
    assert_eq!(
        s.charge.contactor_request_state,
        ContactorRequestStateEnum::ContactorDCRequest
    );
    s.charge.cbtxva_request = true;
    let _ = ten_ms_loop::init(&mut s, 0, 2);
    assert_eq!(
        s.charge.contactor_request_state,
        ContactorRequestStateEnum::ContactorDCEnable
    );
}

#[test]
fn timeout_is_logged_once() {
    let mut s = CPState::new();
    s.link.cp_init = true;
    s.link.previous_cptod_ts = 0;
    ten_ms_loop::check_cp_timeout(&mut s, 3500);
    assert!(!s.link.cp_comm_timeout);
    ten_ms_loop::check_cp_timeout(&mut s, 3501);
    assert!(s.link.cp_comm_timeout);
    assert!(!s.link.cp_init);
    assert_eq!(s.link.init_sequence, 3);
    assert_eq!(s.charge.charge_state, ChargeStateEnum::TimeOut);
    ten_ms_loop::check_cp_timeout(&mut s, 5000);
    assert_eq!(events(&s), vec![ActivityEvent::Timeout { elapsed: 3501 }]);
}

#[test]
fn frame_builders_are_zero_filled() {
    let mut s = CPState::new();
    assert_eq!(ten_ms_loop::u1(5).data, vec![0u8; 8]);
    assert_eq!(ten_ms_loop::cbtxva(&mut s).data, vec![0u8; 4]);
    assert_eq!(ten_ms_loop::sid845(&mut s).data, vec![0u8; 8]);
    assert_eq!(ten_ms_loop::cs(&mut s).data, vec![0u8; 8]);
    assert_eq!(hundred_ms_loop::u2().data, vec![0u8; 1]);
    assert_eq!(hundred_ms_loop::msx().data, vec![0u8; 6]);
    assert_eq!(five_hundred_ms_loop::vvvm().data, vec![0u8; 5]);
    assert_eq!(five_hundred_ms_loop::u6(11).data, vec![0u8; 8]);
    assert_eq!(thousand_ms_loop::usy().data, vec![0u8; 8]);
    let _ = CommandNote::AutoStart;
}

#[test]
fn receive_definedness_follows_bytes_read() {
    let mut s = CPState::new();
    s.charge.charge_state = ChargeStateEnum::ChargeIdle;
    s.link.cp_init = true;
    assert!(can_receive_logic::receive_is_defined(&data_frame(0x00F, &[0; 7]), 0, &s));
    assert!(!can_receive_logic::receive_is_defined(&data_frame(0x00F, &[0; 6]), 0, &s));
    assert!(can_receive_logic::receive_is_defined(&data_frame(0x00E, &[1]), 0, &s));
    assert!(!can_receive_logic::receive_is_defined(&data_frame(0x00E, &[0, 1, 2]), 0, &s));
    assert!(can_receive_logic::receive_is_defined(&data_frame(0x123, &[]), 0, &s));
    assert!(can_receive_logic::receive_is_defined(&CanFrame::RemoteFrame(0x00F), 0, &s));
    s.link.cp_init = false;
    s.link.init_sequence = 3;
    // The status frame restarts the handshake, after which one byte is enough.
    assert!(can_receive_logic::receive_is_defined(&data_frame(0x00F, &[1]), 0, &s));
    s.vehicle.cp_door_state = DoorStateEnum::DoorOpening;
    assert!(!can_receive_logic::receive_is_defined(&data_frame(0x00F, &[1]), 0, &s));
    s.link.cp_comm_timeout = true;
    s.link.previous_cptod_ts = 10;
    assert!(!can_receive_logic::receive_is_defined(&data_frame(0x00F, &[1, 1]), 9, &s));
    assert!(can_receive_logic::receive_is_defined(&data_frame(0x00F, &[1, 1]), 10, &s));
}

#[test]
fn handshake_step_definedness() {
    let mut s = CPState::new();
    s.link.init_sequence = 1;
    s.link.init_ts = 100;
    assert!(!process_init::step_is_defined(&s, 99));
    assert!(process_init::step_is_defined(&s, 100));
    s.link.init_sequence = 3;
    assert!(process_init::step_is_defined(&s, 0));
}

#[test]
fn latch_follows_relay() {
    let mut s = CPState::new();
    assert!(hundred_ms_loop::latch_output_high(&s));
    s.charge.charger_relay_enabled = true;
    assert!(!hundred_ms_loop::latch_output_high(&s));
}

#[test]
fn console_requests_are_served_once() {
    let mut s = CPState::new();
    s.console.quiet_to_verbose = true;
    s.console.print_menu_request = true;
    s.console.verbose_stats = true;
    ten_ms_loop::console_requests_served(&mut s);
    assert!(!s.console.quiet_to_verbose);
    assert!(!s.console.print_menu_request);
    assert!(s.console.verbose_stats);
}
