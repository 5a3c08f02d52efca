use cpcontrol::process_serial::{
    finish_rtc_update, init, normal_input, parse_rtc, parse_unsigned, rtc_input, rtc_input_is_defined,
    RtcField,
    SerialAction,
};
use cpcontrol::serial_console::{
    print_header_to_serial, rainbow_colours, serial_console, set_rtc, verbose_footer,
    ConsoleScreen,
};
use cpcontrol::types::{
    ActivityEvent, CPState, CPVerEnum, ChargeStateEnum, ChargerTypeEnum, CommandNote,
    ContactorRequestStateEnum, DoorStateEnum, LEDStateEnum, RTCUpdate,
};

fn last_note(s: &CPState) -> Option<ActivityEvent> {
    s.activity_list.events().last().copied()
}

fn chars(s: &str) -> Vec<char> {
    s.chars().collect()
}

#[test]
fn auto_start_and_manual_start() {
    let mut s = CPState::new();
    assert!(normal_input(0x61, 10, &mut s).is_empty());
    assert!(s.charge.auto_start);
    assert_eq!(
        last_note(&s),
        Some(ActivityEvent::Command { elapsed: 10, note: CommandNote::AutoStart })
    );
    normal_input(0x41, 11, &mut s);
    assert!(!s.charge.auto_start);
    assert_eq!(
        last_note(&s),
        Some(ActivityEvent::Command { elapsed: 11, note: CommandNote::ManualStart })
    );
}

#[test]
fn start_charge_requests_contactor_of_charger() {
    let mut s = CPState::new();
    normal_input(0x63, 1, &mut s);
    assert_eq!(
        s.charge.contactor_request_state,
        ContactorRequestStateEnum::ContactorNone
    );
    s.charge.charger_type = ChargerTypeEnum::AC;
    normal_input(0x63, 2, &mut s);
    assert_eq!(
        s.charge.contactor_request_state,
        ContactorRequestStateEnum::ContactorACRequest
    );
    s.charge.charger_type = ChargerTypeEnum::DC;
    normal_input(0x63, 3, &mut s);
    assert_eq!(
        s.charge.contactor_request_state,
        ContactorRequestStateEnum::ContactorDCRequest
    );
}

#[test]
fn stop_charge_command() {
    let mut s = CPState::new();
    s.charge.charger_relay_enabled = true;
    s.vehicle.desired_cp_led_state = LEDStateEnum::GreenBlink;
    normal_input(0x43, 5, &mut s);
    assert!(!s.charge.charger_relay_enabled);
    assert_eq!(s.charge.charge_state, ChargeStateEnum::StopCharge);
    assert_eq!(s.vehicle.desired_cp_led_state, LEDStateEnum::WhiteBlue);
    assert_eq!(s.vehicle.previous_cp_led_state, LEDStateEnum::GreenBlink);
}

#[test]
fn door_lock_rainbow_commands() {
    let mut s = CPState::new();
    normal_input(0x64, 1, &mut s);
    assert_eq!(s.vehicle.cp_door_state, DoorStateEnum::DoorOpenRequest);
    normal_input(0x44, 2, &mut s);
    assert_eq!(s.vehicle.cp_door_state, DoorStateEnum::DoorCloseRequest);
    normal_input(0x6C, 3, &mut s);
    assert!(s.vehicle.vehicle_locked);
    normal_input(0x4C, 4, &mut s);
    assert!(!s.vehicle.vehicle_locked);
    s.vehicle.desired_cp_led_state = LEDStateEnum::GreenSolid;
    normal_input(0x72, 5, &mut s);
    assert_eq!(s.vehicle.desired_cp_led_state, LEDStateEnum::Rainbow);
    normal_input(0x52, 6, &mut s);
    assert_eq!(s.vehicle.desired_cp_led_state, LEDStateEnum::GreenSolid);
    assert_eq!(
        last_note(&s),
        Some(ActivityEvent::Command { elapsed: 6, note: CommandNote::RainbowOff })
    );
    assert_eq!(s.activity_list.len(), 4);
}

#[test]
fn console_flag_commands_log_nothing() {
    let mut s = CPState::new();
    normal_input(0x65, 1, &mut s);
    assert!(s.console.quiet_to_verbose);
    normal_input(0x6D, 1, &mut s);
    assert!(s.console.print_menu_request);
    normal_input(0x76, 1, &mut s);
    assert!(s.console.verbose_stats);
    normal_input(0x56, 1, &mut s);
    assert!(!s.console.verbose_stats);
    assert_eq!(s.activity_list.len(), 0);
}

#[test]
fn invalid_selection_is_logged() {
    let mut s = CPState::new();
    normal_input(0x7A, 42, &mut s);
    assert_eq!(
        last_note(&s),
        Some(ActivityEvent::Command { elapsed: 42, note: CommandNote::InvalidSelection })
    );
}

#[test]
fn clock_mode_round_trip() {
    let mut s = CPState::new();
    let mut r = RTCUpdate::new();
    assert_eq!(init(0x73, 7, &mut s, &mut r), vec![SerialAction::ShowSetClock]);
    assert!(s.console.rtc_update);
    assert_eq!(init(0x33, 8, &mut s, &mut r), vec![SerialAction::Prompt { field: RtcField::Day }]);
    assert!(r.d_uip);
    assert_eq!(
        init(0x31, 9, &mut s, &mut r),
        vec![SerialAction::Echo { column: 23, ch: '1' }]
    );
    assert_eq!(r.temp, chars("1"));
    let mut done = RTCUpdate::new();
    assert_eq!(init(0x0D, 10, &mut s, &mut done), vec![SerialAction::LeaveClockMode]);
    finish_rtc_update(&mut s, 2021);
    assert!(!s.console.rtc_update);
    assert!(s.console.quiet_to_verbose);
}

#[test]
fn leaving_clock_set_to_1985() {
    let mut s = CPState::new();
    s.console.rtc_update = true;
    finish_rtc_update(&mut s, 1985);
    assert_eq!(last_note(&s), Some(ActivityEvent::GreatScott));
}

#[test]
fn entry_echo_and_limit() {
    let mut r = RTCUpdate::new();
    assert_eq!(parse_rtc(0x32, 2, &mut r), (false, Some(SerialAction::Echo { column: 23, ch: '2' })));
    assert_eq!(parse_rtc(0x33, 2, &mut r), (false, Some(SerialAction::Echo { column: 24, ch: '3' })));
    assert_eq!(parse_rtc(0x34, 2, &mut r), (false, None));
    assert_eq!(r.temp, chars("23"));
    assert_eq!(parse_rtc(0x41, 2, &mut r), (false, None));
    assert_eq!(parse_rtc(0x00, 2, &mut r), (false, None));
    assert_eq!(r.temp, chars("2"));
    r.temp = chars("123");
    assert_eq!(parse_rtc(0x00, 2, &mut r), (true, None));
    assert_eq!(r.temp, chars("12"));
}

#[test]
fn completed_year_entry_sets_clock() {
    let mut r = RTCUpdate::new();
    r.y_uip = true;
    r.temp = chars("20211");
    let actions = rtc_input(0x00, &mut r);
    assert_eq!(
        actions,
        vec![
            SerialAction::SetClock { field: RtcField::Year, value: 2021 },
            SerialAction::ShowSetClock
        ]
    );
    assert!(!r.y_uip);
    assert!(r.temp.is_empty());
}

#[test]
fn completed_entry_with_another_pending() {
    let mut r = RTCUpdate::new();
    r.h_uip = true;
    r.s_uip = true;
    r.temp = chars("+79");
    let actions = rtc_input(0x00, &mut r);
    assert_eq!(actions, vec![SerialAction::SetClock { field: RtcField::Hour, value: 7 }]);
    assert!(!r.h_uip);
    assert!(r.s_uip);
    assert_eq!(r.temp, chars("+7"));
}

#[test]
fn other_keys_outside_entry_do_nothing() {
    let mut r = RTCUpdate::new();
    assert!(rtc_input(0x39, &mut r).is_empty());
    assert_eq!(rtc_input(0x36, &mut r), vec![SerialAction::Prompt { field: RtcField::Second }]);
    assert!(r.s_uip);
}

#[test]
fn parsing_entries() {
    assert_eq!(parse_unsigned(&chars("2021"), 0xFFFF), Some(2021));
    assert_eq!(parse_unsigned(&chars("+12"), 0xFF), Some(12));
    assert_eq!(parse_unsigned(&chars("007"), 0xFF), Some(7));
    assert_eq!(parse_unsigned(&chars("12*"), 0xFF), None);
    assert_eq!(parse_unsigned(&chars(""), 0xFF), None);
    assert_eq!(parse_unsigned(&chars("+"), 0xFF), None);
    assert_eq!(parse_unsigned(&chars("256"), 0xFF), None);
    assert_eq!(parse_unsigned(&chars("255"), 0xFF), Some(255));
    assert_eq!(parse_unsigned(&chars("-1"), 0xFF), None);
}

#[test]
fn rainbow_turns_every_four_refreshes() {
    assert_eq!(rainbow_colours(0), [37, 36, 35, 34, 33, 32, 31]);
    assert_eq!(rainbow_colours(3), [37, 36, 35, 34, 33, 32, 31]);
    assert_eq!(rainbow_colours(4), [31, 37, 36, 35, 34, 33, 32]);
    assert_eq!(rainbow_colours(112), [37, 36, 35, 34, 33, 32, 31]);
}

#[test]
fn verbose_screen_contents() {
    let mut s = CPState::new();
    s.console.verbose_stats = true;
    s.link.fw_ver = CPVerEnum::Fw2019;
    s.vehicle.desired_cp_led_state = LEDStateEnum::Rainbow;
    let r = RTCUpdate::new();
    match serial_console(&s, 3000, &r) {
        ConsoleScreen::Verbose(v) => {
            assert!(v.header);
            assert!(v.activity);
            assert_eq!(v.version_year, Some(2019));
            assert!(v.rainbow.is_some());
        }
        _ => panic!("expected the verbose page"),
    }
    s.vehicle.desired_cp_led_state = LEDStateEnum::WhiteBlue;
    match serial_console(&s, 17, &r) {
        ConsoleScreen::Verbose(v) => {
            assert!(!v.header);
            assert!(!v.activity);
            assert_eq!(v.version_year, None);
            assert!(v.rainbow.is_none());
        }
        _ => panic!("expected the verbose page"),
    }
}

#[test]
fn quiet_screen_contents() {
    let mut s = CPState::new();
    let r = RTCUpdate::new();
    match serial_console(&s, 50, &r) {
        ConsoleScreen::Quiet(q) => {
            assert!(!q.menu);
            assert!(!q.hint);
        }
        _ => panic!("expected the status line"),
    }
    assert!(matches!(serial_console(&s, 54, &r), ConsoleScreen::Nothing));
    s.console.print_menu_request = true;
    match serial_console(&s, 0, &r) {
        ConsoleScreen::Quiet(q) => {
            assert!(q.menu);
            assert!(!q.hint);
        }
        _ => panic!("expected the status line"),
    }
    s.console.print_menu_request = false;
    match serial_console(&s, 3000, &r) {
        ConsoleScreen::Quiet(q) => assert!(q.hint),
        _ => panic!("expected the status line"),
    }
}

#[test]
fn clock_page() {
    let mut s = CPState::new();
    s.console.rtc_update = true;
    let mut r = RTCUpdate::new();
    match serial_console(&s, 12, &r) {
        ConsoleScreen::SetRtc(Some(p)) => assert_eq!(p.cursor, None),
        _ => panic!("expected the clock page"),
    }
    r.m_uip = true;
    r.temp = chars("1");
    assert_eq!(set_rtc(&r, 3).map(|p| p.cursor), Some(Some(24)));
    assert!(set_rtc(&r, 4).is_none());
}

#[test]
fn command_list() {
    let quiet = print_header_to_serial(false);
    assert_eq!(quiet.len(), 10);
    assert_eq!(quiet[0], "Commands: ");
    assert_eq!(quiet[9], "v / V - Enable / Disable verbose.");
    let verbose = print_header_to_serial(true);
    assert_eq!(verbose.len(), 19);
    assert_eq!(verbose[0], "\x1B[2J\x1B[HCommands: ");
    assert_eq!(verbose[10], "Command? ");
    let footer = verbose_footer();
    assert_eq!(footer.len(), 9);
    assert_eq!(footer[2], "                          Activity");
}

#[test]
fn clock_entry_definedness() {
    let mut r = RTCUpdate::new();
    r.m_uip = true;
    r.temp = chars("1*3");
    assert!(!rtc_input_is_defined(&r, 0x00));
    assert!(rtc_input_is_defined(&r, 0x31));
    r.temp = chars("123");
    assert!(rtc_input_is_defined(&r, 0x00));
    r.temp = chars("1");
    assert!(rtc_input_is_defined(&r, 0x00));
    let idle = RTCUpdate::new();
    assert!(rtc_input_is_defined(&idle, 0x00));
}
