//! Operator commands typed on the serial console, and clock entry.
use vstd::prelude::*;
use crate::types::{
    ActivityEvent, CPState, ChargeControl, ChargeStateEnum, ChargerTypeEnum, CommandNote,
    ConsoleFlags, ContactorRequestStateEnum, DoorStateEnum, LEDStateEnum, RTCUpdate, VehicleState,
    log_push, spec_set_led, spec_set_previous_led,
};

verus! {

/// A field of the real-time clock.
#[derive(Clone, Copy, PartialEq, Eq, Structural, Debug)]
pub enum RtcField {
    Year,
    Month,
    Day,
    Hour,
    Minute,
    Second,
}

/// What the console (or the clock) has to do after a key press.
#[derive(Clone, Copy, PartialEq, Eq, Structural, Debug)]
pub enum SerialAction {
    /// Print `ch` on the clock-entry line at `column`.
    Echo { column: usize, ch: char },
    /// Write `value` to `field` of the real-time clock.
    SetClock { field: RtcField, value: u16 },
    /// Clear the screen and show the clock-setting page.
    ShowSetClock,
    /// Ask for a new value of `field`, showing its current value.
    Prompt { field: RtcField },
    /// Leave clock setting: read the year and hand it to [`finish_rtc_update`].
    LeaveClockMode,
}

/// The key that erases the last character and ends an entry.
pub const ENTRY_KEY: u8 = 0x00;

/// The key that leaves clock setting.
pub const RETURN_KEY: u8 = 0x0D;

/// `command` is a character that clock entry accepts (the range 0x2A..=0x39).
pub open spec fn entry_char(command: u8) -> bool {
    0x29 < command < 0x3A
}

/// The characters typed so far after key `command`, for an entry of at most `max_len`.
pub open spec fn spec_entry_temp(temp: Seq<char>, command: u8, max_len: u8) -> Seq<char> {
    if command == ENTRY_KEY {
        if temp.len() > 0 {
            temp.drop_last()
        } else {
            temp
        }
    } else if entry_char(command) && temp.len() < max_len {
        temp.push(command as char)
    } else {
        temp
    }
}

/// Key `command` completes an entry of `max_len` characters.
pub open spec fn entry_complete(temp: Seq<char>, command: u8, max_len: u8) -> bool {
    command == ENTRY_KEY && spec_entry_temp(temp, command, max_len).len() == max_len
}

/// The echo of key `command`, when it is typed into the entry.
pub open spec fn spec_entry_echo(temp: Seq<char>, command: u8, max_len: u8) -> Option<
    SerialAction,
> {
    if command != ENTRY_KEY && entry_char(command) && temp.len() < max_len {
        Some(SerialAction::Echo { column: (temp.len() + 23) as usize, ch: command as char })
    } else {
        None
    }
}

/// Records key `command` in a clock entry of at most `max_len` characters.
/// Returns whether the entry is complete, and the echo to print.
pub fn parse_rtc(command: u8, max_len: u8, rtc_data: &mut RTCUpdate) -> (r: (
    bool,
    Option<SerialAction>,
))
    requires
        old(rtc_data).temp@.len() + 23 <= usize::MAX,
    ensures
        final(rtc_data).temp@ == spec_entry_temp(old(rtc_data).temp@, command, max_len),
        final(rtc_data).y_uip == old(rtc_data).y_uip,
        final(rtc_data).m_uip == old(rtc_data).m_uip,
        final(rtc_data).d_uip == old(rtc_data).d_uip,
        final(rtc_data).h_uip == old(rtc_data).h_uip,
        final(rtc_data).min_uip == old(rtc_data).min_uip,
        final(rtc_data).s_uip == old(rtc_data).s_uip,
        r.0 == entry_complete(old(rtc_data).temp@, command, max_len),
        r.1 == spec_entry_echo(old(rtc_data).temp@, command, max_len),
{
    let mut echo: Option<SerialAction> = None;
    if command == 0x00 {
        rtc_data.temp.pop();
    } else if command > 0x29 && command < 0x3A && rtc_data.temp.len() < max_len as usize {
        echo = Some(SerialAction::Echo { column: rtc_data.temp.len() + 23, ch: command as char });
        rtc_data.temp.push(command as char);
    }
    if rtc_data.temp.len() == max_len as usize && command == 0x00 {
        (true, echo)
    } else {
        (false, echo)
    }
}

/// The value of the decimal digits `s`.
pub open spec fn digits_value(s: Seq<char>) -> int
    decreases s.len(),
{
    if s.len() == 0 {
        0
    } else {
        digits_value(s.drop_last()) * 10 + (s.last() as int - '0' as int)
    }
}

/// Every character of `s` is a decimal digit.
pub open spec fn all_digits(s: Seq<char>) -> bool {
    forall|i: int| 0 <= i < s.len() ==> '0' <= #[trigger] s[i] <= '9'
}

/// The digits of an unsigned number: `s` without one leading '+'.
pub open spec fn unsigned_digits(s: Seq<char>) -> Seq<char> {
    if s.len() > 0 && s[0] == '+' {
        s.drop_first()
    } else {
        s
    }
}

/// `s` read as an unsigned decimal number of at most `max`, as `str::parse`
/// reads it: an optional '+', then at least one digit. `None` when it is not one.
pub open spec fn spec_parse_unsigned(s: Seq<char>, max: int) -> Option<int> {
    let d = unsigned_digits(s);
    if d.len() > 0 && all_digits(d) && digits_value(d) <= max {
        Some(digits_value(d))
    } else {
        None
    }
}

proof fn lemma_digits_value_nonneg(s: Seq<char>)
    requires
        all_digits(s),
    ensures
        digits_value(s) >= 0,
    decreases s.len(),
{
    if s.len() > 0 {
        assert(all_digits(s.drop_last()));
        lemma_digits_value_nonneg(s.drop_last());
    }
}

proof fn lemma_digits_value_monotone(s: Seq<char>, n: int)
    requires
        all_digits(s),
        0 <= n <= s.len(),
    ensures
        digits_value(s.subrange(0, n)) <= digits_value(s),
    decreases s.len() - n,
{
    if n < s.len() {
        let t = s.subrange(0, n + 1);
        assert(t.drop_last() =~= s.subrange(0, n));
        assert(all_digits(t));
        assert(all_digits(s.subrange(0, n)));
        lemma_digits_value_nonneg(s.subrange(0, n));
        lemma_digits_value_monotone(s, n + 1);
    } else {
        assert(s.subrange(0, n) =~= s);
    }
}

/// Reads the typed characters as an unsigned number of at most `max`.
pub fn parse_unsigned(temp: &Vec<char>, max: u16) -> (r: Option<u16>)
    ensures
        r == (match spec_parse_unsigned(temp@, max as int) {
            Some(v) => Some(v as u16),
            None => None::<u16>,
        }),
{
    let n: usize = temp.len();
    let mut start: usize = 0;
    if n > 0 && temp[0] == '+' {
        start = 1;
    }
    let ghost d = unsigned_digits(temp@);
    assert(d =~= temp@.subrange(start as int, n as int));
    if start == n {
        return None;
    }
    let mut value: u32 = 0;
    let mut i: usize = start;
    while i < n
        invariant
            start <= i <= n,
            n == temp@.len(),
            d == temp@.subrange(start as int, n as int),
            d == unsigned_digits(temp@),
            all_digits(d.subrange(0, i - start)),
            value == digits_value(d.subrange(0, i - start)),
            value <= max,
        decreases n - i,
    {
        let c: char = temp[i];
        if c < '0' || c > '9' {
            assert(d[i - start] == c);
            assert(!all_digits(d));
            return None;
        }
        let digit: u32 = (c as u32) - ('0' as u32);
        let next: u32 = value * 10 + digit;
        let ghost prefix = d.subrange(0, i - start + 1);
        assert(prefix.drop_last() =~= d.subrange(0, i - start));
        assert(prefix.last() == c);
        assert(all_digits(prefix));
        assert(digits_value(prefix) == next);
        if next > max as u32 {
            proof {
                if all_digits(d) {
                    lemma_digits_value_monotone(d, i - start + 1);
                }
            }
            assert(!(all_digits(d) && digits_value(d) <= max));
            return None;
        }
        value = next;
        i = i + 1;
    }
    assert(d.subrange(0, n - start) =~= d);
    Some(value as u16)
}

/// The field whose entry is in progress (the first flag set, in the order
/// year, month, day, hour, minute, second).
pub open spec fn active_field(r: RTCUpdate) -> Option<RtcField> {
    if r.y_uip {
        Some(RtcField::Year)
    } else if r.m_uip {
        Some(RtcField::Month)
    } else if r.d_uip {
        Some(RtcField::Day)
    } else if r.h_uip {
        Some(RtcField::Hour)
    } else if r.min_uip {
        Some(RtcField::Minute)
    } else if r.s_uip {
        Some(RtcField::Second)
    } else {
        None
    }
}

/// How many characters an entry of `field` takes.
pub open spec fn field_len(field: RtcField) -> u8 {
    if field == RtcField::Year {
        4
    } else {
        2
    }
}

/// The largest value `field` can take: a `u16` for the year, a `u8` otherwise.
pub open spec fn field_max(field: RtcField) -> int {
    if field == RtcField::Year {
        0xFFFF
    } else {
        0xFF
    }
}

/// The entry flags with the flag of `field` set to `v`.
pub open spec fn with_flag(r: RTCUpdate, field: RtcField, v: bool) -> RTCUpdate {
    match field {
        RtcField::Year => RTCUpdate { y_uip: v, ..r },
        RtcField::Month => RTCUpdate { m_uip: v, ..r },
        RtcField::Day => RTCUpdate { d_uip: v, ..r },
        RtcField::Hour => RTCUpdate { h_uip: v, ..r },
        RtcField::Minute => RTCUpdate { min_uip: v, ..r },
        RtcField::Second => RTCUpdate { s_uip: v, ..r },
    }
}

/// The field that key `command` selects for entry, outside an entry.
pub open spec fn selected_field(command: u8) -> Option<RtcField> {
    if command == 0x31 {
        Some(RtcField::Year)
    } else if command == 0x32 {
        Some(RtcField::Month)
    } else if command == 0x33 {
        Some(RtcField::Day)
    } else if command == 0x34 {
        Some(RtcField::Hour)
    } else if command == 0x35 {
        Some(RtcField::Minute)
    } else if command == 0x36 {
        Some(RtcField::Second)
    } else {
        None
    }
}

/// A completed entry can be read as a number (else reading it would fail).
pub open spec fn rtc_input_defined(r: RTCUpdate, command: u8) -> bool {
    &&& r.temp@.len() + 23 <= usize::MAX
    &&& active_field(r) matches Some(field) ==> (entry_complete(r.temp@, command, field_len(field))
        ==> spec_parse_unsigned(
        spec_entry_temp(r.temp@, command, field_len(field)),
        field_max(field),
    ) is Some)
}

/// What clock entry does with key `command`: `old_r` and `new_r` are the entry
/// before and after, `actions` what it asks of the console and the clock.
pub open spec fn rtc_input_ensures(
    old_r: RTCUpdate,
    new_r: RTCUpdate,
    command: u8,
    actions: Seq<SerialAction>,
) -> bool {
        match active_field(old_r) {
            Some(field) => {
                let len = field_len(field);
                let temp = spec_entry_temp(old_r.temp@, command, len);
                let echo = spec_entry_echo(old_r.temp@, command, len);
                if entry_complete(old_r.temp@, command, len) {
                    let value = spec_parse_unsigned(temp, field_max(field))->0;
                    let cleared = with_flag(old_r, field, false);
                    if active_field(cleared) is None {
                        &&& actions =~= seq![
                            SerialAction::SetClock { field, value: value as u16 },
                            SerialAction::ShowSetClock,
                        ]
                        &&& new_r.temp@ =~= Seq::<char>::empty()
                        &&& flags_match(new_r, cleared)
                    } else {
                        &&& actions =~= seq![SerialAction::SetClock { field, value: value as u16 }]
                        &&& new_r.temp@ =~= temp
                        &&& flags_match(new_r, cleared)
                    }
                } else {
                    &&& actions =~= (match echo {
                        Some(e) => seq![e],
                        None => Seq::<SerialAction>::empty(),
                    })
                    &&& new_r.temp@ =~= temp
                    &&& flags_match(new_r, old_r)
                }
            },
            None => {
                &&& new_r.temp@ =~= old_r.temp@
                &&& match selected_field(command) {
                    Some(field) => {
                        &&& actions =~= seq![SerialAction::Prompt { field }]
                        &&& flags_match(new_r, with_flag(old_r, field, true))
                    },
                    None => {
                        &&& actions =~= (if command == RETURN_KEY {
                            seq![SerialAction::LeaveClockMode]
                        } else {
                            Seq::<SerialAction>::empty()
                        })
                        &&& flags_match(new_r, old_r)
                    },
                }
            },
        }
}

/// Whether [`rtc_input`] is defined on key `command`: the entry fits the
/// console line, and a completed entry reads as a number.
pub fn rtc_input_is_defined(rtc_data: &RTCUpdate, command: u8) -> (r: bool)
    ensures
        r == rtc_input_defined(*rtc_data, command),
{
    if rtc_data.temp.len() > usize::MAX - 23 {
        return false;
    }
    let uip = rtc_data.y_uip || rtc_data.m_uip || rtc_data.d_uip || rtc_data.h_uip
        || rtc_data.min_uip || rtc_data.s_uip;
    if !uip || command != ENTRY_KEY {
        return true;
    }
    let max_len: usize = if rtc_data.y_uip {
        4
    } else {
        2
    };
    let max: u16 = if rtc_data.y_uip {
        0xFFFF
    } else {
        0xFF
    };
    let n: usize = rtc_data.temp.len();
    let mut entry: Vec<char> = rtc_data.temp.clone();
    if n > 0 {
        entry.pop();
    }
    assert(entry@ =~= spec_entry_temp(rtc_data.temp@, command, max_len as u8));
    if entry.len() != max_len {
        return true;
    }
    parse_unsigned(&entry, max).is_some()
}

/// Handles key `command` while the clock is being set. During an entry the key
/// goes into it; a complete entry is written to the clock, and once no entry is
/// left the clock page is shown again. Outside an entry, '1'..'6' start the
/// entry of year, month, day, hour, minute or second, and return asks to leave
/// clock setting.
pub fn rtc_input(command: u8, rtc_data: &mut RTCUpdate) -> (r: Vec<SerialAction>)
    requires
        rtc_input_defined(*old(rtc_data), command),
    ensures
        rtc_input_ensures(*old(rtc_data), *final(rtc_data), command, r@),
{
    let mut actions: Vec<SerialAction> = Vec::new();
    // Check if there's an update in progress already
    let date_uip = rtc_data.y_uip || rtc_data.m_uip || rtc_data.d_uip;
    let time_uip = rtc_data.h_uip || rtc_data.min_uip || rtc_data.s_uip;
    if date_uip || time_uip {
        let field: RtcField = if rtc_data.y_uip {
            RtcField::Year
        } else if rtc_data.m_uip {
            RtcField::Month
        } else if rtc_data.d_uip {
            RtcField::Day
        } else if rtc_data.h_uip {
            RtcField::Hour
        } else if rtc_data.min_uip {
            RtcField::Minute
        } else {
            RtcField::Second
        };
        let max_len: u8 = if rtc_data.y_uip {
            4
        } else {
            2
        };
        let (complete, echo) = parse_rtc(command, max_len, rtc_data);
        if let Some(e) = echo {
            actions.push(e);
        }
        if complete {
            let max: u16 = if rtc_data.y_uip {
                0xFFFF
            } else {
                0xFF
            };
            let value: Option<u16> = parse_unsigned(&rtc_data.temp, max);
            let value: u16 = value.unwrap();
            actions.push(SerialAction::SetClock { field, value });
            clear_flag(rtc_data, field);
            // If all of the flags are clear, we've updated things.
            let date_uip = rtc_data.y_uip || rtc_data.m_uip || rtc_data.d_uip;
            let time_uip = rtc_data.h_uip || rtc_data.min_uip || rtc_data.s_uip;
            if !(date_uip || time_uip) {
                rtc_data.temp.clear();
                actions.push(SerialAction::ShowSetClock);
            }
        }
    } else {
        match command {
            // 1
            0x31 => {
                actions.push(SerialAction::Prompt { field: RtcField::Year });
                // Set update in progress flag.
                rtc_data.y_uip = true;
            },
            // 2
            0x32 => {
                actions.push(SerialAction::Prompt { field: RtcField::Month });
                rtc_data.m_uip = true;
            },
            // 3
            0x33 => {
                actions.push(SerialAction::Prompt { field: RtcField::Day });
                rtc_data.d_uip = true;
            },
            // 4
            0x34 => {
                actions.push(SerialAction::Prompt { field: RtcField::Hour });
                rtc_data.h_uip = true;
            },
            // 5
            0x35 => {
                actions.push(SerialAction::Prompt { field: RtcField::Minute });
                rtc_data.min_uip = true;
            },
            // 6
            0x36 => {
                actions.push(SerialAction::Prompt { field: RtcField::Second });
                rtc_data.s_uip = true;
            },
            0xD => {
                actions.push(SerialAction::LeaveClockMode);
            },
            _ => {},
        }
    }
    actions
}

/// The entry flags of `a` and `b` agree.
pub open spec fn flags_match(a: RTCUpdate, b: RTCUpdate) -> bool {
    &&& a.y_uip == b.y_uip
    &&& a.m_uip == b.m_uip
    &&& a.d_uip == b.d_uip
    &&& a.h_uip == b.h_uip
    &&& a.min_uip == b.min_uip
    &&& a.s_uip == b.s_uip
}

/// Ends the entry of `field`.
fn clear_flag(rtc_data: &mut RTCUpdate, field: RtcField)
    ensures
        final(rtc_data).temp@ == old(rtc_data).temp@,
        flags_match(*final(rtc_data), with_flag(*old(rtc_data), field, false)),
{
    match field {
        RtcField::Year => {
            rtc_data.y_uip = false;
        },
        RtcField::Month => {
            rtc_data.m_uip = false;
        },
        RtcField::Day => {
            rtc_data.d_uip = false;
        },
        RtcField::Hour => {
            rtc_data.h_uip = false;
        },
        RtcField::Minute => {
            rtc_data.min_uip = false;
        },
        RtcField::Second => {
            rtc_data.s_uip = false;
        },
    }
}

/// The activity entry that operator command `command` logs, if any.
pub open spec fn command_note(command: u8) -> Option<CommandNote> {
    if command == 0x61 {
        Some(CommandNote::AutoStart)
    } else if command == 0x41 {
        Some(CommandNote::ManualStart)
    } else if command == 0x63 {
        Some(CommandNote::StartingCharge)
    } else if command == 0x43 {
        Some(CommandNote::StoppingCharge)
    } else if command == 0x64 {
        Some(CommandNote::OpeningDoor)
    } else if command == 0x44 {
        Some(CommandNote::ClosingDoor)
    } else if command == 0x6C {
        Some(CommandNote::VehicleLocked)
    } else if command == 0x4C {
        Some(CommandNote::VehicleUnlocked)
    } else if command == 0x72 {
        Some(CommandNote::RainbowOn)
    } else if command == 0x52 {
        Some(CommandNote::RainbowOff)
    } else if command == 0x73 {
        Some(CommandNote::RtcUpdateMode)
    } else if command == 0x65 || command == 0x6D || command == 0x76 || command == 0x56 {
        None
    } else {
        Some(CommandNote::InvalidSelection)
    }
}

/// The activity log after operator command `command` at `elapsed`.
pub open spec fn spec_command_log(s: CPState, command: u8, elapsed: u32) -> Seq<ActivityEvent> {
    match command_note(command) {
        Some(note) => log_push(s.activity_list@, ActivityEvent::Command { elapsed, note }),
        None => s.activity_list@,
    }
}

/// The state (its log aside) after operator command `command`:
/// a / A turn charge auto-start on / off; c asks for the contactor of the
/// plugged-in charger; C stops the charge; d / D ask to open / close the door;
/// e refreshes the screen; l / L lock / unlock the vehicle; m asks for the
/// menu; r / R start / end rainbow mode; s enters clock setting; v / V turn
/// verbose statistics on / off.
pub open spec fn spec_normal_input(s: CPState, command: u8) -> CPState {
    let c = s.charge;
    let v = s.vehicle;
    let k = s.console;
    if command == 0x61 {
        CPState { charge: ChargeControl { auto_start: true, ..c }, ..s }
    } else if command == 0x41 {
        CPState { charge: ChargeControl { auto_start: false, ..c }, ..s }
    } else if command == 0x63 {
        CPState {
            charge: ChargeControl {
                contactor_request_state: if c.charger_type == ChargerTypeEnum::AC {
                    ContactorRequestStateEnum::ContactorACRequest
                } else if c.charger_type == ChargerTypeEnum::DC {
                    ContactorRequestStateEnum::ContactorDCRequest
                } else {
                    c.contactor_request_state
                },
                ..c
            },
            ..s
        }
    } else if command == 0x43 {
        spec_set_led(
            CPState {
                charge: ChargeControl {
                    charger_relay_enabled: false,
                    charge_state: ChargeStateEnum::StopCharge,
                    ..c
                },
                ..s
            },
            LEDStateEnum::WhiteBlue,
        )
    } else if command == 0x64 {
        CPState {
            vehicle: VehicleState { cp_door_state: DoorStateEnum::DoorOpenRequest, ..v },
            ..s
        }
    } else if command == 0x44 {
        CPState {
            vehicle: VehicleState { cp_door_state: DoorStateEnum::DoorCloseRequest, ..v },
            ..s
        }
    } else if command == 0x65 {
        CPState { console: ConsoleFlags { quiet_to_verbose: true, ..k }, ..s }
    } else if command == 0x6C {
        CPState { vehicle: VehicleState { vehicle_locked: true, ..v }, ..s }
    } else if command == 0x4C {
        CPState { vehicle: VehicleState { vehicle_locked: false, ..v }, ..s }
    } else if command == 0x6D {
        CPState { console: ConsoleFlags { print_menu_request: true, ..k }, ..s }
    } else if command == 0x72 {
        spec_set_led(s, LEDStateEnum::Rainbow)
    } else if command == 0x52 {
        spec_set_previous_led(s)
    } else if command == 0x73 {
        CPState { console: ConsoleFlags { rtc_update: true, ..k }, ..s }
    } else if command == 0x76 {
        CPState { console: ConsoleFlags { verbose_stats: true, quiet_to_verbose: true, ..k }, ..s }
    } else if command == 0x56 {
        CPState { console: ConsoleFlags { verbose_stats: false, ..k }, ..s }
    } else {
        s
    }
}

/// Handles operator command `command` at `elapsed` outside clock setting.
/// Returns the console output it asks for (the clock page for 's').
#[verifier::rlimit(40)]
pub fn normal_input(command: u8, elapsed: u32, cp_state: &mut CPState) -> (r: Vec<SerialAction>)
    ensures
        final(cp_state).activity_list@ == spec_command_log(*old(cp_state), command, elapsed),
        *final(cp_state) == (CPState {
            activity_list: final(cp_state).activity_list,
            ..spec_normal_input(*old(cp_state), command)
        }),
        r@ == (if command == 0x73 {
            seq![SerialAction::ShowSetClock]
        } else {
            Seq::<SerialAction>::empty()
        }),
{
    let mut actions: Vec<SerialAction> = Vec::new();
    match command {
        // a
        0x61 => {
            log_command(cp_state, elapsed, CommandNote::AutoStart);
            cp_state.charge.auto_start = true;
        },
        // A
        0x41 => {
            log_command(cp_state, elapsed, CommandNote::ManualStart);
            cp_state.charge.auto_start = false;
        },
        // c
        0x63 => {
            log_command(cp_state, elapsed, CommandNote::StartingCharge);
            if cp_state.charge.charger_type == ChargerTypeEnum::AC {
                cp_state.charge.contactor_request_state =
                    ContactorRequestStateEnum::ContactorACRequest;
            } else if cp_state.charge.charger_type == ChargerTypeEnum::DC {
                cp_state.charge.contactor_request_state =
                    ContactorRequestStateEnum::ContactorDCRequest;
            }
        },
        // C
        0x43 => {
            log_command(cp_state, elapsed, CommandNote::StoppingCharge);
            cp_state.charge.charger_relay_enabled = false;
            cp_state.charge.charge_state = ChargeStateEnum::StopCharge;
            cp_state.set_led(LEDStateEnum::WhiteBlue);
        },
        // d
        0x64 => {
            log_command(cp_state, elapsed, CommandNote::OpeningDoor);
            cp_state.vehicle.cp_door_state = DoorStateEnum::DoorOpenRequest;
        },
        // D
        0x44 => {
            log_command(cp_state, elapsed, CommandNote::ClosingDoor);
            cp_state.vehicle.cp_door_state = DoorStateEnum::DoorCloseRequest;
        },
        // e
        0x65 => {
            cp_state.console.quiet_to_verbose = true;
        },
        // l
        0x6C => {
            log_command(cp_state, elapsed, CommandNote::VehicleLocked);
            cp_state.vehicle.vehicle_locked = true;
        },
        // L
        0x4C => {
            log_command(cp_state, elapsed, CommandNote::VehicleUnlocked);
            cp_state.vehicle.vehicle_locked = false;
        },
        // m
        0x6D => {
            cp_state.console.print_menu_request = true;
        },
        // r
        0x72 => {
            log_command(cp_state, elapsed, CommandNote::RainbowOn);
            cp_state.set_led(LEDStateEnum::Rainbow);
        },
        // R
        0x52 => {
            log_command(cp_state, elapsed, CommandNote::RainbowOff);
            cp_state.set_previous_led();
        },
        // s
        0x73 => {
            // Set the RTC clock
            log_command(cp_state, elapsed, CommandNote::RtcUpdateMode);
            actions.push(SerialAction::ShowSetClock);
            cp_state.console.rtc_update = true;
        },
        // v
        0x76 => {
            cp_state.console.verbose_stats = true;
            cp_state.console.quiet_to_verbose = true;
        },
        // V
        0x56 => {
            cp_state.console.verbose_stats = false;
        },
        _ => {
            log_command(cp_state, elapsed, CommandNote::InvalidSelection);
        },
    }
    actions
}

/// Logs operator command `note` at `elapsed`.
fn log_command(cp_state: &mut CPState, elapsed: u32, note: CommandNote)
    ensures
        final(cp_state).activity_list@ == log_push(
            old(cp_state).activity_list@,
            ActivityEvent::Command { elapsed, note },
        ),
        *final(cp_state) == (CPState {
            activity_list: final(cp_state).activity_list,
            ..*old(cp_state)
        }),
{
    cp_state.activity_list.push_back(ActivityEvent::Command { elapsed, note });
}

/// Leaves clock setting once the clock reads `year`: a clock left in 1985 is
/// logged, and the console goes back to its normal page.
pub fn finish_rtc_update(cp_state: &mut CPState, year: u16)
    ensures
        final(cp_state).activity_list@ == (if year == 1985 {
            log_push(old(cp_state).activity_list@, ActivityEvent::GreatScott)
        } else {
            old(cp_state).activity_list@
        }),
        *final(cp_state) == (CPState {
            activity_list: final(cp_state).activity_list,
            console: ConsoleFlags {
                rtc_update: false,
                quiet_to_verbose: true,
                ..old(cp_state).console
            },
            ..*old(cp_state)
        }),
{
    if year == 1985 {
        cp_state.activity_list.push_back(ActivityEvent::GreatScott);
    }
    cp_state.console.rtc_update = false;
    cp_state.console.quiet_to_verbose = true;
}

/// Handles a key typed on the serial console at `elapsed`: clock entry while
/// the clock is being set, an operator command otherwise.
pub fn init(
    command: u8,
    elapsed: u32,
    cp_state: &mut CPState,
    rtc_data: &mut RTCUpdate,
) -> (r: Vec<SerialAction>)
    requires
        old(cp_state).console.rtc_update ==> rtc_input_defined(*old(rtc_data), command),
    ensures
        old(cp_state).console.rtc_update ==> {
            &&& *final(cp_state) == *old(cp_state)
            &&& rtc_input_ensures(*old(rtc_data), *final(rtc_data), command, r@)
        },
        !old(cp_state).console.rtc_update ==> {
            &&& *final(rtc_data) == *old(rtc_data)
            &&& final(cp_state).activity_list@ == spec_command_log(*old(cp_state), command, elapsed)
            &&& *final(cp_state) == (CPState {
                activity_list: final(cp_state).activity_list,
                ..spec_normal_input(*old(cp_state), command)
            })
            &&& r@ == (if command == 0x73 {
                seq![SerialAction::ShowSetClock]
            } else {
                Seq::<SerialAction>::empty()
            })
        },
{
    if cp_state.console.rtc_update {
        rtc_input(command, rtc_data)
    } else {
        normal_input(command, elapsed, cp_state)
    }
}

} // verus!
