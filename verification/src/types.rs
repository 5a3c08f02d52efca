//! The controller's state, the frames it exchanges, and the activity log.
use vstd::prelude::*;

verus! {

/// How many activity entries the console keeps (the rows of its activity box).
pub const ACTIVITY_CAPACITY: usize = 4;

/// Charge sequencing state of the charge port.
#[derive(Clone, Copy, PartialEq, Eq, Structural, Debug)]
pub enum ChargeStateEnum {
    Init,
    ChargePortError,
    ChargeIdle,
    ACBlocked,
    WaitForComms,
    ContactorWaitRequest,
    ContactorRequest,
    ContactorFixed,
    StopCharge,
    TimeOut,
}

/// Charge-port door state.
#[derive(Clone, Copy, PartialEq, Eq, Structural, Debug)]
pub enum DoorStateEnum {
    DoorIdle,
    DoorOpenRequest,
    DoorOpening,
    DoorOpen,
    DoorCloseRequest,
    DoorClosing,
    DoorClosed,
}

/// Contactor request progress.
#[derive(Clone, Copy, PartialEq, Eq, Structural, Debug)]
pub enum ContactorRequestStateEnum {
    ContactorNone,
    ContactorACRequest,
    ContactorDCRequest,
    ContactorACEnable,
    ContactorDCEnable,
}

/// Kind of charger that is plugged in.
#[derive(Clone, Copy, PartialEq, Eq, Structural, Debug)]
pub enum ChargerTypeEnum {
    NoCharger,
    AC,
    DC,
}

/// Charge-port LED pattern.
#[derive(Clone, Copy, PartialEq, Eq, Structural, Debug)]
pub enum LEDStateEnum {
    WhiteBlue,
    BlueBlink,
    GreenBlink,
    GreenSolid,
    Rainbow,
}

/// Firmware generation of the charge-port ECU.
#[derive(Clone, Copy, PartialEq, Eq, Structural, Debug)]
pub enum CPVerEnum {
    Fw2018,
    Fw2019,
    Fw2020,
}

/// Why a CAN transmission failed.
#[derive(Clone, Copy, PartialEq, Eq, Structural, Debug)]
pub enum CanError {
    BufferExhausted,
    ConfigurationFailed,
    InvalidFrame,
    Timeout,
}

/// Names an outgoing frame by its schedule and its position there:
/// period 50 and index 1 is the frame shown as "50ms_1".
#[derive(Clone, Copy, PartialEq, Eq, Structural, Debug)]
pub struct FrameTag {
    pub period_ms: u16,
    pub index: u8,
}

/// What an operator command did, as shown in the activity log.
#[derive(Clone, Copy, PartialEq, Eq, Structural, Debug)]
pub enum CommandNote {
    AutoStart,
    ManualStart,
    StartingCharge,
    StoppingCharge,
    OpeningDoor,
    ClosingDoor,
    VehicleLocked,
    VehicleUnlocked,
    RainbowOn,
    RainbowOff,
    RtcUpdateMode,
    InvalidSelection,
}

/// One entry of the activity log.
#[derive(Clone, Copy, PartialEq, Eq, Structural, Debug)]
pub enum ActivityEvent {
    /// Frames from the charge port came back after a timeout.
    TimeoutRecovery { elapsed: u32, after: u32 },
    /// No frame from the charge port for too long.
    Timeout { elapsed: u32 },
    /// A scheduled frame could not be sent.
    SendError { elapsed: u32, error: CanError, tag: FrameTag },
    /// An operator command was accepted (or refused).
    Command { elapsed: u32, note: CommandNote },
    /// The clock was left set to 1985.
    GreatScott,
}

/// The most recent activity entries, oldest first.
pub struct ActivityLog {
    entries: Vec<ActivityEvent>,
}

/// The log after `e` is appended to `s`: the last `ACTIVITY_CAPACITY` entries.
pub open spec fn log_push(s: Seq<ActivityEvent>, e: ActivityEvent) -> Seq<ActivityEvent> {
    let t = s.push(e);
    if t.len() > ACTIVITY_CAPACITY {
        t.subrange(t.len() - ACTIVITY_CAPACITY, t.len() as int)
    } else {
        t
    }
}

impl View for ActivityLog {
    type V = Seq<ActivityEvent>;

    closed spec fn view(&self) -> Seq<ActivityEvent> {
        self.entries@
    }
}

impl ActivityLog {
    pub fn new() -> (log: ActivityLog)
        ensures
            log@ == Seq::<ActivityEvent>::empty(),
    {
        ActivityLog { entries: Vec::new() }
    }

    /// Appends `e`, dropping the oldest entries beyond the capacity.
    pub fn push_back(&mut self, e: ActivityEvent)
        ensures
            final(self)@ == log_push(old(self)@, e),
            final(self)@.len() <= ACTIVITY_CAPACITY,
            final(self)@.last() == e,
    {
        let ghost t = self@.push(e);
        self.entries.push(e);
        let ghost mut dropped: int = 0;
        while self.entries.len() > ACTIVITY_CAPACITY
            invariant
                0 <= dropped <= t.len(),
                self.entries@ == t.subrange(dropped, t.len() as int),
                t.len() > ACTIVITY_CAPACITY ==> dropped <= t.len() - ACTIVITY_CAPACITY,
                t.len() <= ACTIVITY_CAPACITY ==> dropped == 0,
            decreases self.entries.len(),
        {
            self.entries.remove(0);
            proof {
                dropped = dropped + 1;
            }
        }
    }

    pub fn len(&self) -> (n: usize)
        ensures
            n == self@.len(),
    {
        self.entries.len()
    }

    /// The entries, oldest first.
    pub fn events(&self) -> (s: &[ActivityEvent])
        ensures
            s@ == self@,
    {
        self.entries.as_slice()
    }
}

/// The link with the charge port: handshake and firmware identity.
pub struct CpLink {
    pub cp_comm_timeout: bool,
    pub previous_cptod_ts: u32,
    pub cp_init: bool,
    pub init_sequence: u8,
    pub init_ts: u32,
    pub app_hash: u32,
    pub fw_ver: CPVerEnum,
}

/// Charge sequencing: state machine, contactor and relay.
pub struct ChargeControl {
    pub charge_state: ChargeStateEnum,
    pub contactor_request_state: ContactorRequestStateEnum,
    pub charger_type: ChargerTypeEnum,
    pub charger_relay_enabled: bool,
    pub cbtxva_request: bool,
    pub evse_request: bool,
    pub auto_start: bool,
}

/// Door, locks and lights of the vehicle side.
pub struct VehicleState {
    pub cp_door_state: DoorStateEnum,
    pub vehicle_locked: bool,
    pub desired_cp_led_state: LEDStateEnum,
    pub previous_cp_led_state: LEDStateEnum,
    pub tcgz: u8,
}

/// What the serial console has been asked to show.
pub struct ConsoleFlags {
    pub verbose_stats: bool,
    pub quiet_to_verbose: bool,
    pub print_menu_request: bool,
    pub rtc_update: bool,
}

/// Everything the controller knows about the charge port.
pub struct CPState {
    pub activity_list: ActivityLog,
    pub link: CpLink,
    pub charge: ChargeControl,
    pub vehicle: VehicleState,
    pub console: ConsoleFlags,
}

impl CPState {
    /// The state at power-on.
    pub fn new() -> (s: CPState)
        ensures
            s.activity_list@ == Seq::<ActivityEvent>::empty(),
            !s.link.cp_comm_timeout,
            s.link.previous_cptod_ts == 0,
            !s.link.cp_init,
            s.link.init_sequence == 0,
            s.link.init_ts == 0,
            s.link.app_hash == 0,
            s.link.fw_ver == CPVerEnum::Fw2018,
            s.charge.charge_state == ChargeStateEnum::Init,
            s.charge.contactor_request_state == ContactorRequestStateEnum::ContactorNone,
            s.charge.charger_type == ChargerTypeEnum::NoCharger,
            !s.charge.charger_relay_enabled,
            !s.charge.cbtxva_request,
            !s.charge.evse_request,
            !s.charge.auto_start,
            s.vehicle.cp_door_state == DoorStateEnum::DoorIdle,
            !s.vehicle.vehicle_locked,
            s.vehicle.desired_cp_led_state == LEDStateEnum::WhiteBlue,
            s.vehicle.previous_cp_led_state == LEDStateEnum::WhiteBlue,
            s.vehicle.tcgz == 0x60,
            !s.console.verbose_stats,
            !s.console.quiet_to_verbose,
            !s.console.print_menu_request,
            !s.console.rtc_update,
    {
        CPState {
            activity_list: ActivityLog::new(),
            link: CpLink {
                cp_comm_timeout: false,
                previous_cptod_ts: 0,
                cp_init: false,
                init_sequence: 0,
                init_ts: 0,
                app_hash: 0,
                fw_ver: CPVerEnum::Fw2018,
            },
            charge: ChargeControl {
                charge_state: ChargeStateEnum::Init,
                contactor_request_state: ContactorRequestStateEnum::ContactorNone,
                charger_type: ChargerTypeEnum::NoCharger,
                charger_relay_enabled: false,
                cbtxva_request: false,
                evse_request: false,
                auto_start: false,
            },
            vehicle: VehicleState {
                cp_door_state: DoorStateEnum::DoorIdle,
                vehicle_locked: false,
                desired_cp_led_state: LEDStateEnum::WhiteBlue,
                previous_cp_led_state: LEDStateEnum::WhiteBlue,
                tcgz: 0x60,
            },
            console: ConsoleFlags {
                verbose_stats: false,
                quiet_to_verbose: false,
                print_menu_request: false,
                rtc_update: false,
            },
        }
    }

    /// Asks for LED pattern `led`, remembering the pattern it replaces.
    pub fn set_led(&mut self, led: LEDStateEnum)
        ensures
            *final(self) == spec_set_led(*old(self), led),
    {
        if self.vehicle.desired_cp_led_state != led {
            self.vehicle.previous_cp_led_state = self.vehicle.desired_cp_led_state;
            self.vehicle.desired_cp_led_state = led;
        }
    }

    /// Goes back to the LED pattern that the last change replaced.
    pub fn set_previous_led(&mut self)
        ensures
            *final(self) == spec_set_previous_led(*old(self)),
    {
        self.vehicle.desired_cp_led_state = self.vehicle.previous_cp_led_state;
    }
}

/// The state after asking for LED pattern `led`.
pub open spec fn spec_set_led(s: CPState, led: LEDStateEnum) -> CPState {
    if s.vehicle.desired_cp_led_state != led {
        CPState {
            vehicle: VehicleState {
                previous_cp_led_state: s.vehicle.desired_cp_led_state,
                desired_cp_led_state: led,
                ..s.vehicle
            },
            ..s
        }
    } else {
        s
    }
}

/// The state after going back to the previous LED pattern.
pub open spec fn spec_set_previous_led(s: CPState) -> CPState {
    CPState {
        vehicle: VehicleState {
            desired_cp_led_state: s.vehicle.previous_cp_led_state,
            ..s.vehicle
        },
        ..s
    }
}

/// The clock entry in progress on the serial console.
pub struct RTCUpdate {
    /// Characters typed so far.
    pub temp: Vec<char>,
    pub y_uip: bool,
    pub m_uip: bool,
    pub d_uip: bool,
    pub h_uip: bool,
    pub min_uip: bool,
    pub s_uip: bool,
}

impl RTCUpdate {
    pub fn new() -> (r: RTCUpdate)
        ensures
            r.temp@ == Seq::<char>::empty(),
            !r.y_uip && !r.m_uip && !r.d_uip && !r.h_uip && !r.min_uip && !r.s_uip,
    {
        RTCUpdate {
            temp: Vec::new(),
            y_uip: false,
            m_uip: false,
            d_uip: false,
            h_uip: false,
            min_uip: false,
            s_uip: false,
        }
    }
}

/// A CAN data frame: its identifier and its data bytes (as many as its length).
pub struct DataFrame {
    pub id: u32,
    pub data: Vec<u8>,
}

/// A frame to send, with the tag under which a failed send is logged
/// (`None` when a failure is ignored).
pub struct Transmission {
    pub frame: DataFrame,
    pub tag: Option<FrameTag>,
}

/// The transmission carries a frame with identifier `id` and bytes `bytes`,
/// logged under `tag`.
pub open spec fn sends(t: Transmission, id: int, bytes: Seq<u8>, tag: Option<FrameTag>) -> bool {
    frame_is(t.frame, id, bytes) && t.tag == tag
}

/// The tag of frame `index` of the `period_ms` schedule.
pub open spec fn tag(period_ms: u16, index: u8) -> Option<FrameTag> {
    Some(FrameTag { period_ms, index })
}

/// `frame`, to be sent as frame `index` of the `period_ms` schedule.
pub fn tagged(frame: DataFrame, period_ms: u16, index: u8) -> (t: Transmission)
    ensures
        t.frame == frame,
        t.tag == tag(period_ms, index),
{
    Transmission { frame, tag: Some(FrameTag { period_ms, index }) }
}

/// A frame as it comes off the bus.
pub enum CanFrame {
    DataFrame(DataFrame),
    RemoteFrame(u32),
}

/// `n` zero bytes.
pub open spec fn zeros(n: nat) -> Seq<u8> {
    Seq::new(n, |i: int| 0u8)
}

/// The frame has identifier `id` and exactly the bytes `bytes`.
pub open spec fn frame_is(f: DataFrame, id: int, bytes: Seq<u8>) -> bool {
    f.id == id && f.data@ == bytes
}

/// `size` zero bytes: the data of a new frame.
pub fn frame_data(size: u8) -> (data: Vec<u8>)
    ensures
        data@ == zeros(size as nat),
{
    let data: Vec<u8> = vec![0u8; size as usize];
    assert(data@ =~= zeros(size as nat));
    data
}

/// The frame with base identifier `id` and bytes `data`.
pub fn base_frame(id: u16, data: Vec<u8>) -> (f: DataFrame)
    ensures
        frame_is(f, id as int, data@),
{
    DataFrame { id: id as u32, data }
}

/// A new frame with identifier `id` and `size` zero bytes.
pub fn zero_frame(id: u16, size: u8) -> (f: DataFrame)
    ensures
        frame_is(f, id as int, zeros(size as nat)),
{
    let data: Vec<u8> = vec![0u8; size as usize];
    assert(data@ =~= zeros(size as nat));
    DataFrame { id: id as u32, data }
}

} // verus!
