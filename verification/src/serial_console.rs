//! What the serial console shows on each refresh.
use vstd::prelude::*;
use crate::types::{CPState, CPVerEnum, LEDStateEnum, RTCUpdate};

verus! {

/// The clock-setting page: drawn only on the first four of every ten refreshes.
pub struct RtcPage {
    /// Where the cursor goes on the entry line while an entry is in progress
    /// (`None`: print the prompt for the item to modify).
    pub cursor: Option<usize>,
}

/// The verbose statistics page.
pub struct VerboseView {
    /// Redraw the command list and the activity frame first.
    pub header: bool,
    /// Redraw the activity entries.
    pub activity: bool,
    /// Redraw the firmware line, naming this firmware year.
    pub version_year: Option<u16>,
    /// The colour codes of the letters R, A, I, N, B, O, W in rainbow mode.
    pub rainbow: Option<[u16; 7]>,
}

/// The quiet status line.
pub struct QuietView {
    /// Print the command list first.
    pub menu: bool,
    /// Print the hint about verbose mode and the menu first.
    pub hint: bool,
}

/// What one refresh of the console draws.
pub enum ConsoleScreen {
    SetRtc(Option<RtcPage>),
    Verbose(VerboseView),
    Quiet(QuietView),
    Nothing,
}

/// The header is redrawn every 3000 refreshes, or when asked for.
pub open spec fn header_due(s: CPState, ten_ms_counter: u16) -> bool {
    ten_ms_counter % 3000 == 0 || s.console.quiet_to_verbose
}

/// The year that names firmware `fw` on the console.
pub open spec fn fw_year(fw: CPVerEnum) -> u16 {
    if fw == CPVerEnum::Fw2020 {
        2020
    } else if fw == CPVerEnum::Fw2019 {
        2019
    } else {
        2018
    }
}

/// The colour code of rainbow letter `k` (0 for R .. 6 for W) at refresh `counter`:
/// the colours turn every four refreshes.
pub open spec fn rainbow_colour(counter: u16, k: int) -> u16 {
    let res = (counter % 112) / 4;
    (31 + ((res + 6 - k) % 7)) as u16
}

/// The colour codes of rainbow mode at refresh `counter`.
pub fn rainbow_colours(ten_ms_counter: u16) -> (c: [u16; 7])
    ensures
        forall|k: int| 0 <= k < 7 ==> c@[k] == rainbow_colour(ten_ms_counter, k),
{
    let res: u16 = (ten_ms_counter % 112) >> 2;
    assert(res == (ten_ms_counter % 112) / 4) by (bit_vector)
        requires
            res == (ten_ms_counter % 112) >> 2,
    ;
    let c: [u16; 7] = [
        31 + ((res + 6) % 7),
        31 + ((res + 5) % 7),
        31 + ((res + 4) % 7),
        31 + ((res + 3) % 7),
        31 + ((res + 2) % 7),
        31 + ((res + 1) % 7),
        31 + ((res + 0) % 7),
    ];
    c
}

/// Decides what the console draws on refresh `ten_ms_counter`: the clock page
/// while the clock is set; in verbose mode the statistics page (activity every
/// ten refreshes, firmware every fifty); otherwise a status line every fifty.
pub fn serial_console(cp_state: &CPState, ten_ms_counter: u16, rtc_data: &RTCUpdate) -> (r:
    ConsoleScreen)
    requires
        rtc_data.temp@.len() + 23 <= usize::MAX,
    ensures
        cp_state.console.rtc_update ==> r == ConsoleScreen::SetRtc(
            spec_set_rtc(*rtc_data, ten_ms_counter),
        ),
        !cp_state.console.rtc_update && cp_state.console.verbose_stats ==> (r matches ConsoleScreen::Verbose(
            v,
        ) && {
            &&& v.header == header_due(*cp_state, ten_ms_counter)
            &&& v.activity == (ten_ms_counter % 10 <= 3)
            &&& v.version_year == (if ten_ms_counter % 50 <= 3 {
                Some(fw_year(cp_state.link.fw_ver))
            } else {
                None
            })
            &&& (cp_state.vehicle.desired_cp_led_state == LEDStateEnum::Rainbow)
                == v.rainbow is Some
            &&& (v.rainbow matches Some(c) ==> forall|k: int|
                0 <= k < 7 ==> c@[k] == rainbow_colour(ten_ms_counter, k))
        }),
        !cp_state.console.rtc_update && !cp_state.console.verbose_stats ==> (if ten_ms_counter % 50
            <= 3 {
            r matches ConsoleScreen::Quiet(q) && q.menu == cp_state.console.print_menu_request
                && q.hint == (!cp_state.console.print_menu_request && header_due(
                *cp_state,
                ten_ms_counter,
            ))
        } else {
            r is Nothing
        }),
{
    let verbose_console = cp_state.console.verbose_stats;
    let print_header = ten_ms_counter % 3000 == 0 || cp_state.console.quiet_to_verbose;
    let print_menu = cp_state.console.print_menu_request;
    if cp_state.console.rtc_update {
        ConsoleScreen::SetRtc(set_rtc(rtc_data, ten_ms_counter))
    } else if verbose_console {
        let version_year: Option<u16> = if ten_ms_counter % 50 <= 3 {
            Some(
                if cp_state.link.fw_ver == CPVerEnum::Fw2020 {
                    2020
                } else if cp_state.link.fw_ver == CPVerEnum::Fw2019 {
                    2019
                } else {
                    2018
                },
            )
        } else {
            None
        };
        let rainbow: Option<[u16; 7]> = match cp_state.vehicle.desired_cp_led_state {
            LEDStateEnum::Rainbow => Some(rainbow_colours(ten_ms_counter)),
            _ => None,
        };
        ConsoleScreen::Verbose(
            VerboseView {
                header: print_header,
                activity: ten_ms_counter % 10 <= 3,
                version_year,
                rainbow,
            },
        )
    } else if ten_ms_counter % 50 <= 3 {
        ConsoleScreen::Quiet(QuietView { menu: print_menu, hint: !print_menu && print_header })
    } else {
        ConsoleScreen::Nothing
    }
}

/// The clock page at refresh `counter`, if it is drawn.
pub open spec fn spec_set_rtc(r: RTCUpdate, counter: u16) -> Option<RtcPage> {
    if counter % 10 <= 3 {
        let uip = r.y_uip || r.m_uip || r.d_uip || r.h_uip || r.min_uip || r.s_uip;
        Some(
            RtcPage {
                cursor: if uip {
                    Some((r.temp@.len() + 23) as usize)
                } else {
                    None
                },
            },
        )
    } else {
        None
    }
}

/// The clock page on refresh `ten_ms_counter`: drawn on four of every ten
/// refreshes, with the cursor after the entry in progress, if any.
pub fn set_rtc(rtc_data: &RTCUpdate, ten_ms_counter: u16) -> (r: Option<RtcPage>)
    requires
        rtc_data.temp@.len() + 23 <= usize::MAX,
    ensures
        r == spec_set_rtc(*rtc_data, ten_ms_counter),
{
    if ten_ms_counter % 10 <= 3 {
        let date_uip = rtc_data.y_uip || rtc_data.m_uip || rtc_data.d_uip;
        let time_uip = rtc_data.h_uip || rtc_data.min_uip || rtc_data.s_uip;
        if date_uip || time_uip {
            Some(RtcPage { cursor: Some(rtc_data.temp.len() + 23) })
        } else {
            Some(RtcPage { cursor: None })
        }
    } else {
        None
    }
}

/// The command list, as printed lines; the verbose page clears the screen
/// first and adds the activity frame.
pub fn print_header_to_serial(verbose_console: bool) -> (lines: Vec<&'static str>)
    ensures
        lines@ =~= (if verbose_console {
            seq!["\x1B[2J\x1B[HCommands: "]
        } else {
            seq!["Commands: "]
        }) + command_lines() + (if verbose_console {
            footer_lines()
        } else {
            Seq::<&'static str>::empty()
        }),
{
    let mut lines: Vec<&'static str> = Vec::new();
    if verbose_console {
        lines.push("\x1B[2J\x1B[HCommands: ");
    } else {
        lines.push("Commands: ");
    }
    lines.push("a / A - Enable / Disable charging auto-start.");
    lines.push("c / C - Start / End Charge.");
    lines.push("d / D - Open / Close door.");
    lines.push("e - Clear / rEfresh the screen.");
    lines.push("l / L - Lock / Unlock doors.");
    lines.push("m - Show menu with verbose disabled.");
    lines.push("r / R - Start / End Rainbow / Rave mode.");
    lines.push("s - Set the date and time.");
    lines.push("v / V - Enable / Disable verbose.");
    if verbose_console {
        let mut footer = verbose_footer();
        lines.append(&mut footer);
    }
    lines
}

/// The lines that list the commands.
pub open spec fn command_lines() -> Seq<&'static str> {
    seq![
        "a / A - Enable / Disable charging auto-start.",
        "c / C - Start / End Charge.",
        "d / D - Open / Close door.",
        "e - Clear / rEfresh the screen.",
        "l / L - Lock / Unlock doors.",
        "m - Show menu with verbose disabled.",
        "r / R - Start / End Rainbow / Rave mode.",
        "s - Set the date and time.",
        "v / V - Enable / Disable verbose.",
    ]
}

/// The lines of the activity frame.
pub open spec fn footer_lines() -> Seq<&'static str> {
    seq![
        "Command? ",
        "",
        "                          Activity",
        "+--------------------------------------------------------------+",
        "|                                                              |",
        "|                                                              |",
        "|                                                              |",
        "|                                                              |",
        "+--------------------------------------------------------------+",
    ]
}

/// The command prompt and the empty activity frame, as printed lines.
pub fn verbose_footer() -> (lines: Vec<&'static str>)
    ensures
        lines@ =~= footer_lines(),
{
    let mut lines: Vec<&'static str> = Vec::new();
    lines.push("Command? ");
    lines.push("");
    lines.push("                          Activity");
    lines.push("+--------------------------------------------------------------+");
    lines.push("|                                                              |");
    lines.push("|                                                              |");
    lines.push("|                                                              |");
    lines.push("|                                                              |");
    lines.push("+--------------------------------------------------------------+");
    lines
}

} // verus!
