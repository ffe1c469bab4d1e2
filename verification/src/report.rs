//! What the commands print, and what the on-screen display shows.

use vstd::prelude::*;
use vstd::string::*;
use crate::api::Status;
use crate::icons::{shield_off_svg, shield_on_svg, shield_svg_for};
use crate::text::{decimal, decimal_string};

verus! {

/// The line of the `status` command.
pub open spec fn status_line_of(s: Status) -> Seq<char> {
    if s.protection_enabled {
        "Protection: ENABLED"@
    } else if s.protection_disabled_duration > 0 {
        let secs = s.protection_disabled_duration / 1000;
        "Protection: SNOOZED ("@ + decimal((secs / 60) as nat) + "m "@ + decimal(
            (secs % 60) as nat,
        ) + "s remaining)"@
    } else {
        "Protection: DISABLED"@
    }
}

/// Describes the protection state: on, snoozed with the whole minutes and
/// seconds left, or off.
pub fn status_line(status: &Status) -> (r: String)
    ensures
        r@ == status_line_of(*status),
{
    if status.protection_enabled {
        String::from_str("Protection: ENABLED")
    } else if status.protection_disabled_duration > 0 {
        let remaining_secs = status.protection_disabled_duration / 1000;
        let mins = remaining_secs / 60;
        let secs = remaining_secs % 60;
        let mut r = String::from_str("Protection: SNOOZED (");
        let m = decimal_string(mins);
        r.append(m.as_str());
        r.append("m ");
        let s = decimal_string(secs);
        r.append(s.as_str());
        r.append("s remaining)");
        r
    } else {
        String::from_str("Protection: DISABLED")
    }
}

/// The state that `toggle` asks the server for: the opposite of the one it
/// reported.
pub fn toggled_state(status: &Status) -> (r: bool)
    ensures
        r == !status.protection_enabled,
{
    !status.protection_enabled
}

/// What a command that changed the protection reports: the line it prints
/// and what the on-screen display shows.
pub struct Report {
    pub line: String,
    pub osd_enabled: bool,
    pub osd_subtitle: String,
}

pub open spec fn state_line(enabled: bool) -> Seq<char> {
    if enabled {
        "Protection: ENABLED"@
    } else {
        "Protection: DISABLED"@
    }
}

pub open spec fn filtering_text(enabled: bool) -> Seq<char> {
    if enabled {
        "DNS filtering is active"@
    } else {
        "DNS filtering is off"@
    }
}

/// The report of `toggle` once protection is `new_state`.
pub fn toggle_report(new_state: bool) -> (r: Report)
    ensures
        r.line@ == state_line(new_state),
        r.osd_enabled == new_state,
        r.osd_subtitle@ == filtering_text(new_state),
{
    if new_state {
        Report {
            line: String::from_str("Protection: ENABLED"),
            osd_enabled: true,
            osd_subtitle: String::from_str("DNS filtering is active"),
        }
    } else {
        Report {
            line: String::from_str("Protection: DISABLED"),
            osd_enabled: false,
            osd_subtitle: String::from_str("DNS filtering is off"),
        }
    }
}

/// The report of `snooze`; `duration` is the argument as it was given.
pub fn snooze_report(duration: &str) -> (r: Report)
    ensures
        r.line@ == "Protection snoozed for "@ + duration@,
        r.osd_enabled == false,
        r.osd_subtitle@ == "Snoozed for "@ + duration@,
{
    let mut line = String::from_str("Protection snoozed for ");
    line.append(duration);
    let mut sub = String::from_str("Snoozed for ");
    sub.append(duration);
    Report { line, osd_enabled: false, osd_subtitle: sub }
}

/// The on-screen display: a shield, a title, and a subtitle where one is
/// given.
pub struct OsdContent {
    pub svg: &'static str,
    pub title: String,
    pub subtitle: Option<String>,
}

/// What the display shows for the state `enabled` and the text `subtitle`;
/// an empty subtitle is left out.
pub fn osd_content(enabled: bool, subtitle: &str) -> (c: OsdContent)
    ensures
        c.svg@ == shield_svg_for(enabled),
        c.title@ == (if enabled {
            "Protection On"@
        } else {
            "Protection Off"@
        }),
        subtitle@.len() == 0 <==> c.subtitle is None,
        c.subtitle matches Some(s) ==> s@ == subtitle@,
{
    let svg = if enabled {
        shield_on_svg()
    } else {
        shield_off_svg()
    };
    let title = if enabled {
        String::from_str("Protection On")
    } else {
        String::from_str("Protection Off")
    };
    let sub = if subtitle.unicode_len() == 0 {
        None
    } else {
        Some(String::from_str(subtitle))
    };
    OsdContent { svg, title, subtitle: sub }
}

/// The `status` line names the state: on, off, or snoozed with the time
/// left split into whole minutes `m` and the seconds `s` below a minute,
/// that is `60 * m + s` whole seconds.
pub proof fn lemma_status_line_meaning(st: Status, m: nat, s: nat)
    ensures
        st.protection_enabled ==> status_line_of(st) == "Protection: ENABLED"@,
        !st.protection_enabled && st.protection_disabled_duration == 0 ==> status_line_of(st)
            == "Protection: DISABLED"@,
        !st.protection_enabled && st.protection_disabled_duration > 0 && s < 60 && 60 * m + s
            == st.protection_disabled_duration / 1000 ==> status_line_of(st)
            == "Protection: SNOOZED ("@ + decimal(m) + "m "@ + decimal(s) + "s remaining)"@,
{
    let secs = st.protection_disabled_duration / 1000;
    if s < 60 && 60 * m + s == secs {
        assert(m == secs / 60 && s == secs % 60) by (nonlinear_arith)
            requires
                s < 60,
                60 * m + s == secs,
        ;
    }
}

/// After a toggle, the line printed is the line that `status` prints for
/// the new state when no snooze is running.
pub proof fn lemma_toggle_line_is_status_line(new_state: bool)
    ensures
        state_line(new_state) == status_line_of(
            Status { protection_enabled: new_state, protection_disabled_duration: 0 },
        ),
{
}

} // verus!
