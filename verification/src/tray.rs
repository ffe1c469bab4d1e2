//! The state and the decisions of the system-tray icon: what it shows, the
//! menu it offers, how it follows the outcome of a request or of a poll of the
//! server, the notifications it raises, and where its icon theme is found.

use vstd::prelude::*;
use vstd::string::*;
use crate::config::{join_path, join_path_bytes, path_option_view};
use crate::icons::{shield_off_svg, shield_on_svg, shield_svg_for};
use crate::duration::{duration_label, format_duration};
use vstd::slice::slice_to_vec;

verus! {

/// An optional borrowed text, taken by its view.
pub open spec fn str_option_view(o: Option<&str>) -> Option<Seq<char>> {
    match o {
        Some(s) => Some(s@),
        None => None,
    }
}

/// A desktop notification: its summary line, body, icon name and how long it
/// stays up.
pub struct Notice {
    pub summary: String,
    pub body: String,
    pub icon: String,
    pub timeout_ms: u32,
}

pub open spec fn shield_icon_name(enabled: bool) -> Seq<char> {
    if enabled {
        "adguard-shield-on"@
    } else {
        "adguard-shield-off"@
    }
}

pub open spec fn notice_summary(enabled: bool, snooze_label: Option<Seq<char>>) -> Seq<char> {
    if enabled {
        "AdGuard Protection Enabled"@
    } else if snooze_label is Some {
        "AdGuard Protection Snoozed"@
    } else {
        "AdGuard Protection Disabled"@
    }
}

pub open spec fn notice_body(enabled: bool, snooze_label: Option<Seq<char>>) -> Seq<char> {
    if enabled {
        "DNS filtering is active"@
    } else if snooze_label is Some {
        "Disabled for "@ + snooze_label->0
    } else {
        "DNS filtering is off"@
    }
}

/// `n` is the notification for the new state `enabled`, after a snooze of
/// the given label where there is one.
pub open spec fn is_notice(n: Notice, enabled: bool, snooze_label: Option<Seq<char>>) -> bool {
    &&& n.summary@ == notice_summary(enabled, snooze_label)
    &&& n.body@ == notice_body(enabled, snooze_label)
    &&& n.icon@ == shield_icon_name(enabled)
    &&& n.timeout_ms == 3000
}

fn shield_icon(enabled: bool) -> (r: String)
    ensures
        r@ == shield_icon_name(enabled),
{
    if enabled {
        String::from_str("adguard-shield-on")
    } else {
        String::from_str("adguard-shield-off")
    }
}

/// The notification that reports a change of protection.
pub fn notify_status(enabled: bool, snooze_label: Option<&str>) -> (n: Notice)
    ensures
        is_notice(n, enabled, str_option_view(snooze_label)),
{
    let (summary, body) = if enabled {
        (String::from_str("AdGuard Protection Enabled"), String::from_str("DNS filtering is active"))
    } else {
        match snooze_label {
            Some(dur) => {
                let mut body = String::from_str("Disabled for ");
                body.append(dur);
                (String::from_str("AdGuard Protection Snoozed"), body)
            },
            None => (
                String::from_str("AdGuard Protection Disabled"),
                String::from_str("DNS filtering is off"),
            ),
        }
    };
    Notice { summary, body, icon: shield_icon(enabled), timeout_ms: 3000 }
}

/// What a menu entry does when chosen.
#[derive(Clone, Copy, Debug, PartialEq, Eq, Structural)]
pub enum TrayAction {
    Toggle,
    /// Snooze for that many milliseconds.
    Snooze(u64),
    OpenWebUi,
    Quit,
}

#[derive(Debug)]
pub enum MenuEntry {
    Standard { label: String, action: TrayAction },
    Separator,
}

pub open spec fn is_item(e: MenuEntry, label: Seq<char>, action: TrayAction) -> bool {
    match e {
        MenuEntry::Standard { label: l, action: a } => l@ == label && a == action,
        MenuEntry::Separator => false,
    }
}

pub open spec fn toggle_label(protected: bool) -> Seq<char> {
    if protected {
        "Disable Protection"@
    } else {
        "Enable Protection"@
    }
}

/// The state after a toggle request for `requested`: it is taken only when
/// the server accepted it.
pub open spec fn after_toggle(protected: bool, requested: bool, succeeded: bool) -> bool {
    if succeeded {
        requested
    } else {
        protected
    }
}

/// The state after a poll that read `server` (nothing when the poll failed).
pub open spec fn after_poll(protected: bool, server: Option<bool>) -> bool {
    match server {
        Some(b) => b,
        None => protected,
    }
}

/// Whether a poll changes what the icon shows.
pub open spec fn poll_changes(protected: bool, server: Option<bool>) -> bool {
    match server {
        Some(b) => b != protected,
        None => false,
    }
}

fn item(label: &str, action: TrayAction) -> (e: MenuEntry)
    ensures
        is_item(e, label@, action),
{
    MenuEntry::Standard { label: String::from_str(label), action }
}

/// The tray icon: whether protection is on as far as it knows, and the
/// directory of its icon theme.
pub struct AdGuardTray {
    pub protected: bool,
    pub icon_dir: String,
}

impl AdGuardTray {
    pub fn new(protected: bool, icon_dir: String) -> (t: Self)
        ensures
            t.protected == protected,
            t.icon_dir == icon_dir,
    {
        AdGuardTray { protected, icon_dir }
    }

    pub fn id(&self) -> (r: String)
        ensures
            r@ == "adguard-home-toggle"@,
    {
        String::from_str("adguard-home-toggle")
    }

    pub fn icon_theme_path(&self) -> (r: String)
        ensures
            r@ == self.icon_dir@,
    {
        self.icon_dir.clone()
    }

    pub fn icon_name(&self) -> (r: String)
        ensures
            r@ == shield_icon_name(self.protected),
    {
        shield_icon(self.protected)
    }

    /// The built-in shield drawing for the current state, for the tray's
    /// own pixmap: no installed icon theme is needed.
    pub fn icon_svg(&self) -> (r: &'static str)
        ensures
            r@ == shield_svg_for(self.protected),
    {
        if self.protected {
            shield_on_svg()
        } else {
            shield_off_svg()
        }
    }

    pub fn title(&self) -> (r: String)
        ensures
            r@ == "AdGuard Home"@,
    {
        String::from_str("AdGuard Home")
    }

    /// The title of the tool tip.
    pub fn tool_tip(&self) -> (r: String)
        ensures
            r@ == (if self.protected {
                "Protection: ON"@
            } else {
                "Protection: OFF"@
            }),
    {
        if self.protected {
            String::from_str("Protection: ON")
        } else {
            String::from_str("Protection: OFF")
        }
    }

    /// What a click on the icon, or the first menu entry, asks the server
    /// for: the opposite of the current state.
    pub fn toggle_target(&self) -> (r: bool)
        ensures
            r == !self.protected,
    {
        !self.protected
    }

    /// Takes the outcome of a request that asked for `requested`: on success
    /// the state follows and a notification is due.
    pub fn apply_toggle(&mut self, requested: bool, succeeded: bool) -> (n: Option<Notice>)
        ensures
            final(self).protected == after_toggle(old(self).protected, requested, succeeded),
            final(self).icon_dir == old(self).icon_dir,
            succeeded <==> n is Some,
            n matches Some(notice) ==> is_notice(notice, requested, None),
    {
        if succeeded {
            self.protected = requested;
            Some(notify_status(requested, None))
        } else {
            None
        }
    }

    /// Takes the outcome of a snooze of `duration_ms`: on success protection
    /// is off and a notification names the duration.
    pub fn snooze_handler(&mut self, duration_ms: u64, succeeded: bool) -> (n: Option<Notice>)
        ensures
            final(self).protected == (if succeeded {
                false
            } else {
                old(self).protected
            }),
            final(self).icon_dir == old(self).icon_dir,
            succeeded <==> n is Some,
            n matches Some(notice) ==> is_notice(notice, false, Some(duration_label(duration_ms))),
    {
        if succeeded {
            self.protected = false;
            let label = format_duration(duration_ms);
            Some(notify_status(false, Some(label.as_str())))
        } else {
            None
        }
    }

    /// Takes the outcome of a poll of the server; answers whether the icon
    /// must be redrawn.
    pub fn poll(&mut self, server: Option<bool>) -> (refresh: bool)
        ensures
            final(self).protected == after_poll(old(self).protected, server),
            final(self).icon_dir == old(self).icon_dir,
            refresh == poll_changes(old(self).protected, server),
            refresh == (server is Some && server->0 != old(self).protected),
            server is Some ==> final(self).protected == server->0,
            server is None ==> final(self).protected == old(self).protected,
    {
        match server {
            Some(b) => {
                if b != self.protected {
                    self.protected = b;
                    true
                } else {
                    false
                }
            },
            None => false,
        }
    }

    /// The context menu: toggle, four snoozes, the web UI and quit, with
    /// separators between the groups.
    pub fn menu(&self) -> (m: Vec<MenuEntry>)
        ensures
            m@.len() == 10,
            is_item(m@[0], toggle_label(self.protected), TrayAction::Toggle),
            m@[1] is Separator,
            is_item(m@[2], "Snooze 1 minute"@, TrayAction::Snooze(60_000)),
            is_item(m@[3], "Snooze 10 minutes"@, TrayAction::Snooze(600_000)),
            is_item(m@[4], "Snooze 1 hour"@, TrayAction::Snooze(3_600_000)),
            is_item(m@[5], "Snooze 8 hours"@, TrayAction::Snooze(28_800_000)),
            m@[6] is Separator,
            is_item(m@[7], "Open Web UI"@, TrayAction::OpenWebUi),
            m@[8] is Separator,
            is_item(m@[9], "Quit"@, TrayAction::Quit),
    {
        let toggle = if self.protected {
            item("Disable Protection", TrayAction::Toggle)
        } else {
            item("Enable Protection", TrayAction::Toggle)
        };
        let mut m: Vec<MenuEntry> = Vec::new();
        m.push(toggle);
        m.push(MenuEntry::Separator);
        m.push(item("Snooze 1 minute", TrayAction::Snooze(60_000)));
        m.push(item("Snooze 10 minutes", TrayAction::Snooze(10 * 60_000)));
        m.push(item("Snooze 1 hour", TrayAction::Snooze(60 * 60_000)));
        m.push(item("Snooze 8 hours", TrayAction::Snooze(8 * 60 * 60_000)));
        m.push(MenuEntry::Separator);
        m.push(item("Open Web UI", TrayAction::OpenWebUi));
        m.push(MenuEntry::Separator);
        m.push(item("Quit", TrayAction::Quit));
        m
    }
}

/// The directories where the icon theme may be, in the order they are tried:
/// under the user's data directory, next to the program, then "icons".
pub open spec fn icon_dir_candidates_for(
    data_dir: Option<Seq<u8>>,
    exe_dir: Option<Seq<u8>>,
) -> Seq<Seq<u8>> {
    let a = match data_dir {
        Some(d) => seq![join_path(d, "adguard-home-toggle/icons".spec_bytes())],
        None => Seq::empty(),
    };
    let b = match exe_dir {
        Some(e) => seq![join_path(e, "icons".spec_bytes())],
        None => Seq::empty(),
    };
    a + b + seq!["icons".spec_bytes()]
}

pub open spec fn paths_view(v: Seq<Vec<u8>>) -> Seq<Seq<u8>> {
    v.map_values(|p: Vec<u8>| p@)
}

/// The candidate directories for the given data directory and the
/// directory of the program (paths as the bytes of their `OsStr`).
pub fn icon_dir_candidates_from(data_dir: Option<Vec<u8>>, exe_dir: Option<Vec<u8>>) -> (r: Vec<
    Vec<u8>,
>)
    ensures
        paths_view(r@) == icon_dir_candidates_for(
            path_option_view(data_dir),
            path_option_view(exe_dir),
        ),
{
    let ghost dv = path_option_view(data_dir);
    let ghost ev = path_option_view(exe_dir);
    let mut r: Vec<Vec<u8>> = Vec::new();
    match data_dir {
        Some(d) => {
            r.push(join_path_bytes(d.as_slice(), "adguard-home-toggle/icons".as_bytes()));
        },
        None => {},
    }
    let ghost ra = paths_view(r@);
    assert(ra =~= match dv {
        Some(d) => seq![join_path(d, "adguard-home-toggle/icons".spec_bytes())],
        None => Seq::<Seq<u8>>::empty(),
    });
    match exe_dir {
        Some(e) => {
            r.push(join_path_bytes(e.as_slice(), "icons".as_bytes()));
        },
        None => {},
    }
    let ghost rb = paths_view(r@);
    assert(rb =~= ra + match ev {
        Some(e) => seq![join_path(e, "icons".spec_bytes())],
        None => Seq::<Seq<u8>>::empty(),
    });
    r.push(slice_to_vec("icons".as_bytes()));
    assert(paths_view(r@) =~= rb + seq!["icons".spec_bytes()]);
    r
}

/// Calls `dirs::data_dir`, which reads the environment (XDG_DATA_HOME, HOME)
/// and gives the user's data directory, if one can be found; the path is
/// handed back as the bytes of its `OsString`. Nothing is promised of the
/// outcome: it depends on the environment.
#[verifier::external_body]
fn user_data_dir() -> (r: Option<Vec<u8>>) {
    dirs::data_dir().map(|p| p.into_os_string().into_encoded_bytes())
}

/// The candidate directories of the icon theme, for the directory of the
/// program (`None` where it is unknown).
pub fn icon_dir_candidates(exe_dir: Option<Vec<u8>>) -> (r: Vec<Vec<u8>>)
    ensures
        exists|data_dir: Option<Seq<u8>>|
            paths_view(r@) == #[trigger] icon_dir_candidates_for(
                data_dir,
                path_option_view(exe_dir),
            ),
{
    let data_dir = user_data_dir();
    let ghost dv = path_option_view(data_dir);
    let ghost ev = path_option_view(exe_dir);
    let r = icon_dir_candidates_from(data_dir, exe_dir);
    assert(paths_view(r@) == icon_dir_candidates_for(dv, ev));
    r
}

pub open spec fn icon_probe_of(dir: Seq<u8>) -> Seq<u8> {
    join_path(dir, "hicolor/scalable/apps/adguard-shield-on.svg".spec_bytes())
}

/// The file whose presence shows that `dir` holds the icon theme.
pub fn icon_probe_path(dir: &[u8]) -> (r: Vec<u8>)
    ensures
        r@ == icon_probe_of(dir@),
{
    join_path_bytes(dir, "hicolor/scalable/apps/adguard-shield-on.svg".as_bytes())
}

/// The first candidate that holds the theme, or "icons" when none does.
pub open spec fn chosen_icon_dir(candidates: Seq<Seq<u8>>, present: Seq<bool>) -> Seq<u8>
    decreases candidates.len(),
{
    if candidates.len() == 0 || present.len() == 0 {
        "icons".spec_bytes()
    } else if present[0] {
        candidates[0]
    } else {
        chosen_icon_dir(candidates.drop_first(), present.drop_first())
    }
}

/// Picks the icon directory: `present[i]` tells whether the probe file of
/// `candidates[i]` exists.
pub fn find_icon_dir(candidates: &Vec<Vec<u8>>, present: &Vec<bool>) -> (r: Vec<u8>)
    requires
        candidates.len() == present.len(),
    ensures
        r@ == chosen_icon_dir(paths_view(candidates@), present@),
{
    let n = candidates.len();
    let mut i: usize = 0;
    assert(paths_view(candidates@).subrange(0, n as int) =~= paths_view(candidates@));
    assert(present@.subrange(0, n as int) =~= present@);
    while i < n
        invariant
            i <= n,
            n == candidates.len(),
            n == present.len(),
            chosen_icon_dir(paths_view(candidates@), present@) == chosen_icon_dir(
                paths_view(candidates@).subrange(i as int, n as int),
                present@.subrange(i as int, n as int),
            ),
        decreases n - i,
    {
        let ghost cs = paths_view(candidates@).subrange(i as int, n as int);
        let ghost ps = present@.subrange(i as int, n as int);
        assert(cs[0] == candidates@[i as int]@);
        assert(ps[0] == present@[i as int]);
        if present[i] {
            return slice_to_vec(candidates[i].as_slice());
        }
        assert(cs.drop_first() =~= paths_view(candidates@).subrange(i + 1, n as int));
        assert(ps.drop_first() =~= present@.subrange(i + 1, n as int));
        i = i + 1;
    }
    slice_to_vec("icons".as_bytes())
}

/// A poll asks for a redraw exactly when the server reports a state other
/// than the one held, in either direction, and the state then follows the
/// server; a failed poll changes nothing and redraws nothing.
pub proof fn lemma_poll_redraws_on_any_change(protected: bool, reported: bool)
    ensures
        poll_changes(protected, Some(reported)) <==> reported != protected,
        poll_changes(false, Some(true)),
        poll_changes(true, Some(false)),
        after_poll(protected, Some(reported)) == reported,
        !poll_changes(protected, None),
        after_poll(protected, None) == protected,
{
}

/// A toggle request takes effect exactly when the server accepted it: the
/// state becomes what was asked for; otherwise it stays.
pub proof fn lemma_toggle_outcome(protected: bool, requested: bool)
    ensures
        after_toggle(protected, requested, true) == requested,
        after_toggle(protected, requested, false) == protected,
        after_toggle(protected, !protected, true) != protected,
{
}

/// The notifications: turning on says filtering is active; turning off says
/// it is off; a snooze names its duration after "Disabled for ". The icon is
/// the on-shield exactly when protection is on.
pub proof fn lemma_notice_texts(label: Seq<char>)
    ensures
        notice_summary(true, None) == "AdGuard Protection Enabled"@,
        notice_body(true, Some(label)) == "DNS filtering is active"@,
        notice_summary(false, None) == "AdGuard Protection Disabled"@,
        notice_body(false, None) == "DNS filtering is off"@,
        notice_summary(false, Some(label)) == "AdGuard Protection Snoozed"@,
        notice_body(false, Some(label)) == "Disabled for "@ + label,
        shield_icon_name(true) == "adguard-shield-on"@,
        shield_icon_name(false) == "adguard-shield-off"@,
        toggle_label(true) == "Disable Protection"@,
        toggle_label(false) == "Enable Protection"@,
{
}

/// Two successful toggles bring the icon back to where it was.
pub proof fn lemma_toggle_twice(protected: bool)
    ensures
        ({
            let once = after_toggle(protected, !protected, true);
            after_toggle(once, !once, true) == protected
        }),
{
}

/// A request that fails leaves the state as it was, whatever was asked.
pub proof fn lemma_failed_request_keeps_state(protected: bool, requested: bool)
    ensures
        after_toggle(protected, requested, false) == protected,
{
}

/// After a poll, the icon shows what the server reported, and polling the
/// same answer again redraws nothing.
pub proof fn lemma_poll_settles(protected: bool, server: Option<bool>)
    ensures
        server matches Some(b) ==> after_poll(protected, server) == b,
        !poll_changes(after_poll(protected, server), server),
{
}

} // verus!
