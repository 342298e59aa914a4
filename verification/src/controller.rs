//! The tray's decisions: manual and automatic toggling of Do Not Disturb,
//! the meeting poll with its debouncing, menu events, and what the tray
//! and its menu show.
//!
//! The caller owns one `HushState` (and one `MeetingPoll` for the poll
//! loop), performs what the decisions name (running a backend operation,
//! showing a window, spawning the poll loop) and reports back.
use crate::command::{command, CommandSpec, CommandView, Launch};
use crate::dnd::Platform;
use crate::text::str_equals;
use vstd::prelude::*;

verus! {

/// Polls in a row that must see a meeting before Do Not Disturb goes on
/// automatically (about 6 s at one poll every 3 s).
pub const DEBOUNCE_ON_COUNT: u32 = 2;

/// Polls in a row that must see no meeting before an automatic Do Not
/// Disturb goes off again (about 30 s), so that a muted microphone or a
/// window title that does not name the meeting does not end it early.
pub const DEBOUNCE_OFF_COUNT: u32 = 10;

/// Seconds between two polls.
pub const POLL_INTERVAL_SECS: u64 = 3;

/// A gap between polls longer than this means the machine was asleep.
pub const WAKE_GAP_SECS: u64 = 30;

/// The tray's flags.
#[derive(PartialEq, Eq, Structural, Clone, Copy, Debug)]
pub struct HushState {
    /// Do Not Disturb is on, or is being switched on.
    pub hushed: bool,
    /// Play a sound after each switch.
    pub play_sound: bool,
    /// Switch Do Not Disturb on automatically during calls.
    pub auto_dnd_on_calls: bool,
    /// The meeting poll, not the user, switched Do Not Disturb on.
    pub auto_hushed: bool,
    /// The user toggled by hand during a meeting; automatic switching rests
    /// until the meeting is over.
    pub manual_override: bool,
    /// The meeting poll loop has been started.
    pub poll_started: bool,
    /// A switch is running; no second one may start.
    pub toggle_in_progress: bool,
}

/// The flags when the tray starts.
pub open spec fn initial_state() -> HushState {
    HushState {
        hushed: false,
        play_sound: true,
        auto_dnd_on_calls: true,
        auto_hushed: false,
        manual_override: false,
        poll_started: false,
        toggle_in_progress: false,
    }
}

/// Whether the user still has to create shortcuts: unless both exist.
pub open spec fn setup_needed(has_on: bool, has_off: bool) -> bool {
    !(has_on && has_off)
}

/// What a toggle request leads to.
#[derive(PartialEq, Eq, Structural, Clone, Copy, Debug)]
pub enum ToggleAction {
    /// Shortcuts are missing and the user asked by hand: show the setup window.
    ShowSetup,
    /// Nothing to switch.
    Skip,
    /// Show the loading icon, switch Do Not Disturb to this state, and
    /// report the result with `finish_toggle`.
    Switch(bool),
}

/// The decision on a toggle request.
#[derive(PartialEq, Eq, Structural, Clone, Copy, Debug)]
pub struct ToggleDecision {
    /// The meeting poll loop must be launched now.
    pub start_poll: bool,
    pub action: ToggleAction,
}

/// The state after claiming the poll loop, and whether it must be launched.
pub open spec fn claim_poll(s: HushState) -> (HushState, bool) {
    (HushState { poll_started: true, ..s }, !s.poll_started)
}

/// The state to switch to: the requested one, or the opposite of the
/// current one for a manual toggle.
pub open spec fn toggle_target(s: HushState, force_state: Option<bool>) -> bool {
    match force_state {
        Some(f) => f,
        None => !s.hushed,
    }
}

/// A toggle request: `force_state` is `None` for a manual toggle and
/// `Some(state)` for an automatic one; `shortcuts_ready` says whether both
/// shortcuts exist (checked just before).
///
/// Without shortcuts, an automatic request changes nothing but the record
/// of automatic switching (so the poll retries), and a manual one shows the
/// setup window. Otherwise the poll loop is started if it is not yet
/// running; a request for the current state, or one made while a switch
/// is running, is skipped (an automatic one then records the target as not
/// reached). A manual switch pauses automatic switching for the meeting.
pub open spec fn toggle_next(s: HushState, force_state: Option<bool>, shortcuts_ready: bool) -> (
    HushState,
    ToggleDecision,
) {
    if !shortcuts_ready {
        match force_state {
            Some(f) => (
                HushState { auto_hushed: !f, ..s },
                ToggleDecision { start_poll: false, action: ToggleAction::Skip },
            ),
            None => (s, ToggleDecision { start_poll: false, action: ToggleAction::ShowSetup }),
        }
    } else {
        let (s1, start_poll) = claim_poll(s);
        let target = toggle_target(s, force_state);
        if target == s.hushed {
            (s1, ToggleDecision { start_poll, action: ToggleAction::Skip })
        } else if s.toggle_in_progress {
            (
                if force_state is Some {
                    HushState { auto_hushed: !target, ..s1 }
                } else {
                    s1
                },
                ToggleDecision { start_poll, action: ToggleAction::Skip },
            )
        } else {
            let s2 = if force_state is None {
                HushState { manual_override: true, auto_hushed: false, ..s1 }
            } else {
                s1
            };
            (
                HushState { hushed: target, toggle_in_progress: true, ..s2 },
                ToggleDecision { start_poll, action: ToggleAction::Switch(target) },
            )
        }
    }
}

/// What the tray shows once a switch is over.
#[derive(PartialEq, Eq, Structural, Clone, Copy, Debug)]
pub struct ToggleFeedback {
    /// Show the tray and menu for this state.
    pub shown_hushed: bool,
    /// Play the switch sound for `shown_hushed`.
    pub play_sound: bool,
}

/// The end of a switch to `target`: on success the new state stays (and a
/// sound may play); on failure the state goes back, and for an automatic
/// switch the record of automatic switching goes back too, so that the
/// poll retries. Either way a new switch may start.
pub open spec fn finish_next(s: HushState, target: bool, is_auto: bool, success: bool) -> (
    HushState,
    ToggleFeedback,
) {
    if success {
        (
            HushState { toggle_in_progress: false, ..s },
            ToggleFeedback { shown_hushed: target, play_sound: s.play_sound },
        )
    } else {
        let s1 = HushState { hushed: !target, ..s };
        let s2 = if is_auto {
            HushState { auto_hushed: !target, ..s1 }
        } else {
            s1
        };
        (
            HushState { toggle_in_progress: false, ..s2 },
            ToggleFeedback { shown_hushed: !target, play_sound: false },
        )
    }
}

/// What the tray does when it starts.
#[derive(PartialEq, Eq, Structural, Clone, Copy, Debug)]
pub enum StartupAction {
    /// Shortcuts are missing: show the setup window.
    ShowSetup,
    /// Hide the setup window and run meeting detection; the flag says
    /// whether the poll loop must be launched now.
    Detect(bool),
}

pub open spec fn startup_next(s: HushState, shortcuts_ready: bool) -> (HushState, StartupAction) {
    if shortcuts_ready {
        let (s1, launch) = claim_poll(s);
        (s1, StartupAction::Detect(launch))
    } else {
        (s, StartupAction::ShowSetup)
    }
}

impl HushState {
    /// The flags when the tray starts: notifications on, sound on,
    /// automatic switching during calls on.
    pub fn new() -> (s: HushState)
        ensures
            s == initial_state(),
    {
        HushState {
            hushed: false,
            play_sound: true,
            auto_dnd_on_calls: true,
            auto_hushed: false,
            manual_override: false,
            poll_started: false,
            toggle_in_progress: false,
        }
    }

    /// Claim the meeting poll loop: true when it was not running yet and
    /// the caller must launch it; it is never launched twice.
    pub fn start_meeting_poll(&mut self) -> (launch: bool)
        ensures
            (*final(self), launch) == claim_poll(*old(self)),
    {
        let launch = !self.poll_started;
        self.poll_started = true;
        launch
    }

    /// Decide on a toggle request (see `toggle_next`).
    pub fn toggle_hush(&mut self, force_state: Option<bool>, shortcuts_ready: bool) -> (d:
        ToggleDecision)
        ensures
            (*final(self), d) == toggle_next(*old(self), force_state, shortcuts_ready),
    {
        if !shortcuts_ready {
            return match force_state {
                Some(f) => {
                    self.auto_hushed = !f;
                    ToggleDecision { start_poll: false, action: ToggleAction::Skip }
                },
                None => ToggleDecision { start_poll: false, action: ToggleAction::ShowSetup },
            };
        }
        let start_poll = self.start_meeting_poll();
        let current = self.hushed;
        let target = match force_state {
            Some(f) => f,
            None => !current,
        };
        if target == current {
            return ToggleDecision { start_poll, action: ToggleAction::Skip };
        }
        if self.toggle_in_progress {
            if force_state.is_some() {
                self.auto_hushed = !target;
            }
            return ToggleDecision { start_poll, action: ToggleAction::Skip };
        }
        self.toggle_in_progress = true;
        if force_state.is_none() {
            self.manual_override = true;
            self.auto_hushed = false;
        }
        self.hushed = target;
        ToggleDecision { start_poll, action: ToggleAction::Switch(target) }
    }

    /// Record the result of a switch to `target` (see `finish_next`);
    /// `is_auto` says whether the meeting poll asked for it.
    pub fn finish_toggle(&mut self, target: bool, is_auto: bool, success: bool) -> (f:
        ToggleFeedback)
        ensures
            (*final(self), f) == finish_next(*old(self), target, is_auto, success),
    {
        let feedback = if success {
            ToggleFeedback { shown_hushed: target, play_sound: self.play_sound }
        } else {
            self.hushed = !target;
            if is_auto {
                self.auto_hushed = !target;
            }
            ToggleFeedback { shown_hushed: !target, play_sound: false }
        };
        self.toggle_in_progress = false;
        feedback
    }

    /// Decide what the tray does at start (see `startup_next`).
    pub fn on_startup(&mut self, shortcuts_ready: bool) -> (a: StartupAction)
        ensures
            (*final(self), a) == startup_next(*old(self), shortcuts_ready),
    {
        if shortcuts_ready {
            let launch = self.start_meeting_poll();
            StartupAction::Detect(launch)
        } else {
            StartupAction::ShowSetup
        }
    }
}

/// Whether the user still has to create shortcuts: unless both exist.
pub fn needs_setup(has_on: bool, has_off: bool) -> (b: bool)
    ensures
        b == setup_needed(has_on, has_off),
{
    !(has_on && has_off)
}

// ───────────────────────── Meeting poll ─────────────────────────

/// The meeting poll's counts of polls in a row with and without a meeting.
#[derive(PartialEq, Eq, Structural, Clone, Copy, Debug)]
pub struct MeetingPoll {
    pub consecutive_meeting: u32,
    pub consecutive_no_meeting: u32,
}

/// The start of a poll cycle, `elapsed_secs` after the previous one: after
/// a wake from sleep (a gap of more than 30 s), or while automatic
/// switching is off, both counts start over and no detection runs.
/// Otherwise the caller runs meeting detection.
pub open spec fn cycle_begin(s: HushState, p: MeetingPoll, elapsed_secs: u64) -> (MeetingPoll, bool) {
    if elapsed_secs > WAKE_GAP_SECS || !s.auto_dnd_on_calls {
        (MeetingPoll { consecutive_meeting: 0, consecutive_no_meeting: 0 }, false)
    } else {
        (p, true)
    }
}

/// The counts after a detection.
pub open spec fn counted(p: MeetingPoll, in_meeting: bool) -> MeetingPoll {
    if in_meeting {
        MeetingPoll { consecutive_meeting: (p.consecutive_meeting + 1) as u32, consecutive_no_meeting: 0 }
    } else {
        MeetingPoll { consecutive_meeting: 0, consecutive_no_meeting: (p.consecutive_no_meeting + 1) as u32 }
    }
}

/// The end of a poll cycle, given whether a meeting was detected: the new
/// flags and counts, and the state to request with an automatic toggle,
/// if any.
///
/// A manual override ends after enough polls in a row without a meeting;
/// while it lasts nothing is switched. Do Not Disturb goes on once enough
/// polls in a row saw a meeting, and goes off once enough polls in a row
/// saw none, only if the poll itself had switched it on.
pub open spec fn cycle_end(s: HushState, p: MeetingPoll, in_meeting: bool) -> (
    HushState,
    MeetingPoll,
    Option<bool>,
) {
    let p2 = counted(p, in_meeting);
    let s1 = if !in_meeting && s.manual_override && p2.consecutive_no_meeting >= DEBOUNCE_OFF_COUNT {
        HushState { manual_override: false, ..s }
    } else {
        s
    };
    if s1.manual_override {
        (s1, p2, None)
    } else if in_meeting && !s.hushed && p2.consecutive_meeting >= DEBOUNCE_ON_COUNT {
        (HushState { auto_hushed: true, ..s1 }, p2, Some(true))
    } else if !in_meeting && s.hushed && s.auto_hushed && p2.consecutive_no_meeting
        >= DEBOUNCE_OFF_COUNT {
        (HushState { auto_hushed: false, ..s1 }, p2, Some(false))
    } else {
        (s1, p2, None)
    }
}

impl MeetingPoll {
    /// No polls counted yet.
    pub fn new() -> (p: MeetingPoll)
        ensures
            p == (MeetingPoll { consecutive_meeting: 0, consecutive_no_meeting: 0 }),
    {
        MeetingPoll { consecutive_meeting: 0, consecutive_no_meeting: 0 }
    }

    /// Begin a poll cycle (see `cycle_begin`): whether to run detection.
    pub fn begin_cycle(&mut self, hush: &HushState, elapsed_secs: u64) -> (detect: bool)
        ensures
            (*final(self), detect) == cycle_begin(*hush, *old(self), elapsed_secs),
    {
        if elapsed_secs > WAKE_GAP_SECS || !hush.auto_dnd_on_calls {
            self.consecutive_meeting = 0;
            self.consecutive_no_meeting = 0;
            return false;
        }
        true
    }

    /// End a poll cycle with the detection result (see `cycle_end`): the
    /// state to request with an automatic toggle, if any. A count cannot
    /// go past `u32::MAX` (some 400 years of polls).
    pub fn after_detection(&mut self, hush: &mut HushState, in_meeting: bool) -> (request: Option<
        bool,
    >)
        requires
            in_meeting ==> old(self).consecutive_meeting < u32::MAX,
            !in_meeting ==> old(self).consecutive_no_meeting < u32::MAX,
        ensures
            (*final(hush), *final(self), request) == cycle_end(*old(hush), *old(self), in_meeting),
    {
        let hushed = hush.hushed;
        let auto_hushed = hush.auto_hushed;
        if in_meeting {
            self.consecutive_meeting = self.consecutive_meeting + 1;
            self.consecutive_no_meeting = 0;
        } else {
            self.consecutive_no_meeting = self.consecutive_no_meeting + 1;
            self.consecutive_meeting = 0;
            if hush.manual_override && self.consecutive_no_meeting >= DEBOUNCE_OFF_COUNT {
                hush.manual_override = false;
            }
        }
        if hush.manual_override {
            return None;
        }
        if in_meeting && !hushed && self.consecutive_meeting >= DEBOUNCE_ON_COUNT {
            hush.auto_hushed = true;
            Some(true)
        } else if !in_meeting && hushed && auto_hushed && self.consecutive_no_meeting
            >= DEBOUNCE_OFF_COUNT {
            hush.auto_hushed = false;
            Some(false)
        } else {
            None
        }
    }
}

// ───────────────────────── Menu ─────────────────────────

/// What a menu click leads to.
#[derive(PartialEq, Eq, Structural, Clone, Copy, Debug)]
pub enum MenuReaction {
    /// Toggle by hand, as `toggle_hush(None, ..)`.
    Toggle,
    /// Quit; switch Do Not Disturb off first when the flag is set.
    Quit(bool),
    /// Nothing more to do (a setting may have changed).
    Nothing,
}

/// The reaction to a click on the menu item `id`: "toggle" toggles;
/// "auto_screen_share" and "play_sound" flip their setting; "quit" quits,
/// switching Do Not Disturb off first if it is on.
pub open spec fn menu_next(s: HushState, id: Seq<char>) -> (HushState, MenuReaction) {
    if id == "toggle"@ {
        (s, MenuReaction::Toggle)
    } else if id == "auto_screen_share"@ {
        (HushState { auto_dnd_on_calls: !s.auto_dnd_on_calls, ..s }, MenuReaction::Nothing)
    } else if id == "play_sound"@ {
        (HushState { play_sound: !s.play_sound, ..s }, MenuReaction::Nothing)
    } else if id == "quit"@ {
        (s, MenuReaction::Quit(s.hushed))
    } else {
        (s, MenuReaction::Nothing)
    }
}

/// One entry of the tray menu.
#[derive(Clone, Copy, Debug)]
pub enum MenuEntry {
    /// A plain item, with an optional keyboard accelerator.
    Item { id: &'static str, label: &'static str, enabled: bool, accelerator: Option<&'static str> },
    /// An item with a check mark.
    Check { id: &'static str, label: &'static str, enabled: bool, checked: bool },
    Separator,
}

/// The model of a menu entry.
pub enum EntryView {
    Item { id: Seq<char>, label: Seq<char>, enabled: bool, accelerator: Option<Seq<char>> },
    Check { id: Seq<char>, label: Seq<char>, enabled: bool, checked: bool },
    Separator,
}

impl View for MenuEntry {
    type V = EntryView;

    open spec fn view(&self) -> EntryView {
        match *self {
            MenuEntry::Item { id, label, enabled, accelerator } => EntryView::Item {
                id: id@,
                label: label@,
                enabled,
                accelerator: match accelerator {
                    Some(a) => Some(a@),
                    None => None,
                },
            },
            MenuEntry::Check { id, label, enabled, checked } => EntryView::Check {
                id: id@,
                label: label@,
                enabled,
                checked,
            },
            MenuEntry::Separator => EntryView::Separator,
        }
    }
}

/// The status line of the menu.
pub open spec fn status_label(hushed: bool) -> Seq<char> {
    if hushed {
        "🔕 Notifications Off"@
    } else {
        "🔔 Notifications On"@
    }
}

/// The label of the toggle item.
pub open spec fn toggle_label(hushed: bool) -> Seq<char> {
    if hushed {
        "Turn Notifications On"@
    } else {
        "Hush Notifications"@
    }
}

/// The tray menu for `s`: a disabled status line, the toggle, the two
/// settings with their check marks, and "Quit Hush", with separators.
pub open spec fn menu_model(s: HushState) -> Seq<EntryView> {
    seq![
        EntryView::Item { id: "status"@, label: status_label(s.hushed), enabled: false, accelerator: None },
        EntryView::Separator,
        EntryView::Item { id: "toggle"@, label: toggle_label(s.hushed), enabled: true, accelerator: None },
        EntryView::Separator,
        EntryView::Check { id: "auto_screen_share"@, label: "Auto-DND on Calls"@, enabled: true, checked: s.auto_dnd_on_calls },
        EntryView::Check { id: "play_sound"@, label: "Play Sound on Toggle"@, enabled: true, checked: s.play_sound },
        EntryView::Separator,
        EntryView::Item { id: "quit"@, label: "Quit Hush"@, enabled: true, accelerator: Some("CmdOrCtrl+Q"@) },
    ]
}

/// Icon file and tooltip of the tray.
#[derive(Clone, Copy, Debug)]
pub struct TrayLook {
    pub icon: &'static str,
    pub tooltip: &'static str,
}

pub open spec fn tray_look_model(hushed: bool) -> (Seq<char>, Seq<char>) {
    if hushed {
        ("icons/tray-hushed.png"@, "Hush — Notifications Off"@)
    } else {
        ("icons/tray-normal.png"@, "Hush — Notifications On"@)
    }
}

/// The sound played after a switch on `platform` (macOS plays a different
/// system sound for each direction; Windows beeps), if any.
pub open spec fn toggle_sound_model(platform: Platform, hushed: bool) -> Option<CommandView> {
    match platform {
        Platform::MacOs => Some(
            command(
                "/usr/bin/afplay"@,
                seq![
                    if hushed {
                        "/System/Library/Sounds/Purr.aiff"@
                    } else {
                        "/System/Library/Sounds/Blow.aiff"@
                    },
                ],
                Launch::Spawn,
            ),
        ),
        Platform::Windows => Some(
            command(
                "powershell"@,
                seq!["-NoProfile"@, "-Command"@, "[System.Media.SystemSounds]::Beep.Play()"@],
                Launch::Spawn,
            ),
        ),
        Platform::Other => None,
    }
}

impl HushState {
    /// React to a click on the menu item `id` (see `menu_next`).
    pub fn handle_menu_event(&mut self, id: &str) -> (r: MenuReaction)
        ensures
            (*final(self), r) == menu_next(*old(self), id@),
    {
        if str_equals(id, "toggle") {
            MenuReaction::Toggle
        } else if str_equals(id, "auto_screen_share") {
            self.auto_dnd_on_calls = !self.auto_dnd_on_calls;
            MenuReaction::Nothing
        } else if str_equals(id, "play_sound") {
            self.play_sound = !self.play_sound;
            MenuReaction::Nothing
        } else if str_equals(id, "quit") {
            MenuReaction::Quit(self.hushed)
        } else {
            MenuReaction::Nothing
        }
    }

    /// The tray menu for the current flags (see `menu_model`).
    pub fn menu_entries(&self) -> (m: Vec<MenuEntry>)
        ensures
            m@.map_values(|e: MenuEntry| e@) == menu_model(*self),
    {
        let status: &'static str = if self.hushed {
            "🔕 Notifications Off"
        } else {
            "🔔 Notifications On"
        };
        let toggle: &'static str = if self.hushed {
            "Turn Notifications On"
        } else {
            "Hush Notifications"
        };
        let m = vec![
            MenuEntry::Item { id: "status", label: status, enabled: false, accelerator: None },
            MenuEntry::Separator,
            MenuEntry::Item { id: "toggle", label: toggle, enabled: true, accelerator: None },
            MenuEntry::Separator,
            MenuEntry::Check {
                id: "auto_screen_share",
                label: "Auto-DND on Calls",
                enabled: true,
                checked: self.auto_dnd_on_calls,
            },
            MenuEntry::Check {
                id: "play_sound",
                label: "Play Sound on Toggle",
                enabled: true,
                checked: self.play_sound,
            },
            MenuEntry::Separator,
            MenuEntry::Item {
                id: "quit",
                label: "Quit Hush",
                enabled: true,
                accelerator: Some("CmdOrCtrl+Q"),
            },
        ];
        assert(m@.map_values(|e: MenuEntry| e@) =~= menu_model(*self));
        m
    }
}

/// The tray's icon and tooltip for the hushed or normal state.
pub fn tray_look(hushed: bool) -> (t: TrayLook)
    ensures
        (t.icon@, t.tooltip@) == tray_look_model(hushed),
{
    if hushed {
        TrayLook { icon: "icons/tray-hushed.png", tooltip: "Hush — Notifications Off" }
    } else {
        TrayLook { icon: "icons/tray-normal.png", tooltip: "Hush — Notifications On" }
    }
}

/// The tray's icon and tooltip while a switch is running.
pub fn loading_look() -> (t: TrayLook)
    ensures
        t.icon@ == "icons/tray-loading.png"@,
        t.tooltip@ == "Hush — Switching…"@,
{
    TrayLook { icon: "icons/tray-loading.png", tooltip: "Hush — Switching…" }
}

/// The command that plays the switch sound (see `toggle_sound_model`).
pub fn toggle_sound(platform: Platform, hushed: bool) -> (c: Option<CommandSpec>)
    ensures
        match c {
            Some(x) => toggle_sound_model(platform, hushed) == Some(x@),
            None => toggle_sound_model(platform, hushed) is None,
        },
{
    match platform {
        Platform::MacOs => {
            let sound = if hushed {
                "/System/Library/Sounds/Purr.aiff"
            } else {
                "/System/Library/Sounds/Blow.aiff"
            };
            let c = CommandSpec {
                program: String::from_str("/usr/bin/afplay"),
                args: vec![String::from_str(sound)],
                launch: Launch::Spawn,
            };
            assert(c@.args =~= toggle_sound_model(platform, hushed).unwrap().args);
            Some(c)
        },
        Platform::Windows => {
            let c = CommandSpec {
                program: String::from_str("powershell"),
                args: vec![
                    String::from_str("-NoProfile"),
                    String::from_str("-Command"),
                    String::from_str("[System.Media.SystemSounds]::Beep.Play()"),
                ],
                launch: Launch::Spawn,
            };
            assert(c@.args =~= toggle_sound_model(platform, hushed).unwrap().args);
            Some(c)
        },
        Platform::Other => None,
    }
}

// ───────────────────────── Laws ─────────────────────────

/// Once the poll loop has been claimed it is never launched again, and no
/// decision forgets that it runs.
pub proof fn law_poll_loop_starts_once(s: HushState, force_state: Option<bool>, ready: bool, target: bool, is_auto: bool, success: bool, id: Seq<char>)
    requires
        s.poll_started,
    ensures
        !claim_poll(s).1,
        !toggle_next(s, force_state, ready).1.start_poll,
        startup_next(s, ready).1 != StartupAction::Detect(true),
        toggle_next(s, force_state, ready).0.poll_started,
        finish_next(s, target, is_auto, success).0.poll_started,
        startup_next(s, ready).0.poll_started,
        menu_next(s, id).0.poll_started,
{
}

/// A first claim launches the loop; the claim after it does not.
pub proof fn law_second_claim_declines(s: HushState)
    requires
        !s.poll_started,
    ensures
        claim_poll(s).1,
        !claim_poll(claim_poll(s).0).1,
{
}

/// Switches never overlap: while one runs, no request starts another; a
/// request that starts one marks it running; its end clears the mark.
pub proof fn law_no_overlapping_switches(s: HushState, force_state: Option<bool>, ready: bool, target: bool, is_auto: bool, success: bool)
    ensures
        s.toggle_in_progress ==> !(toggle_next(s, force_state, ready).1.action is Switch),
        toggle_next(s, force_state, ready).1.action is Switch ==> toggle_next(s, force_state, ready).0.toggle_in_progress,
        !finish_next(s, target, is_auto, success).0.toggle_in_progress,
{
}

/// A manual toggle, with shortcuts in place and no switch running, switches
/// to the opposite state, pauses automatic switching for the meeting, and
/// marks the state as not set by the poll.
pub proof fn law_manual_toggle_flips(s: HushState)
    requires
        !s.toggle_in_progress,
    ensures
        toggle_next(s, None, true).1.action == ToggleAction::Switch(!s.hushed),
        toggle_next(s, None, true).0.hushed == !s.hushed,
        toggle_next(s, None, true).0.manual_override,
        !toggle_next(s, None, true).0.auto_hushed,
{
}

/// A switch that fails puts the state back where it was before the
/// request and shows that state; an automatic one also records that its
/// target was not reached, so that the poll tries again.
pub proof fn law_failed_switch_reverts(s: HushState, force_state: Option<bool>, target: bool)
    requires
        toggle_next(s, force_state, true).1.action == ToggleAction::Switch(target),
    ensures
        ({
            let (s2, fb) = finish_next(toggle_next(s, force_state, true).0, target, force_state is Some, false);
            &&& s2.hushed == s.hushed
            &&& fb.shown_hushed == s.hushed
            &&& !fb.play_sound
            &&& !s2.toggle_in_progress
            &&& (force_state matches Some(f) ==> s2.auto_hushed == !f)
        }),
{
}

/// A switch that succeeds keeps its target, shows it, and plays the sound
/// when sound is on.
pub proof fn law_successful_switch_holds(s: HushState, force_state: Option<bool>, target: bool)
    requires
        toggle_next(s, force_state, true).1.action == ToggleAction::Switch(target),
    ensures
        ({
            let s1 = toggle_next(s, force_state, true).0;
            let (s2, fb) = finish_next(s1, target, force_state is Some, true);
            &&& s2.hushed == target
            &&& fb.shown_hushed == target
            &&& fb.play_sound == s.play_sound
            &&& !s2.toggle_in_progress
        }),
{
}

/// Without shortcuts an automatic request switches nothing and shows no
/// window; it records its target as not reached. A manual one shows the
/// setup window and changes nothing.
pub proof fn law_missing_shortcuts_switch_nothing(s: HushState, f: bool)
    ensures
        toggle_next(s, Some(f), false).1.action == ToggleAction::Skip,
        toggle_next(s, Some(f), false).0 == (HushState { auto_hushed: !f, ..s }),
        toggle_next(s, None, false).1.action == ToggleAction::ShowSetup,
        toggle_next(s, None, false).0 == s,
{
}

/// The poll switches Do Not Disturb on only when this poll and the one
/// before saw a meeting, it is off, and the user has not overridden.
pub proof fn law_auto_on_needs_meeting_streak(s: HushState, p: MeetingPoll, in_meeting: bool)
    requires
        cycle_end(s, p, in_meeting).2 == Some(true),
    ensures
        in_meeting,
        !s.hushed,
        !s.manual_override,
        cycle_end(s, p, in_meeting).1.consecutive_meeting >= DEBOUNCE_ON_COUNT,
        cycle_end(s, p, in_meeting).0.auto_hushed,
{
}

/// The poll switches Do Not Disturb off only when it had switched it on
/// itself and ten polls in a row saw no meeting: it never ends a hush the
/// user chose.
pub proof fn law_auto_off_only_undoes_auto(s: HushState, p: MeetingPoll, in_meeting: bool)
    requires
        cycle_end(s, p, in_meeting).2 == Some(false),
    ensures
        !in_meeting,
        s.hushed,
        s.auto_hushed,
        cycle_end(s, p, in_meeting).1.consecutive_no_meeting >= DEBOUNCE_OFF_COUNT,
        !cycle_end(s, p, in_meeting).0.auto_hushed,
{
}

/// Quick on: with no override, the second meeting poll in a row asks to
/// switch on when Do Not Disturb is off.
pub proof fn law_quick_on(s: HushState, p: MeetingPoll)
    requires
        !s.hushed,
        !s.manual_override,
        p.consecutive_meeting >= 1,
        p.consecutive_meeting < u32::MAX,
    ensures
        cycle_end(s, p, true).2 == Some(true),
{
}

/// Slow off: an automatic hush ends at the tenth poll in a row without a
/// meeting, and not before.
pub proof fn law_slow_off(s: HushState, p: MeetingPoll)
    requires
        s.hushed,
        s.auto_hushed,
        !s.manual_override,
        p.consecutive_no_meeting < u32::MAX,
    ensures
        cycle_end(s, p, false).2 == (if p.consecutive_no_meeting + 1 >= DEBOUNCE_OFF_COUNT {
            Some(false)
        } else {
            None
        }),
{
}

/// A manual override holds off automatic switching until ten polls in a
/// row have seen no meeting; then it ends.
pub proof fn law_override_lasts_until_quiet(s: HushState, p: MeetingPoll, in_meeting: bool)
    requires
        s.manual_override,
        p.consecutive_no_meeting < u32::MAX,
    ensures
        (in_meeting || p.consecutive_no_meeting + 1 < DEBOUNCE_OFF_COUNT) ==> (
            cycle_end(s, p, in_meeting).0.manual_override && cycle_end(s, p, in_meeting).2 is None),
        (!in_meeting && p.consecutive_no_meeting + 1 >= DEBOUNCE_OFF_COUNT) ==> !cycle_end(
            s,
            p,
            in_meeting,
        ).0.manual_override,
{
}

/// After a wake from sleep, or with automatic switching off, a cycle runs
/// no detection and starts both counts over.
pub proof fn law_cycle_skips_reset(s: HushState, p: MeetingPoll, elapsed_secs: u64)
    requires
        elapsed_secs > WAKE_GAP_SECS || !s.auto_dnd_on_calls,
    ensures
        !cycle_begin(s, p, elapsed_secs).1,
        cycle_begin(s, p, elapsed_secs).0 == (MeetingPoll { consecutive_meeting: 0, consecutive_no_meeting: 0 }),
{
}

/// Quitting switches Do Not Disturb off first exactly when it is on.
pub proof fn law_quit_restores_notifications(s: HushState)
    ensures
        menu_next(s, "quit"@).1 == MenuReaction::Quit(s.hushed),
        menu_next(s, "quit"@).0 == s,
{
    assert("quit"@ != "toggle"@) by {
        reveal_strlit("quit");
        reveal_strlit("toggle");
        assert("quit"@.len() != "toggle"@.len());
    }
    assert("quit"@ != "auto_screen_share"@) by {
        reveal_strlit("quit");
        reveal_strlit("auto_screen_share");
        assert("quit"@.len() != "auto_screen_share"@.len());
    }
    assert("quit"@ != "play_sound"@) by {
        reveal_strlit("quit");
        reveal_strlit("play_sound");
        assert("quit"@.len() != "play_sound"@.len());
    }
}

/// The menu's status line and toggle item always describe the current state.
pub proof fn law_menu_shows_state(s: HushState)
    ensures
        menu_model(s)[0] == (EntryView::Item { id: "status"@, label: status_label(s.hushed), enabled: false, accelerator: None }),
        menu_model(s)[2] == (EntryView::Item { id: "toggle"@, label: toggle_label(s.hushed), enabled: true, accelerator: None }),
{
}

// ───────────────────────── Runs of polls ─────────────────────────

/// One poll cycle: `None` when it was skipped (after a wake from sleep, or
/// with automatic switching off), which starts both counts over;
/// `Some(in_meeting)` when detection ran.
pub open spec fn poll_step(s: HushState, p: MeetingPoll, event: Option<bool>) -> (
    HushState,
    MeetingPoll,
    Option<bool>,
) {
    match event {
        None => (s, MeetingPoll { consecutive_meeting: 0, consecutive_no_meeting: 0 }, None),
        Some(in_meeting) => cycle_end(s, p, in_meeting),
    }
}

/// The flags and counts after the first `n` cycles of `events`, with no
/// toggle in between.
pub open spec fn after_polls(s: HushState, p: MeetingPoll, events: Seq<Option<bool>>, n: nat) -> (
    HushState,
    MeetingPoll,
)
    decreases n,
{
    if n == 0 {
        (s, p)
    } else {
        let (s1, p1) = after_polls(s, p, events, (n - 1) as nat);
        let (s2, p2, _) = poll_step(s1, p1, events[n - 1]);
        (s2, p2)
    }
}

/// The toggle request of cycle `n` of `events`.
pub open spec fn request_at(s: HushState, p: MeetingPoll, events: Seq<Option<bool>>, n: nat) -> Option<bool> {
    let (s1, p1) = after_polls(s, p, events, n);
    poll_step(s1, p1, events[n as int]).2
}

/// How many polls in a row, ending with the last of `events`, saw no
/// meeting; `start` counts those from before `events`.
pub open spec fn quiet_streak(start: nat, events: Seq<Option<bool>>) -> nat
    decreases events.len(),
{
    if events.len() == 0 {
        start
    } else if events.last() == Some(false) {
        quiet_streak(start, events.drop_last()) + 1
    } else {
        0
    }
}

proof fn lemma_chosen_hush_kept(s: HushState, p: MeetingPoll, events: Seq<Option<bool>>, n: nat)
    requires
        s.hushed,
        !s.auto_hushed,
        n <= events.len(),
    ensures
        after_polls(s, p, events, n).0.hushed,
        !after_polls(s, p, events, n).0.auto_hushed,
    decreases n,
{
    if n > 0 {
        lemma_chosen_hush_kept(s, p, events, (n - 1) as nat);
    }
}

proof fn lemma_quiet_count(s: HushState, p: MeetingPoll, events: Seq<Option<bool>>, n: nat)
    requires
        n <= events.len(),
        p.consecutive_no_meeting + events.len() < u32::MAX,
    ensures
        after_polls(s, p, events, n).1.consecutive_no_meeting == quiet_streak(
            p.consecutive_no_meeting as nat,
            events.take(n as int),
        ),
        quiet_streak(p.consecutive_no_meeting as nat, events.take(n as int)) <= p.consecutive_no_meeting + n,
    decreases n,
{
    if n == 0 {
        assert(events.take(0) =~= Seq::<Option<bool>>::empty());
    } else {
        lemma_quiet_count(s, p, events, (n - 1) as nat);
        assert(events.take(n as int).drop_last() =~= events.take(n - 1));
        assert(events.take(n as int).last() == events[n - 1]);
    }
}

/// While Do Not Disturb is on by the user's choice (not set by the poll),
/// no run of polls, however many of them see no meeting, ever asks to
/// switch it off, or to switch anything: the choice stands.
pub proof fn law_chosen_hush_never_ended(s: HushState, p: MeetingPoll, events: Seq<Option<bool>>, n: nat)
    requires
        s.hushed,
        !s.auto_hushed,
        n < events.len(),
    ensures
        request_at(s, p, events, n) is None,
        after_polls(s, p, events, n + 1).0.hushed,
        !after_polls(s, p, events, n + 1).0.auto_hushed,
{
    lemma_chosen_hush_kept(s, p, events, n);
    lemma_chosen_hush_kept(s, p, events, n + 1);
}

/// Over any run of polls: the count of polls without a meeting is the
/// number of such polls in a row; a cycle that ends with the manual
/// override still in place asks for no switch; the override is never set
/// by a poll, and it ends exactly at the cycle that completes ten polls in
/// a row without a meeting. (The counts stay below `u32::MAX`.)
pub proof fn law_override_until_quiet_streak(s: HushState, p: MeetingPoll, events: Seq<Option<bool>>, n: nat)
    requires
        n < events.len(),
        p.consecutive_no_meeting + events.len() < u32::MAX,
    ensures
        after_polls(s, p, events, n).1.consecutive_no_meeting == quiet_streak(
            p.consecutive_no_meeting as nat,
            events.take(n as int),
        ),
        after_polls(s, p, events, n + 1).0.manual_override ==> request_at(s, p, events, n) is None,
        after_polls(s, p, events, n + 1).0.manual_override == (after_polls(s, p, events, n).0.manual_override
            && !(events[n as int] == Some(false) && quiet_streak(
            p.consecutive_no_meeting as nat,
            events.take(n + 1 as int),
        ) >= DEBOUNCE_OFF_COUNT)),
{
    lemma_quiet_count(s, p, events, n);
    lemma_quiet_count(s, p, events, n + 1);
}

// ───────────────────────── Behaviour, case by case ─────────────────────────

/// Setup is needed exactly when at least one of the two shortcuts is missing.
pub proof fn law_setup_needed_iff_shortcut_missing(has_on: bool, has_off: bool)
    ensures
        setup_needed(has_on, has_off) <==> (!has_on || !has_off),
{
}

/// The tray starts with notifications on, sound on, automatic switching on,
/// and nothing running, claimed or overridden.
pub proof fn law_initial_flags()
    ensures
        !initial_state().hushed,
        initial_state().play_sound,
        initial_state().auto_dnd_on_calls,
        !initial_state().auto_hushed,
        !initial_state().manual_override,
        !initial_state().poll_started,
        !initial_state().toggle_in_progress,
{
}

/// A successful switch only ends the switch: every other flag, the record
/// of automatic switching included, stays as it was; the tray shows the
/// target, with the sound when sound is on.
pub proof fn law_success_only_ends_switch(s: HushState, target: bool, is_auto: bool)
    ensures
        finish_next(s, target, is_auto, true).0 == (HushState { toggle_in_progress: false, ..s }),
        finish_next(s, target, is_auto, true).1 == (ToggleFeedback { shown_hushed: target, play_sound: s.play_sound }),
{
}

/// A failed switch ends the switch and puts the state back to the opposite
/// of its target; an automatic one also records the target as not reached
/// (so the poll retries), a manual one leaves that record alone. The tray
/// shows the state put back, with no sound.
pub proof fn law_failure_reverts_state(s: HushState, target: bool, is_auto: bool)
    ensures
        finish_next(s, target, is_auto, false).0 == (HushState {
            hushed: !target,
            auto_hushed: if is_auto { !target } else { s.auto_hushed },
            toggle_in_progress: false,
            ..s
        }),
        finish_next(s, target, is_auto, false).1 == (ToggleFeedback { shown_hushed: !target, play_sound: false }),
{
}

/// An automatic request that starts a switch changes nothing but the
/// state, the running mark and the poll claim: the manual override and the
/// record of automatic switching stay as they were.
pub proof fn law_auto_switch_keeps_records(s: HushState, f: bool)
    requires
        f != s.hushed,
        !s.toggle_in_progress,
    ensures
        toggle_next(s, Some(f), true).1 == (ToggleDecision { start_poll: !s.poll_started, action: ToggleAction::Switch(f) }),
        toggle_next(s, Some(f), true).0 == (HushState { hushed: f, toggle_in_progress: true, poll_started: true, ..s }),
{
}

/// A manual request that starts a switch flips the state, marks it
/// running, claims the poll, starts a manual override and clears the record
/// of automatic switching; play sound and automatic switching stay.
pub proof fn law_manual_switch_sets_override(s: HushState)
    requires
        !s.toggle_in_progress,
    ensures
        toggle_next(s, None, true).1 == (ToggleDecision { start_poll: !s.poll_started, action: ToggleAction::Switch(!s.hushed) }),
        toggle_next(s, None, true).0 == (HushState {
            hushed: !s.hushed,
            toggle_in_progress: true,
            poll_started: true,
            manual_override: true,
            auto_hushed: false,
            ..s
        }),
{
}

/// A request for the state already in place only claims the poll.
pub proof fn law_request_for_current_state(s: HushState)
    ensures
        toggle_next(s, Some(s.hushed), true) == (
            HushState { poll_started: true, ..s },
            ToggleDecision { start_poll: !s.poll_started, action: ToggleAction::Skip },
        ),
{
}

/// While a switch runs, another request to change the state only claims
/// the poll; an automatic one also records its target as not reached.
pub proof fn law_request_while_switching(s: HushState, force_state: Option<bool>)
    requires
        s.toggle_in_progress,
        force_state != Some(s.hushed),
    ensures
        toggle_next(s, force_state, true) == (
            HushState {
                poll_started: true,
                auto_hushed: match force_state {
                    Some(f) => !f,
                    None => s.auto_hushed,
                },
                ..s
            },
            ToggleDecision { start_poll: !s.poll_started, action: ToggleAction::Skip },
        ),
{
}

/// At start the poll is claimed and detection begins when both shortcuts
/// exist; otherwise the setup window shows and nothing changes.
pub proof fn law_startup(s: HushState)
    ensures
        startup_next(s, true) == (HushState { poll_started: true, ..s }, StartupAction::Detect(!s.poll_started)),
        startup_next(s, false) == (s, StartupAction::ShowSetup),
        claim_poll(s) == (HushState { poll_started: true, ..s }, !s.poll_started),
{
}

/// A cycle runs detection and keeps its counts unless more than 30 s passed
/// since the last one or automatic switching is off; then the counts start
/// over and nothing runs. The manual override does not stop detection.
pub proof fn law_cycle_begin(s: HushState, p: MeetingPoll, elapsed_secs: u64)
    ensures
        elapsed_secs <= 30 && s.auto_dnd_on_calls ==> cycle_begin(s, p, elapsed_secs) == (p, true),
        elapsed_secs > 30 || !s.auto_dnd_on_calls ==> cycle_begin(s, p, elapsed_secs) == (
            MeetingPoll { consecutive_meeting: 0, consecutive_no_meeting: 0 },
            false,
        ),
{
}

/// A detection result updates the counts (a meeting extends the meeting
/// streak and ends the quiet one, and the other way round); the manual
/// override ends at the tenth quiet poll in a row; with no override left, a
/// second meeting poll in a row switches on when off, and a tenth quiet poll
/// in a row switches off when the poll had switched on; the record of
/// automatic switching follows the request; nothing else changes.
pub proof fn law_cycle_end(s: HushState, p: MeetingPoll, in_meeting: bool)
    requires
        p.consecutive_meeting < u32::MAX,
        p.consecutive_no_meeting < u32::MAX,
    ensures
        ({
            let (s2, p2, r) = cycle_end(s, p, in_meeting);
            let meetings = if in_meeting { p.consecutive_meeting + 1 } else { 0 };
            let quiet = if in_meeting { 0 } else { p.consecutive_no_meeting + 1 };
            let override_left = s.manual_override && !(!in_meeting && quiet >= 10);
            let expected = if override_left {
                None
            } else if in_meeting && !s.hushed && meetings >= 2 {
                Some(true)
            } else if !in_meeting && s.hushed && s.auto_hushed && quiet >= 10 {
                Some(false)
            } else {
                None
            };
            &&& p2.consecutive_meeting == meetings
            &&& p2.consecutive_no_meeting == quiet
            &&& r == expected
            &&& s2 == (HushState {
                manual_override: override_left,
                auto_hushed: match expected {
                    Some(x) => x,
                    None => s.auto_hushed,
                },
                ..s
            })
        }),
{
}

/// Menu clicks: "toggle" asks for a manual toggle, "auto_screen_share" and
/// "play_sound" flip their setting, "quit" quits (switching Do Not Disturb
/// off first exactly when it is on); any other item changes nothing.
pub proof fn law_menu_clicks(s: HushState, id: Seq<char>)
    ensures
        menu_next(s, "toggle"@) == (s, MenuReaction::Toggle),
        menu_next(s, "auto_screen_share"@) == (HushState { auto_dnd_on_calls: !s.auto_dnd_on_calls, ..s }, MenuReaction::Nothing),
        menu_next(s, "play_sound"@) == (HushState { play_sound: !s.play_sound, ..s }, MenuReaction::Nothing),
        menu_next(s, "quit"@) == (s, MenuReaction::Quit(s.hushed)),
        id != "toggle"@ && id != "auto_screen_share"@ && id != "play_sound"@ && id != "quit"@ ==> menu_next(s, id) == (s, MenuReaction::Nothing),
{
    reveal_strlit("toggle");
    reveal_strlit("auto_screen_share");
    reveal_strlit("play_sound");
    reveal_strlit("quit");
    assert("toggle"@.len() == 6);
    assert("auto_screen_share"@.len() == 17);
    assert("play_sound"@.len() == 10);
    assert("quit"@.len() == 4);
}

/// The menu's status line and toggle label name the state, and differ
/// between the two states; the tray icon and tooltip do too.
pub proof fn law_labels_name_state(s: HushState)
    ensures
        status_label(true) == "🔕 Notifications Off"@,
        status_label(false) == "🔔 Notifications On"@,
        status_label(true) != status_label(false),
        toggle_label(true) == "Turn Notifications On"@,
        toggle_label(false) == "Hush Notifications"@,
        toggle_label(true) != toggle_label(false),
        tray_look_model(true) == ("icons/tray-hushed.png"@, "Hush — Notifications Off"@),
        tray_look_model(false) == ("icons/tray-normal.png"@, "Hush — Notifications On"@),
        tray_look_model(true) != tray_look_model(false),
        menu_model(s).len() == 8,
        menu_model(s)[0] == (EntryView::Item { id: "status"@, label: if s.hushed { "🔕 Notifications Off"@ } else { "🔔 Notifications On"@ }, enabled: false, accelerator: None }),
        menu_model(s)[2] == (EntryView::Item { id: "toggle"@, label: if s.hushed { "Turn Notifications On"@ } else { "Hush Notifications"@ }, enabled: true, accelerator: None }),
        menu_model(s)[4] == (EntryView::Check { id: "auto_screen_share"@, label: "Auto-DND on Calls"@, enabled: true, checked: s.auto_dnd_on_calls }),
        menu_model(s)[5] == (EntryView::Check { id: "play_sound"@, label: "Play Sound on Toggle"@, enabled: true, checked: s.play_sound }),
        menu_model(s)[7] == (EntryView::Item { id: "quit"@, label: "Quit Hush"@, enabled: true, accelerator: Some("CmdOrCtrl+Q"@) }),
        menu_model(s)[1] == EntryView::Separator,
        menu_model(s)[3] == EntryView::Separator,
        menu_model(s)[6] == EntryView::Separator,
{
    reveal_strlit("🔕 Notifications Off");
    reveal_strlit("🔔 Notifications On");
    reveal_strlit("Turn Notifications On");
    reveal_strlit("Hush Notifications");
    reveal_strlit("icons/tray-hushed.png");
    reveal_strlit("icons/tray-normal.png");
    assert("🔕 Notifications Off"@.len() != "🔔 Notifications On"@.len());
    assert("Turn Notifications On"@.len() != "Hush Notifications"@.len());
    assert("icons/tray-hushed.png"@[11] != "icons/tray-normal.png"@[11]);
}

/// After a switch macOS plays Purr when notifications went off and Blow
/// when they came back, Windows beeps, other systems stay silent; the sound
/// is launched, not waited for.
pub proof fn law_toggle_sound(hushed: bool)
    ensures
        toggle_sound_model(Platform::MacOs, hushed) == Some(CommandView {
            program: "/usr/bin/afplay"@,
            args: seq![if hushed { "/System/Library/Sounds/Purr.aiff"@ } else { "/System/Library/Sounds/Blow.aiff"@ }],
            launch: Launch::Spawn,
        }),
        toggle_sound_model(Platform::Windows, hushed) == Some(CommandView {
            program: "powershell"@,
            args: seq!["-NoProfile"@, "-Command"@, "[System.Media.SystemSounds]::Beep.Play()"@],
            launch: Launch::Spawn,
        }),
        toggle_sound_model(Platform::Other, hushed) is None,
{
}

/// `n` polls in a row that see no meeting.
pub open spec fn quiet_polls(n: nat) -> Seq<Option<bool>> {
    Seq::new(n, |i: int| Some(false))
}

proof fn lemma_quiet_run(s: HushState, p: MeetingPoll, n: nat)
    requires
        s.hushed,
        s.auto_hushed,
        !s.manual_override,
        p.consecutive_no_meeting == 0,
        n <= 9,
    ensures
        after_polls(s, p, quiet_polls(10), n).0 == s,
        after_polls(s, p, quiet_polls(10), n).1.consecutive_no_meeting == n,
    decreases n,
{
    if n > 0 {
        lemma_quiet_run(s, p, (n - 1) as nat);
        assert(quiet_polls(10)[n - 1] == Some(false));
    }
}

/// A call hushed automatically is unhushed after it: when the poll asks to
/// switch on for a meeting and the switch succeeds, the following quiet
/// polls ask nothing until the tenth, which asks to switch off.
pub proof fn law_auto_hush_ends_after_call(s: HushState, p: MeetingPoll, k: nat)
    requires
        !s.hushed,
        !s.manual_override,
        !s.toggle_in_progress,
        1 <= p.consecutive_meeting < u32::MAX,
        k < 10,
    ensures
        ({
            let (s1, p1, r1) = cycle_end(s, p, true);
            let (s2, d) = toggle_next(s1, Some(true), true);
            let (s3, fb) = finish_next(s2, true, true, true);
            &&& r1 == Some(true)
            &&& d.action == ToggleAction::Switch(true)
            &&& fb.shown_hushed
            &&& request_at(s3, p1, quiet_polls(10), k) == if k == 9 { Some(false) } else { None }
        }),
{
    let (s1, p1, r1) = cycle_end(s, p, true);
    let (s2, d) = toggle_next(s1, Some(true), true);
    let (s3, fb) = finish_next(s2, true, true, true);
    lemma_quiet_run(s3, p1, k);
    assert(quiet_polls(10)[k as int] == Some(false));
}

} // verus!
