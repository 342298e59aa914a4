//! macOS backend. From macOS 12 on, Do Not Disturb is switched by running
//! two user-made Shortcuts, "Hush On" and "Hush Off" (found by name, up to
//! ASCII case). Before macOS 12 the Notification Center preference is
//! written directly and Notification Center is restarted.
use crate::command::{
    command, command_succeeded, output_text, output_trimmed_is, reply_text, reply_trimmed_is,
    reply_view, succeeded, CommandOutcome, CommandSpec, CommandView, Launch, OutcomeView,
};
use crate::dnd::{Answer, DndOp, Step, StepView};
use crate::text::{
    eq_ignore_ascii_case, index_of_char, lines, parse_u32, split_lines, str_eq_ignore_ascii_case,
    trim, chars_of, trim_bounds, find_char_from, parse_u32_chars,
};
use vstd::prelude::*;

verus! {

/// Name of the shortcut that switches Do Not Disturb on.
pub const HUSH_ON: &'static str = "Hush On";

/// Name of the shortcut that switches Do Not Disturb off.
pub const HUSH_OFF: &'static str = "Hush Off";

/// Shell command that records when Do Not Disturb was switched on.
pub const DND_STAMP_SCRIPT: &'static str = "defaults -currentHost write com.apple.notificationcenterui doNotDisturbDate -date \"$(date -u +'%Y-%m-%dT%H:%M:%SZ')\"";

/// JavaScript for Automation that prints `1` when a Focus (Do Not
/// Disturb) mode has been switched on, and `0` otherwise. From macOS 12 on
/// the system records each Focus switched on by hand or by a shortcut as an
/// assertion record in `~/Library/DoNotDisturb/DB/Assertions.json`; an
/// unreadable or missing file counts as no Focus.
pub const FOCUS_STATE_SCRIPT: &'static str = "ObjC.import('Foundation');
const path = $.NSString.stringWithString('~/Library/DoNotDisturb/DB/Assertions.json').stringByExpandingTildeInPath.js;
const data = $.NSData.dataWithContentsOfFile(path);
let active = false;
if (data && !data.isNil()) {
    try {
        const text = $.NSString.alloc.initWithDataEncoding(data, $.NSUTF8StringEncoding).js;
        const records = JSON.parse(text).data[0].storeAssertionRecords;
        active = Array.isArray(records) && records.length > 0;
    } catch (e) {}
}
active ? '1' : '0';";

/// The major version assumed when the system version cannot be read.
pub const DEFAULT_MAJOR_VERSION: u32 = 12;

// ───────────────────────── Model ─────────────────────────

/// What the backend remembers between operations: the major macOS version
/// once read, and the exact names under which the two shortcuts were last
/// found.
pub struct MacView {
    pub major: Option<u32>,
    pub on_name: Option<Seq<char>>,
    pub off_name: Option<Seq<char>>,
}

/// Where a macOS operation stands: which reply it waits for.
#[derive(PartialEq, Eq, Structural, Clone, Copy, Debug)]
pub enum MacPhase {
    /// The system version was asked for.
    AwaitVersion,
    /// The list of shortcuts was asked for, to answer `CheckShortcuts`.
    AwaitListing,
    /// "Hush On" was run to try it.
    AwaitTryOn,
    /// "Hush Off" was run to try it; the flag says whether "Hush On" worked.
    AwaitTryOff(bool),
    /// The legacy preference was read.
    AwaitLegacyRead,
    /// The Focus state was read.
    AwaitFocusRead,
    /// The legacy preference was written.
    AwaitLegacyWrite,
    /// The switch-on time was recorded; the flag is the write's success.
    AwaitLegacyStamp(bool),
    /// Notification Center was restarted; the flag is the write's success.
    AwaitRestart(bool),
    /// The list of shortcuts was asked for, because no name was known yet.
    AwaitNameListing,
    /// A switching shortcut was run.
    AwaitShortcutRun,
    /// The Shortcuts app was launched.
    AwaitLaunch,
    /// The operation is over.
    Done,
}

/// An operation in progress.
#[derive(PartialEq, Eq, Structural, Clone, Copy, Debug)]
pub struct MacTask {
    pub op: DndOp,
    pub phase: MacPhase,
}

pub open spec fn version_query() -> CommandView {
    command("/usr/bin/sw_vers"@, seq!["-productVersion"@], Launch::Output)
}

pub open spec fn shortcut_listing() -> CommandView {
    command("/usr/bin/shortcuts"@, seq!["list"@], Launch::Output)
}

pub open spec fn shortcut_run(name: Seq<char>) -> CommandView {
    command("/usr/bin/shortcuts"@, seq!["run"@, name], Launch::Output)
}

pub open spec fn shortcuts_app_launch() -> CommandView {
    command("/usr/bin/open"@, seq!["-a"@, "Shortcuts"@], Launch::Spawn)
}

pub open spec fn legacy_dnd_read() -> CommandView {
    command(
        "/usr/bin/defaults"@,
        seq!["-currentHost"@, "read"@, "com.apple.notificationcenterui"@, "doNotDisturb"@],
        Launch::Output,
    )
}

pub open spec fn focus_state_query() -> CommandView {
    command("/usr/bin/osascript"@, seq!["-l"@, "JavaScript"@, "-e"@, FOCUS_STATE_SCRIPT@], Launch::Output)
}

pub open spec fn legacy_dnd_write(on: bool) -> CommandView {
    command(
        "/usr/bin/defaults"@,
        seq![
            "-currentHost"@,
            "write"@,
            "com.apple.notificationcenterui"@,
            "doNotDisturb"@,
            "-bool"@,
            if on {
                "true"@
            } else {
                "false"@
            },
        ],
        Launch::Output,
    )
}

pub open spec fn legacy_dnd_stamp() -> CommandView {
    command("/bin/sh"@, seq!["-c"@, DND_STAMP_SCRIPT@], Launch::Output)
}

pub open spec fn notification_center_restart() -> CommandView {
    command("/usr/bin/killall"@, seq!["NotificationCenter"@], Launch::Output)
}

/// Macs before macOS 12 use the legacy Notification Center switch.
pub open spec fn legacy(major: u32) -> bool {
    major < 12
}

/// The major version in `sw_vers -productVersion` output: the trimmed text
/// up to its first `'.'`, read as a `u32`, or 12 when that fails.
pub open spec fn major_version_of(text: Seq<char>) -> u32 {
    let t = trim(text);
    match parse_u32(t.take(index_of_char(t, '.'))) {
        Some(v) => v,
        None => DEFAULT_MAJOR_VERSION,
    }
}

/// The major version that a reply to `version_query` reports.
pub open spec fn reported_major_version(reply: Option<OutcomeView>) -> u32 {
    major_version_of(output_text(reply))
}

/// The shortcut names that a reply to `shortcut_listing` reports, one per line.
pub open spec fn reported_shortcuts(reply: Option<OutcomeView>) -> Seq<Seq<char>> {
    lines(output_text(reply))
}

/// The first entry of `names` equal to `target` up to ASCII case.
pub open spec fn first_match(names: Seq<Seq<char>>, target: Seq<char>) -> Option<Seq<char>>
    decreases names.len(),
{
    if names.len() == 0 {
        None
    } else if eq_ignore_ascii_case(names[0], target) {
        Some(names[0])
    } else {
        first_match(names.drop_first(), target)
    }
}

/// `s` after looking both shortcut names up afresh in `names`.
pub open spec fn resolved(s: MacView, names: Seq<Seq<char>>) -> MacView {
    MacView { major: s.major, on_name: first_match(names, HUSH_ON@), off_name: first_match(names, HUSH_OFF@) }
}

/// The remembered name of the shortcut that switches to `on`.
pub open spec fn cached_name(s: MacView, on: bool) -> Option<Seq<char>> {
    if on {
        s.on_name
    } else {
        s.off_name
    }
}

/// The state a `SetDnd` operation switches to.
pub open spec fn target_of(op: DndOp) -> bool {
    match op {
        DndOp::SetDnd(on) => on,
        _ => false,
    }
}

/// Run the remembered shortcut for `on`, or list the shortcuts when no
/// name is remembered (or, after a listing, give up with failure).
pub open spec fn run_named(s: MacView, on: bool, listed: bool) -> (MacPhase, StepView) {
    match cached_name(s, on) {
        Some(n) => (MacPhase::AwaitShortcutRun, StepView::Run(shortcut_run(n))),
        None => if listed {
            (MacPhase::Done, StepView::Finish(Answer::Flag(false)))
        } else {
            (MacPhase::AwaitNameListing, StepView::Run(shortcut_listing()))
        },
    }
}

/// The first step of `op` once the major version `v` is known.
pub open spec fn proceed(s: MacView, op: DndOp, v: u32) -> (MacPhase, StepView) {
    match op {
        DndOp::CheckShortcuts => if legacy(v) {
            (MacPhase::Done, StepView::Finish(Answer::Pair(true, true)))
        } else {
            (MacPhase::AwaitListing, StepView::Run(shortcut_listing()))
        },
        DndOp::TryAutoCreateShortcuts => if legacy(v) {
            (MacPhase::Done, StepView::Finish(Answer::Flag(true)))
        } else {
            (MacPhase::AwaitTryOn, StepView::Run(shortcut_run(HUSH_ON@)))
        },
        DndOp::IsDndActive => if legacy(v) {
            (MacPhase::AwaitLegacyRead, StepView::Run(legacy_dnd_read()))
        } else {
            (MacPhase::AwaitFocusRead, StepView::Run(focus_state_query()))
        },
        DndOp::SetDnd(on) => if legacy(v) {
            (MacPhase::AwaitLegacyWrite, StepView::Run(legacy_dnd_write(on)))
        } else {
            run_named(s, on, false)
        },
        DndOp::OpenShortcutsApp => (MacPhase::AwaitLaunch, StepView::Run(shortcuts_app_launch())),
    }
}

/// The first step of `op`: opening the Shortcuts app needs nothing; every
/// other operation first needs the major version, read once and remembered.
pub open spec fn start(s: MacView, op: DndOp) -> (MacPhase, StepView) {
    match op {
        DndOp::OpenShortcutsApp => (MacPhase::AwaitLaunch, StepView::Run(shortcuts_app_launch())),
        _ => match s.major {
            Some(v) => proceed(s, op, v),
            None => (MacPhase::AwaitVersion, StepView::Run(version_query())),
        },
    }
}

/// How an operation continues after `reply`, the outcome of the command of
/// its last step: the new backend state, the new phase, and the next step.
pub open spec fn next(s: MacView, t: MacTask, reply: Option<OutcomeView>) -> (
    MacView,
    MacPhase,
    StepView,
) {
    match t.phase {
        MacPhase::AwaitVersion => {
            let v = reported_major_version(reply);
            let s2 = MacView { major: Some(v), ..s };
            let (ph, st) = proceed(s2, t.op, v);
            (s2, ph, st)
        },
        MacPhase::AwaitListing => {
            let s2 = resolved(s, reported_shortcuts(reply));
            (s2, MacPhase::Done, StepView::Finish(Answer::Pair(s2.on_name is Some, s2.off_name is Some)))
        },
        MacPhase::AwaitTryOn => (
            s,
            MacPhase::AwaitTryOff(succeeded(reply)),
            StepView::Run(shortcut_run(HUSH_OFF@)),
        ),
        MacPhase::AwaitTryOff(on_ok) => (
            s,
            MacPhase::Done,
            StepView::Finish(Answer::Flag(on_ok && succeeded(reply))),
        ),
        MacPhase::AwaitLegacyRead => (
            s,
            MacPhase::Done,
            StepView::Finish(Answer::Flag(output_trimmed_is(reply, "1"@))),
        ),
        MacPhase::AwaitFocusRead => (
            s,
            MacPhase::Done,
            StepView::Finish(Answer::Flag(output_trimmed_is(reply, "1"@))),
        ),
        MacPhase::AwaitLegacyWrite => if target_of(t.op) {
            (s, MacPhase::AwaitLegacyStamp(succeeded(reply)), StepView::Run(legacy_dnd_stamp()))
        } else {
            (
                s,
                MacPhase::AwaitRestart(succeeded(reply)),
                StepView::Run(notification_center_restart()),
            )
        },
        MacPhase::AwaitLegacyStamp(w) => (
            s,
            MacPhase::AwaitRestart(w),
            StepView::Run(notification_center_restart()),
        ),
        MacPhase::AwaitRestart(w) => (s, MacPhase::Done, StepView::Finish(Answer::Flag(w))),
        MacPhase::AwaitNameListing => {
            let s2 = resolved(s, reported_shortcuts(reply));
            let (ph, st) = run_named(s2, target_of(t.op), true);
            (s2, ph, st)
        },
        MacPhase::AwaitShortcutRun => (
            s,
            MacPhase::Done,
            StepView::Finish(Answer::Flag(succeeded(reply))),
        ),
        MacPhase::AwaitLaunch => (s, MacPhase::Done, StepView::Finish(Answer::Nothing)),
        MacPhase::Done => (s, MacPhase::Done, StepView::Finish(Answer::Nothing)),
    }
}

// ───────────────────────── Backend state ─────────────────────────

/// The macOS backend: the major version once read (cached for the life of
/// the process) and the last names found for the two shortcuts.
pub struct MacDnd {
    pub major_version: Option<u32>,
    pub on_name: Option<String>,
    pub off_name: Option<String>,
}

/// The model of an optional `String`.
pub open spec fn opt_string_view(s: Option<String>) -> Option<Seq<char>> {
    match s {
        Some(x) => Some(x@),
        None => None,
    }
}

impl View for MacDnd {
    type V = MacView;

    open spec fn view(&self) -> MacView {
        MacView {
            major: self.major_version,
            on_name: opt_string_view(self.on_name),
            off_name: opt_string_view(self.off_name),
        }
    }
}

// ───────────────────────── Commands ─────────────────────────

fn text(s: &str) -> (r: String)
    ensures
        r@ == s@,
{
    String::from_str(s)
}

fn version_query_command() -> (c: CommandSpec)
    ensures
        c@ == version_query(),
{
    let c = CommandSpec {
        program: text("/usr/bin/sw_vers"),
        args: vec![text("-productVersion")],
        launch: Launch::Output,
    };
    assert(c@.args =~= version_query().args);
    c
}

fn shortcut_listing_command() -> (c: CommandSpec)
    ensures
        c@ == shortcut_listing(),
{
    let c = CommandSpec {
        program: text("/usr/bin/shortcuts"),
        args: vec![text("list")],
        launch: Launch::Output,
    };
    assert(c@.args =~= shortcut_listing().args);
    c
}

fn shortcut_run_command(name: &str) -> (c: CommandSpec)
    ensures
        c@ == shortcut_run(name@),
{
    let c = CommandSpec {
        program: text("/usr/bin/shortcuts"),
        args: vec![text("run"), text(name)],
        launch: Launch::Output,
    };
    assert(c@.args =~= shortcut_run(name@).args);
    c
}

fn shortcuts_app_launch_command() -> (c: CommandSpec)
    ensures
        c@ == shortcuts_app_launch(),
{
    let c = CommandSpec {
        program: text("/usr/bin/open"),
        args: vec![text("-a"), text("Shortcuts")],
        launch: Launch::Spawn,
    };
    assert(c@.args =~= shortcuts_app_launch().args);
    c
}

fn legacy_dnd_read_command() -> (c: CommandSpec)
    ensures
        c@ == legacy_dnd_read(),
{
    let c = CommandSpec {
        program: text("/usr/bin/defaults"),
        args: vec![
            text("-currentHost"),
            text("read"),
            text("com.apple.notificationcenterui"),
            text("doNotDisturb"),
        ],
        launch: Launch::Output,
    };
    assert(c@.args =~= legacy_dnd_read().args);
    c
}

fn focus_state_query_command() -> (c: CommandSpec)
    ensures
        c@ == focus_state_query(),
{
    let c = CommandSpec {
        program: text("/usr/bin/osascript"),
        args: vec![text("-l"), text("JavaScript"), text("-e"), text(FOCUS_STATE_SCRIPT)],
        launch: Launch::Output,
    };
    assert(c@.args =~= focus_state_query().args);
    c
}

fn legacy_dnd_write_command(on: bool) -> (c: CommandSpec)
    ensures
        c@ == legacy_dnd_write(on),
{
    let value = if on {
        text("true")
    } else {
        text("false")
    };
    let c = CommandSpec {
        program: text("/usr/bin/defaults"),
        args: vec![
            text("-currentHost"),
            text("write"),
            text("com.apple.notificationcenterui"),
            text("doNotDisturb"),
            text("-bool"),
            value,
        ],
        launch: Launch::Output,
    };
    assert(c@.args =~= legacy_dnd_write(on).args);
    c
}

fn legacy_dnd_stamp_command() -> (c: CommandSpec)
    ensures
        c@ == legacy_dnd_stamp(),
{
    let c = CommandSpec {
        program: text("/bin/sh"),
        args: vec![text("-c"), text(DND_STAMP_SCRIPT)],
        launch: Launch::Output,
    };
    assert(c@.args =~= legacy_dnd_stamp().args);
    c
}

fn notification_center_restart_command() -> (c: CommandSpec)
    ensures
        c@ == notification_center_restart(),
{
    let c = CommandSpec {
        program: text("/usr/bin/killall"),
        args: vec![text("NotificationCenter")],
        launch: Launch::Output,
    };
    assert(c@.args =~= notification_center_restart().args);
    c
}

// ───────────────────────── Reading replies ─────────────────────────

/// The major version in `sw_vers -productVersion` output (see `major_version_of`).
pub fn major_version_from_text(text: &str) -> (v: u32)
    ensures
        v == major_version_of(text@),
{
    let cs = chars_of(text);
    let (lo, hi) = trim_bounds(&cs);
    let t = text.substring_char(lo, hi);
    let tc = chars_of(t);
    let dot = find_char_from(&tc, 0, '.');
    proof {
        assert(tc@.skip(0) =~= tc@);
    }
    let (field, _) = tc.as_slice().split_at(dot);
    match parse_u32_chars(field) {
        Some(v) => v,
        None => DEFAULT_MAJOR_VERSION,
    }
}

/// The major version that a reply to the version query reports: 12 when
/// the command could not run or printed no usable number.
pub fn major_version_from_reply(reply: &Option<CommandOutcome>) -> (v: u32)
    ensures
        v == reported_major_version(reply_view(*reply)),
{
    let t = reply_text(reply);
    major_version_from_text(t.as_str())
}

/// The shortcut names that a reply to the listing reports, one per line.
pub fn shortcut_list_from_reply(reply: &Option<CommandOutcome>) -> (names: Vec<String>)
    ensures
        names.deep_view() == reported_shortcuts(reply_view(*reply)),
{
    let t = reply_text(reply);
    split_lines(t.as_str())
}

/// Whether a Mac of this major version uses the legacy Notification Center
/// switch instead of shortcuts (true before macOS 12).
pub fn is_legacy_dnd(major_version: u32) -> (b: bool)
    ensures
        b == legacy(major_version),
{
    major_version < 12
}

/// The first of `shortcuts` whose name equals `target` up to ASCII case,
/// as it is spelled there.
pub fn find_shortcut_name(shortcuts: &Vec<String>, target: &str) -> (found: Option<String>)
    ensures
        opt_string_view(found) == first_match(shortcuts.deep_view(), target@),
{
    let n = shortcuts.len();
    let mut i: usize = 0;
    assert(shortcuts.deep_view().skip(0) =~= shortcuts.deep_view());
    while i < n
        invariant
            i <= n,
            n == shortcuts@.len(),
            first_match(shortcuts.deep_view(), target@) == first_match(
                shortcuts.deep_view().skip(i as int),
                target@,
            ),
        decreases n - i,
    {
        let ghost rest = shortcuts.deep_view().skip(i as int);
        assert(rest[0] == shortcuts[i as int]@);
        if str_eq_ignore_ascii_case(shortcuts[i].as_str(), target) {
            return Some(shortcuts[i].clone());
        }
        assert(rest.drop_first() =~= shortcuts.deep_view().skip(i + 1));
        i = i + 1;
    }
    None
}

impl MacDnd {
    /// A backend that knows nothing yet.
    pub fn new() -> (m: MacDnd)
        ensures
            m@ == (MacView { major: None, on_name: None, off_name: None }),
    {
        MacDnd { major_version: None, on_name: None, off_name: None }
    }

    /// Look both shortcut names up afresh in `shortcuts`, remember what was
    /// found (or that nothing was), and say which of the two exist.
    pub fn resolve_shortcut_names(&mut self, shortcuts: &Vec<String>) -> (found: (bool, bool))
        ensures
            final(self)@ == resolved(old(self)@, shortcuts.deep_view()),
            found == (final(self)@.on_name is Some, final(self)@.off_name is Some),
    {
        let on = find_shortcut_name(shortcuts, HUSH_ON);
        let off = find_shortcut_name(shortcuts, HUSH_OFF);
        let found = (on.is_some(), off.is_some());
        self.on_name = on;
        self.off_name = off;
        found
    }

    fn run_named(&self, on: bool, listed: bool) -> (r: (MacPhase, Step))
        ensures
            (r.0, r.1@) == run_named(self@, on, listed),
    {
        let name = if on {
            &self.on_name
        } else {
            &self.off_name
        };
        match name {
            Some(n) => (MacPhase::AwaitShortcutRun, Step::Run(shortcut_run_command(n.as_str()))),
            None => if listed {
                (MacPhase::Done, Step::Finish(Answer::Flag(false)))
            } else {
                (MacPhase::AwaitNameListing, Step::Run(shortcut_listing_command()))
            },
        }
    }

    fn proceed(&self, op: DndOp, v: u32) -> (r: (MacPhase, Step))
        ensures
            (r.0, r.1@) == proceed(self@, op, v),
    {
        let old_style = is_legacy_dnd(v);
        match op {
            DndOp::CheckShortcuts => if old_style {
                (MacPhase::Done, Step::Finish(Answer::Pair(true, true)))
            } else {
                (MacPhase::AwaitListing, Step::Run(shortcut_listing_command()))
            },
            DndOp::TryAutoCreateShortcuts => if old_style {
                (MacPhase::Done, Step::Finish(Answer::Flag(true)))
            } else {
                (MacPhase::AwaitTryOn, Step::Run(shortcut_run_command(HUSH_ON)))
            },
            DndOp::IsDndActive => if old_style {
                (MacPhase::AwaitLegacyRead, Step::Run(legacy_dnd_read_command()))
            } else {
                (MacPhase::AwaitFocusRead, Step::Run(focus_state_query_command()))
            },
            DndOp::SetDnd(on) => if old_style {
                (MacPhase::AwaitLegacyWrite, Step::Run(legacy_dnd_write_command(on)))
            } else {
                self.run_named(on, false)
            },
            DndOp::OpenShortcutsApp => (
                MacPhase::AwaitLaunch,
                Step::Run(shortcuts_app_launch_command()),
            ),
        }
    }

    /// Begin `op`: the task to continue with `step`, and its first step.
    pub fn start(&self, op: DndOp) -> (r: (MacTask, Step))
        ensures
            r.0.op == op,
            (r.0.phase, r.1@) == start(self@, op),
    {
        let (phase, step) = match op {
            DndOp::OpenShortcutsApp => (
                MacPhase::AwaitLaunch,
                Step::Run(shortcuts_app_launch_command()),
            ),
            _ => match self.major_version {
                Some(v) => self.proceed(op, v),
                None => (MacPhase::AwaitVersion, Step::Run(version_query_command())),
            },
        };
        (MacTask { op, phase }, step)
    }

    /// Continue `task` with `reply`, the outcome of the command of its last
    /// step (`None` when that command could not be started).
    pub fn step(&mut self, task: &mut MacTask, reply: Option<CommandOutcome>) -> (st: Step)
        ensures
            (final(self)@, final(task).phase, st@) == next(old(self)@, *old(task), reply_view(reply)),
            final(task).op == old(task).op,
    {
        let op = task.op;
        let (phase, step) = match task.phase {
            MacPhase::AwaitVersion => {
                let v = major_version_from_reply(&reply);
                self.major_version = Some(v);
                self.proceed(op, v)
            },
            MacPhase::AwaitListing => {
                let names = shortcut_list_from_reply(&reply);
                let (has_on, has_off) = self.resolve_shortcut_names(&names);
                (MacPhase::Done, Step::Finish(Answer::Pair(has_on, has_off)))
            },
            MacPhase::AwaitTryOn => (
                MacPhase::AwaitTryOff(command_succeeded(&reply)),
                Step::Run(shortcut_run_command(HUSH_OFF)),
            ),
            MacPhase::AwaitTryOff(on_ok) => {
                let off_ok = command_succeeded(&reply);
                (MacPhase::Done, Step::Finish(Answer::Flag(on_ok && off_ok)))
            },
            MacPhase::AwaitLegacyRead => (
                MacPhase::Done,
                Step::Finish(Answer::Flag(reply_trimmed_is(&reply, "1"))),
            ),
            MacPhase::AwaitFocusRead => (
                MacPhase::Done,
                Step::Finish(Answer::Flag(reply_trimmed_is(&reply, "1"))),
            ),
            MacPhase::AwaitLegacyWrite => {
                let w = command_succeeded(&reply);
                let on = match op {
                    DndOp::SetDnd(on) => on,
                    _ => false,
                };
                if on {
                    (MacPhase::AwaitLegacyStamp(w), Step::Run(legacy_dnd_stamp_command()))
                } else {
                    (MacPhase::AwaitRestart(w), Step::Run(notification_center_restart_command()))
                }
            },
            MacPhase::AwaitLegacyStamp(w) => (
                MacPhase::AwaitRestart(w),
                Step::Run(notification_center_restart_command()),
            ),
            MacPhase::AwaitRestart(w) => (MacPhase::Done, Step::Finish(Answer::Flag(w))),
            MacPhase::AwaitNameListing => {
                let names = shortcut_list_from_reply(&reply);
                let _ = self.resolve_shortcut_names(&names);
                let on = match op {
                    DndOp::SetDnd(on) => on,
                    _ => false,
                };
                self.run_named(on, true)
            },
            MacPhase::AwaitShortcutRun => (
                MacPhase::Done,
                Step::Finish(Answer::Flag(command_succeeded(&reply))),
            ),
            MacPhase::AwaitLaunch => (MacPhase::Done, Step::Finish(Answer::Nothing)),
            MacPhase::Done => (MacPhase::Done, Step::Finish(Answer::Nothing)),
        };
        task.phase = phase;
        step
    }
}

/// Begin checking which switching shortcuts exist. On macOS before 12 the
/// answer is that both do (none are needed); from 12 on the shortcuts are
/// listed afresh and the names found are remembered.
pub fn check_shortcuts(mac: &MacDnd) -> (r: (MacTask, Step))
    ensures
        r.0.op == DndOp::CheckShortcuts,
        (r.0.phase, r.1@) == start(mac@, DndOp::CheckShortcuts),
{
    mac.start(DndOp::CheckShortcuts)
}

/// Begin trying both shortcuts; on macOS before 12 this succeeds at once.
pub fn try_auto_create_shortcuts(mac: &MacDnd) -> (r: (MacTask, Step))
    ensures
        r.0.op == DndOp::TryAutoCreateShortcuts,
        (r.0.phase, r.1@) == start(mac@, DndOp::TryAutoCreateShortcuts),
{
    mac.start(DndOp::TryAutoCreateShortcuts)
}

/// Begin opening the Shortcuts app, where the user creates the shortcuts.
pub fn open_shortcuts_app(mac: &MacDnd) -> (r: (MacTask, Step))
    ensures
        r.0.op == DndOp::OpenShortcutsApp,
        (r.0.phase, r.1@) == start(mac@, DndOp::OpenShortcutsApp),
{
    mac.start(DndOp::OpenShortcutsApp)
}

/// Begin asking whether Do Not Disturb / Focus is on: the legacy preference
/// is read before macOS 12, the Focus state from macOS 12 on; either way
/// the answer is yes exactly when the query printed `1`.
pub fn is_dnd_active(mac: &MacDnd) -> (r: (MacTask, Step))
    ensures
        r.0.op == DndOp::IsDndActive,
        (r.0.phase, r.1@) == start(mac@, DndOp::IsDndActive),
{
    mac.start(DndOp::IsDndActive)
}

/// Begin switching Do Not Disturb to `on`: through the remembered shortcut
/// from macOS 12 on (listing the shortcuts first when no name is known), or
/// through the legacy preference before.
pub fn set_dnd(mac: &MacDnd, on: bool) -> (r: (MacTask, Step))
    ensures
        r.0.op == DndOp::SetDnd(on),
        (r.0.phase, r.1@) == start(mac@, DndOp::SetDnd(on)),
{
    mac.start(DndOp::SetDnd(on))
}

// ───────────────────────── Laws ─────────────────────────

/// A found shortcut name is spelled as in the list and equals the target up
/// to ASCII case, and no earlier entry does; nothing is found exactly when
/// no entry matches.
pub proof fn law_found_name_is_first_match(names: Seq<Seq<char>>, target: Seq<char>)
    ensures
        first_match(names, target) matches Some(n) ==> exists|i: int|
            0 <= i < names.len() && names[i] == n && eq_ignore_ascii_case(n, target) && forall|j: int|
                0 <= j < i ==> !eq_ignore_ascii_case(#[trigger] names[j], target),
        first_match(names, target) is None <==> forall|i: int|
            0 <= i < names.len() ==> !eq_ignore_ascii_case(#[trigger] names[i], target),
    decreases names.len(),
{
    if names.len() > 0 {
        let rest = names.drop_first();
        law_found_name_is_first_match(rest, target);
        if eq_ignore_ascii_case(names[0], target) {
            assert(names[0] == names[0]);
        } else {
            if let Some(n) = first_match(rest, target) {
                let i = choose|i: int|
                    0 <= i < rest.len() && rest[i] == n && eq_ignore_ascii_case(n, target) && forall|j: int|
                        0 <= j < i ==> !eq_ignore_ascii_case(#[trigger] rest[j], target);
                assert(names[i + 1] == n);
                assert forall|j: int| 0 <= j < i + 1 implies !eq_ignore_ascii_case(
                    #[trigger] names[j],
                    target,
                ) by {
                    if j > 0 {
                        assert(names[j] == rest[j - 1]);
                    }
                }
            } else {
                assert forall|i: int| 0 <= i < names.len() implies !eq_ignore_ascii_case(
                    #[trigger] names[i],
                    target,
                ) by {
                    if i > 0 {
                        assert(names[i] == rest[i - 1]);
                    }
                }
            }
            if forall|i: int| 0 <= i < names.len() ==> !eq_ignore_ascii_case(#[trigger] names[i], target) {
                assert forall|i: int| 0 <= i < rest.len() implies !eq_ignore_ascii_case(
                    #[trigger] rest[i],
                    target,
                ) by {
                    assert(rest[i] == names[i + 1]);
                }
            }
        }
    }
}

/// The version is read once: a reply sets it (12 when unreadable), and an
/// operation started afterwards never asks for it again.
pub proof fn law_version_read_once(s: MacView, t: MacTask, reply: Option<OutcomeView>, op: DndOp)
    requires
        t.phase == MacPhase::AwaitVersion,
    ensures
        next(s, t, reply).0.major == Some(reported_major_version(reply)),
        reply is None ==> reported_major_version(reply) == DEFAULT_MAJOR_VERSION,
        start(next(s, t, reply).0, op).1 != StepView::Run(version_query()),
{
    assert(output_text(None) =~= Seq::<char>::empty());
    let t0 = trim(Seq::<char>::empty());
    assert(t0 =~= Seq::<char>::empty());
    let v = reported_major_version(reply);
    let s2 = next(s, t, reply).0;
    assert("/usr/bin/sw_vers"@ != "/usr/bin/open"@) by {
        reveal_strlit("/usr/bin/sw_vers");
        reveal_strlit("/usr/bin/open");
        assert("/usr/bin/sw_vers"@.len() != "/usr/bin/open"@.len());
    }
    assert("/usr/bin/sw_vers"@ != "/usr/bin/shortcuts"@) by {
        reveal_strlit("/usr/bin/sw_vers");
        reveal_strlit("/usr/bin/shortcuts");
        assert("/usr/bin/sw_vers"@.len() != "/usr/bin/shortcuts"@.len());
    }
    assert("/usr/bin/sw_vers"@ != "/usr/bin/osascript"@) by {
        reveal_strlit("/usr/bin/sw_vers");
        reveal_strlit("/usr/bin/osascript");
        assert("/usr/bin/sw_vers"@.len() != "/usr/bin/osascript"@.len());
    }
    assert("/usr/bin/sw_vers"@ != "/usr/bin/defaults"@) by {
        reveal_strlit("/usr/bin/sw_vers");
        reveal_strlit("/usr/bin/defaults");
        assert("/usr/bin/sw_vers"@[10] != "/usr/bin/defaults"@[10]);
    }
}

/// Before macOS 12 no shortcuts are needed: checking reports both present
/// and trying them succeeds, without running anything.
pub proof fn law_legacy_needs_no_shortcuts(s: MacView)
    requires
        s.major matches Some(v) && legacy(v),
    ensures
        start(s, DndOp::CheckShortcuts) == (MacPhase::Done, StepView::Finish(Answer::Pair(true, true))),
        start(s, DndOp::TryAutoCreateShortcuts) == (MacPhase::Done, StepView::Finish(Answer::Flag(true))),
{
}

/// From macOS 12 on, checking lists the shortcuts afresh, remembers the
/// names found (forgetting old ones), and reports which exist.
pub proof fn law_check_refreshes_names(s: MacView, reply: Option<OutcomeView>)
    requires
        s.major matches Some(v) && !legacy(v),
    ensures
        start(s, DndOp::CheckShortcuts) == (MacPhase::AwaitListing, StepView::Run(shortcut_listing())),
        ({
            let (s2, ph, st) = next(s, MacTask { op: DndOp::CheckShortcuts, phase: MacPhase::AwaitListing }, reply);
            let names = reported_shortcuts(reply);
            &&& s2.on_name == first_match(names, HUSH_ON@)
            &&& s2.off_name == first_match(names, HUSH_OFF@)
            &&& s2.major == s.major
            &&& ph == MacPhase::Done
            &&& st == StepView::Finish(Answer::Pair(first_match(names, HUSH_ON@) is Some, first_match(names, HUSH_OFF@) is Some))
        }),
{
}

/// From macOS 12 on, a switch runs the remembered shortcut for its target
/// and succeeds exactly when that shortcut ran successfully.
pub proof fn law_switch_runs_remembered_shortcut(s: MacView, on: bool, reply: Option<OutcomeView>)
    requires
        s.major matches Some(v) && !legacy(v),
        cached_name(s, on) is Some,
    ensures
        start(s, DndOp::SetDnd(on)) == (MacPhase::AwaitShortcutRun, StepView::Run(shortcut_run(cached_name(s, on).unwrap()))),
        next(s, MacTask { op: DndOp::SetDnd(on), phase: MacPhase::AwaitShortcutRun }, reply) == (s, MacPhase::Done, StepView::Finish(Answer::Flag(succeeded(reply)))),
{
}

/// From macOS 12 on, a switch with no remembered name lists the shortcuts
/// first; it then runs the one found, or fails without running anything.
pub proof fn law_switch_resolves_missing_name(s: MacView, on: bool, listing: Option<OutcomeView>)
    requires
        s.major matches Some(v) && !legacy(v),
        cached_name(s, on) is None,
    ensures
        start(s, DndOp::SetDnd(on)) == (MacPhase::AwaitNameListing, StepView::Run(shortcut_listing())),
        ({
            let (s2, ph, st) = next(s, MacTask { op: DndOp::SetDnd(on), phase: MacPhase::AwaitNameListing }, listing);
            let found = first_match(reported_shortcuts(listing), if on { HUSH_ON@ } else { HUSH_OFF@ });
            &&& s2 == resolved(s, reported_shortcuts(listing))
            &&& (found matches Some(n) ==> ph == MacPhase::AwaitShortcutRun && st == StepView::Run(shortcut_run(n)))
            &&& (found is None ==> ph == MacPhase::Done && st == StepView::Finish(Answer::Flag(false)))
        }),
{
}

/// Before macOS 12 a switch writes the preference, records the switch-on
/// time when switching on, restarts Notification Center, and succeeds
/// exactly when the write succeeded, whatever the later commands did.
pub proof fn law_legacy_switch_sequence(
    s: MacView,
    on: bool,
    write: Option<OutcomeView>,
    second: Option<OutcomeView>,
    third: Option<OutcomeView>,
)
    requires
        s.major matches Some(v) && legacy(v),
    ensures
        start(s, DndOp::SetDnd(on)) == (MacPhase::AwaitLegacyWrite, StepView::Run(legacy_dnd_write(on))),
        ({
            let t = MacTask { op: DndOp::SetDnd(on), phase: MacPhase::AwaitLegacyWrite };
            let (s1, ph1, st1) = next(s, t, write);
            let (s2, ph2, st2) = next(s1, MacTask { phase: ph1, ..t }, second);
            let (s3, ph3, st3) = next(s2, MacTask { phase: ph2, ..t }, third);
            &&& s1 == s
            &&& s2 == s
            &&& if on {
                &&& st1 == StepView::Run(legacy_dnd_stamp())
                &&& st2 == StepView::Run(notification_center_restart())
                &&& st3 == StepView::Finish(Answer::Flag(succeeded(write)))
                &&& ph3 == MacPhase::Done
            } else {
                &&& st1 == StepView::Run(notification_center_restart())
                &&& st2 == StepView::Finish(Answer::Flag(succeeded(write)))
                &&& ph2 == MacPhase::Done
            }
        }),
{
}

/// How many more replies a phase can wait for at most.
pub open spec fn remaining_replies(ph: MacPhase) -> nat {
    match ph {
        MacPhase::AwaitVersion => 4,
        MacPhase::AwaitLegacyWrite => 3,
        MacPhase::AwaitLegacyStamp(_) => 2,
        MacPhase::AwaitTryOn => 2,
        MacPhase::AwaitNameListing => 2,
        MacPhase::Done => 0,
        _ => 1,
    }
}

/// Every macOS operation ends: each reply brings it closer to `Done`, and
/// it starts at most four replies away from it, so no operation runs more
/// than four commands.
pub proof fn law_operations_end(s: MacView, t: MacTask, reply: Option<OutcomeView>, op: DndOp)
    ensures
        remaining_replies(start(s, op).0) <= 4,
        start(s, op).1 is Finish <==> start(s, op).0 == MacPhase::Done,
        t.phase != MacPhase::Done ==> remaining_replies(next(s, t, reply).1) < remaining_replies(t.phase),
        next(s, t, reply).2 is Finish <==> next(s, t, reply).1 == MacPhase::Done,
{
}

/// Whether Do Not Disturb / Focus is on is read from the system on every
/// macOS version, and the answer is what the query printed.
pub proof fn law_dnd_state_is_read(s: MacView, reply: Option<OutcomeView>)
    requires
        s.major is Some,
    ensures
        ({
            let (ph, st) = start(s, DndOp::IsDndActive);
            &&& st == StepView::Run(if legacy(s.major.unwrap()) { legacy_dnd_read() } else { focus_state_query() })
            &&& next(s, MacTask { op: DndOp::IsDndActive, phase: ph }, reply) == (s, MacPhase::Done, StepView::Finish(Answer::Flag(output_trimmed_is(reply, "1"@))))
        }),
{
}

// ───────────────────────── Commands and answers, spelled out ─────────────────────────

/// The command ran and exited successfully.
pub open spec fn ran_ok(reply: Option<OutcomeView>) -> bool {
    reply matches Some(o) && o.success
}

/// The Shortcuts command-line tool running the shortcut `name`.
pub open spec fn shortcuts_run_of(name: Seq<char>) -> CommandView {
    CommandView { program: "/usr/bin/shortcuts"@, args: seq!["run"@, name], launch: Launch::Output }
}

/// Macs before macOS 12 use the legacy switch; from 12 on, shortcuts.
pub proof fn law_legacy_below_twelve(v: u32)
    ensures
        legacy(v) <==> v < 12,
{
}

/// From macOS 12 on, trying the shortcuts runs "Hush On", then "Hush Off",
/// and succeeds exactly when both runs succeeded; the backend state stays.
pub proof fn law_try_needs_both_shortcuts(s: MacView, r1: Option<OutcomeView>, r2: Option<OutcomeView>)
    requires
        s.major matches Some(v) && v >= 12,
    ensures
        start(s, DndOp::TryAutoCreateShortcuts) == (MacPhase::AwaitTryOn, StepView::Run(shortcuts_run_of("Hush On"@))),
        ({
            let t = MacTask { op: DndOp::TryAutoCreateShortcuts, phase: MacPhase::AwaitTryOn };
            let (s1, ph1, st1) = next(s, t, r1);
            let (s2, ph2, st2) = next(s1, MacTask { phase: ph1, ..t }, r2);
            &&& s1 == s
            &&& st1 == StepView::Run(shortcuts_run_of("Hush Off"@))
            &&& s2 == s
            &&& ph2 == MacPhase::Done
            &&& st2 == StepView::Finish(Answer::Flag(ran_ok(r1) && ran_ok(r2)))
        }),
{
}

/// The version is read with `sw_vers -productVersion`; without a usable
/// reply it is taken to be 12.
pub proof fn law_version_query(s: MacView, op: DndOp)
    requires
        s.major is None,
        op != DndOp::OpenShortcutsApp,
    ensures
        start(s, op) == (MacPhase::AwaitVersion, StepView::Run(CommandView {
            program: "/usr/bin/sw_vers"@,
            args: seq!["-productVersion"@],
            launch: Launch::Output,
        })),
        reported_major_version(None) == 12,
{
    assert(output_text(None) =~= Seq::<char>::empty());
    assert(trim(Seq::<char>::empty()) =~= Seq::<char>::empty());
}

/// Opening the Shortcuts app launches `open -a Shortcuts` without waiting,
/// and then the operation ends with no answer.
pub proof fn law_open_shortcuts_app(s: MacView, reply: Option<OutcomeView>)
    ensures
        start(s, DndOp::OpenShortcutsApp) == (MacPhase::AwaitLaunch, StepView::Run(CommandView {
            program: "/usr/bin/open"@,
            args: seq!["-a"@, "Shortcuts"@],
            launch: Launch::Spawn,
        })),
        next(s, MacTask { op: DndOp::OpenShortcutsApp, phase: MacPhase::AwaitLaunch }, reply) == (s, MacPhase::Done, StepView::Finish(Answer::Nothing)),
{
}

/// From macOS 12 on, checking runs `shortcuts list` and answers whether a
/// line equal to "Hush On", and one equal to "Hush Off", up to ASCII case,
/// is in the listing; those lines are remembered as the names.
pub proof fn law_check_lists_shortcuts(s: MacView, reply: Option<OutcomeView>)
    requires
        s.major matches Some(v) && v >= 12,
    ensures
        start(s, DndOp::CheckShortcuts) == (MacPhase::AwaitListing, StepView::Run(CommandView {
            program: "/usr/bin/shortcuts"@,
            args: seq!["list"@],
            launch: Launch::Output,
        })),
        ({
            let names = lines(output_text(reply));
            let on = first_match(names, "Hush On"@);
            let off = first_match(names, "Hush Off"@);
            next(s, MacTask { op: DndOp::CheckShortcuts, phase: MacPhase::AwaitListing }, reply) == (
                MacView { major: s.major, on_name: on, off_name: off },
                MacPhase::Done,
                StepView::Finish(Answer::Pair(on is Some, off is Some)),
            )
        }),
{
}

/// From macOS 12 on, with a name remembered, switching runs that shortcut
/// and answers whether it ran successfully.
pub proof fn law_switch_runs_named_shortcut(s: MacView, on: bool, reply: Option<OutcomeView>)
    requires
        s.major matches Some(v) && v >= 12,
        (if on { s.on_name } else { s.off_name }) is Some,
    ensures
        start(s, DndOp::SetDnd(on)) == (MacPhase::AwaitShortcutRun, StepView::Run(shortcuts_run_of(
            (if on { s.on_name } else { s.off_name }).unwrap(),
        ))),
        next(s, MacTask { op: DndOp::SetDnd(on), phase: MacPhase::AwaitShortcutRun }, reply) == (s, MacPhase::Done, StepView::Finish(Answer::Flag(ran_ok(reply)))),
{
}

/// Before macOS 12, switching writes `doNotDisturb` as `true` or `false`
/// with `defaults -currentHost write com.apple.notificationcenterui`,
/// reading the state reads that key, and Notification Center is restarted
/// with `killall NotificationCenter`.
pub proof fn law_legacy_commands(on: bool)
    ensures
        legacy_dnd_write(on) == (CommandView {
            program: "/usr/bin/defaults"@,
            args: seq![
                "-currentHost"@,
                "write"@,
                "com.apple.notificationcenterui"@,
                "doNotDisturb"@,
                "-bool"@,
                if on { "true"@ } else { "false"@ },
            ],
            launch: Launch::Output,
        }),
        legacy_dnd_read() == (CommandView {
            program: "/usr/bin/defaults"@,
            args: seq!["-currentHost"@, "read"@, "com.apple.notificationcenterui"@, "doNotDisturb"@],
            launch: Launch::Output,
        }),
        notification_center_restart() == (CommandView {
            program: "/usr/bin/killall"@,
            args: seq!["NotificationCenter"@],
            launch: Launch::Output,
        }),
        legacy_dnd_stamp().program == "/bin/sh"@,
        shortcut_listing() == (CommandView { program: "/usr/bin/shortcuts"@, args: seq!["list"@], launch: Launch::Output }),
{
}

/// Before macOS 12 a switch succeeds exactly when its `defaults write`
/// ran successfully, whatever the later commands did; the state is
/// reported on exactly when the `defaults read` printed `1`.
pub proof fn law_legacy_answers(s: MacView, on: bool, w: Option<OutcomeView>, r2: Option<OutcomeView>, r3: Option<OutcomeView>, read: Option<OutcomeView>)
    requires
        s.major matches Some(v) && v < 12,
    ensures
        ({
            let t = MacTask { op: DndOp::SetDnd(on), phase: MacPhase::AwaitLegacyWrite };
            let (s1, ph1, _) = next(s, t, w);
            let (s2, ph2, st2) = next(s1, MacTask { phase: ph1, ..t }, r2);
            let (_, _, st3) = next(s2, MacTask { phase: ph2, ..t }, r3);
            if on {
                st3 == StepView::Finish(Answer::Flag(ran_ok(w)))
            } else {
                st2 == StepView::Finish(Answer::Flag(ran_ok(w)))
            }
        }),
        start(s, DndOp::IsDndActive).1 == StepView::Run(legacy_dnd_read()),
        next(s, MacTask { op: DndOp::IsDndActive, phase: MacPhase::AwaitLegacyRead }, read).2 == StepView::Finish(Answer::Flag(
            read matches Some(o) && trim(crate::command::lossy_text(o.stdout)) == "1"@,
        )),
{
}

/// From macOS 12 on, the Focus state is read with the Focus query script
/// run by `osascript`, and reported on exactly when it printed `1`.
pub proof fn law_focus_state_read(s: MacView, reply: Option<OutcomeView>)
    requires
        s.major matches Some(v) && v >= 12,
    ensures
        start(s, DndOp::IsDndActive) == (MacPhase::AwaitFocusRead, StepView::Run(CommandView {
            program: "/usr/bin/osascript"@,
            args: seq!["-l"@, "JavaScript"@, "-e"@, FOCUS_STATE_SCRIPT@],
            launch: Launch::Output,
        })),
        next(s, MacTask { op: DndOp::IsDndActive, phase: MacPhase::AwaitFocusRead }, reply) == (s, MacPhase::Done, StepView::Finish(Answer::Flag(
            reply matches Some(o) && trim(crate::command::lossy_text(o.stdout)) == "1"@,
        ))),
{
}

} // verus!
