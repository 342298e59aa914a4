//! Do Not Disturb backends. Each operation is a short conversation: the
//! backend names a command to run, the caller runs it and hands back the
//! outcome, until the backend gives its answer.
pub mod macos;
pub mod windows;

use crate::command::{reply_view, CommandOutcome, CommandSpec, CommandView, OutcomeView};
use crate::dnd::macos::{MacDnd, MacTask, MacView, MacPhase};
use vstd::prelude::*;

verus! {

/// What the tray asks of the Do Not Disturb backend.
#[derive(PartialEq, Eq, Structural, Clone, Copy, Debug)]
pub enum DndOp {
    /// Switch Do Not Disturb on (`true`) or off (`false`).
    SetDnd(bool),
    /// Find out which of the two switching shortcuts exist.
    CheckShortcuts,
    /// Run both switching shortcuts once, to see whether they work.
    TryAutoCreateShortcuts,
    /// Open the app in which the user creates shortcuts.
    OpenShortcutsApp,
    /// Find out whether Do Not Disturb is on.
    IsDndActive,
}

/// The answer that ends an operation.
#[derive(PartialEq, Eq, Structural, Clone, Copy, Debug)]
pub enum Answer {
    /// Success of a switch, or a yes/no answer.
    Flag(bool),
    /// Whether the "on" and the "off" shortcut exist.
    Pair(bool, bool),
    /// The operation has no answer.
    Nothing,
}

/// What the caller does next.
#[derive(Clone, Debug)]
pub enum Step {
    /// Run this command and hand its outcome back.
    Run(CommandSpec),
    /// The operation is over, with this answer.
    Finish(Answer),
}

/// The model of a `Step`.
pub enum StepView {
    Run(CommandView),
    Finish(Answer),
}

impl View for Step {
    type V = StepView;

    open spec fn view(&self) -> StepView {
        match self {
            Step::Run(c) => StepView::Run(c@),
            Step::Finish(a) => StepView::Finish(*a),
        }
    }
}

/// The system the tray runs on.
#[derive(PartialEq, Eq, Structural, Clone, Copy, Debug)]
pub enum Platform {
    MacOs,
    Windows,
    /// A system without a Do Not Disturb switch that the tray knows.
    Other,
}

/// The Do Not Disturb backend of the running system.
pub struct Dnd {
    pub platform: Platform,
    pub mac: MacDnd,
}

/// The model of a `Dnd`.
pub struct DndView {
    pub platform: Platform,
    pub mac: MacView,
}

impl View for Dnd {
    type V = DndView;

    open spec fn view(&self) -> DndView {
        DndView { platform: self.platform, mac: self.mac@ }
    }
}

/// An operation in progress.
#[derive(PartialEq, Eq, Structural, Clone, Copy, Debug)]
pub enum DndTask {
    /// A macOS operation.
    Mac(MacTask),
    /// A Windows operation that waits for its script's reply.
    Windows(DndOp),
    /// The operation is over.
    Finished,
}

/// What an operation answers on a system without a known switch: nothing
/// can be switched, no shortcut exists, nothing is active.
pub open spec fn unsupported_answer(op: DndOp) -> Answer {
    match op {
        DndOp::SetDnd(_) => Answer::Flag(false),
        DndOp::CheckShortcuts => Answer::Pair(false, false),
        DndOp::TryAutoCreateShortcuts => Answer::Flag(false),
        DndOp::OpenShortcutsApp => Answer::Nothing,
        DndOp::IsDndActive => Answer::Flag(false),
    }
}

/// The task and first step of `op` on `d`.
pub open spec fn start(d: DndView, op: DndOp) -> (DndTask, StepView) {
    match d.platform {
        Platform::MacOs => {
            let (ph, st) = macos::start(d.mac, op);
            (DndTask::Mac(MacTask { op, phase: ph }), st)
        },
        Platform::Windows => {
            let (waiting, st) = windows::start(op);
            (if waiting { DndTask::Windows(op) } else { DndTask::Finished }, st)
        },
        Platform::Other => (DndTask::Finished, StepView::Finish(unsupported_answer(op))),
    }
}

/// How `t` continues after `reply`: the new backend, task and step.
pub open spec fn next(d: DndView, t: DndTask, reply: Option<OutcomeView>) -> (DndView, DndTask, StepView) {
    match t {
        DndTask::Mac(mt) => {
            let (m2, ph, st) = macos::next(d.mac, mt, reply);
            (
                DndView { mac: m2, ..d },
                if ph == MacPhase::Done { DndTask::Finished } else { DndTask::Mac(MacTask { op: mt.op, phase: ph }) },
                st,
            )
        },
        DndTask::Windows(op) => (d, DndTask::Finished, StepView::Finish(windows::answer(op, reply))),
        DndTask::Finished => (d, DndTask::Finished, StepView::Finish(Answer::Nothing)),
    }
}

impl Dnd {
    /// A backend for `platform` that knows nothing yet.
    pub fn new(platform: Platform) -> (d: Dnd)
        ensures
            d@.platform == platform,
            d@.mac == (MacView { major: None, on_name: None, off_name: None }),
    {
        Dnd { platform, mac: MacDnd::new() }
    }

    /// Begin `op`: the task to continue with `step`, and its first step.
    pub fn start(&self, op: DndOp) -> (r: (DndTask, Step))
        ensures
            (r.0, r.1@) == start(self@, op),
    {
        match self.platform {
            Platform::MacOs => {
                let (t, st) = self.mac.start(op);
                (DndTask::Mac(t), st)
            },
            Platform::Windows => {
                let (waiting, st) = windows::begin(op);
                (if waiting { DndTask::Windows(op) } else { DndTask::Finished }, st)
            },
            Platform::Other => {
                let a = match op {
                    DndOp::SetDnd(_) => Answer::Flag(false),
                    DndOp::CheckShortcuts => Answer::Pair(false, false),
                    DndOp::TryAutoCreateShortcuts => Answer::Flag(false),
                    DndOp::OpenShortcutsApp => Answer::Nothing,
                    DndOp::IsDndActive => Answer::Flag(false),
                };
                (DndTask::Finished, Step::Finish(a))
            },
        }
    }

    /// Continue `task` with `reply`, the outcome of the command of its last
    /// step (`None` when that command could not be started).
    pub fn step(&mut self, task: &mut DndTask, reply: Option<CommandOutcome>) -> (st: Step)
        ensures
            (final(self)@, *final(task), st@) == next(old(self)@, *old(task), reply_view(reply)),
    {
        match *task {
            DndTask::Mac(mt) => {
                let mut t = mt;
                let st = self.mac.step(&mut t, reply);
                *task = if t.phase == MacPhase::Done { DndTask::Finished } else { DndTask::Mac(t) };
                st
            },
            DndTask::Windows(op) => {
                let a = windows::finish(op, &reply);
                *task = DndTask::Finished;
                Step::Finish(a)
            },
            DndTask::Finished => Step::Finish(Answer::Nothing),
        }
    }
}

/// Begin switching Do Not Disturb to `on`; the answer is `Flag(success)`.
pub fn set_dnd(dnd: &Dnd, on: bool) -> (r: (DndTask, Step))
    ensures
        (r.0, r.1@) == start(dnd@, DndOp::SetDnd(on)),
{
    dnd.start(DndOp::SetDnd(on))
}

/// Begin checking which shortcuts exist; the answer is `Pair(has_on, has_off)`.
pub fn check_shortcuts(dnd: &Dnd) -> (r: (DndTask, Step))
    ensures
        (r.0, r.1@) == start(dnd@, DndOp::CheckShortcuts),
{
    dnd.start(DndOp::CheckShortcuts)
}

/// Begin trying the shortcuts; the answer is `Flag(success)`.
pub fn try_auto_create_shortcuts(dnd: &Dnd) -> (r: (DndTask, Step))
    ensures
        (r.0, r.1@) == start(dnd@, DndOp::TryAutoCreateShortcuts),
{
    dnd.start(DndOp::TryAutoCreateShortcuts)
}

/// Begin opening the app for creating shortcuts (only macOS has one).
pub fn open_shortcuts_app(dnd: &Dnd) -> (r: (DndTask, Step))
    ensures
        (r.0, r.1@) == start(dnd@, DndOp::OpenShortcutsApp),
{
    dnd.start(DndOp::OpenShortcutsApp)
}

/// Begin asking whether Do Not Disturb is on; the answer is `Flag(active)`.
pub fn is_dnd_active(dnd: &Dnd) -> (r: (DndTask, Step))
    ensures
        (r.0, r.1@) == start(dnd@, DndOp::IsDndActive),
{
    dnd.start(DndOp::IsDndActive)
}

/// Windows needs no shortcuts: checking reports both present and trying
/// them succeeds, at once. A switch runs the Focus Assist script and
/// succeeds exactly when the script printed `OK`.
pub proof fn law_windows_needs_no_shortcuts(d: DndView, on: bool, reply: Option<OutcomeView>)
    requires
        d.platform == Platform::Windows,
    ensures
        start(d, DndOp::CheckShortcuts) == (DndTask::Finished, StepView::Finish(Answer::Pair(true, true))),
        start(d, DndOp::TryAutoCreateShortcuts) == (DndTask::Finished, StepView::Finish(Answer::Flag(true))),
        start(d, DndOp::SetDnd(on)) == (DndTask::Windows(DndOp::SetDnd(on)), StepView::Run(windows::focus_switch(on))),
        next(d, DndTask::Windows(DndOp::SetDnd(on)), reply) == (d, DndTask::Finished, StepView::Finish(Answer::Flag(crate::command::output_contains(reply, "OK"@)))),
{
}

/// On a system without a known switch nothing runs: a switch fails, no
/// shortcut exists, and Do Not Disturb is never reported on.
pub proof fn law_unsupported_platform_runs_nothing(d: DndView, op: DndOp)
    requires
        d.platform == Platform::Other,
    ensures
        start(d, op).0 == DndTask::Finished,
        start(d, op).1 == StepView::Finish(unsupported_answer(op)),
        op is SetDnd ==> start(d, op).1 == StepView::Finish(Answer::Flag(false)),
{
}

/// A finished task stays finished: stepping it changes nothing and
/// answers nothing more.
pub proof fn law_finished_stays_finished(d: DndView, reply: Option<OutcomeView>)
    ensures
        next(d, DndTask::Finished, reply) == (d, DndTask::Finished, StepView::Finish(Answer::Nothing)),
{
}

/// On a system without a known switch: a switch fails, no shortcut
/// exists, trying them fails, Do Not Disturb is off, and nothing runs.
pub proof fn law_unsupported_answers(d: DndView, on: bool)
    requires
        d.platform == Platform::Other,
    ensures
        start(d, DndOp::SetDnd(on)) == (DndTask::Finished, StepView::Finish(Answer::Flag(false))),
        start(d, DndOp::CheckShortcuts) == (DndTask::Finished, StepView::Finish(Answer::Pair(false, false))),
        start(d, DndOp::TryAutoCreateShortcuts) == (DndTask::Finished, StepView::Finish(Answer::Flag(false))),
        start(d, DndOp::IsDndActive) == (DndTask::Finished, StepView::Finish(Answer::Flag(false))),
        start(d, DndOp::OpenShortcutsApp) == (DndTask::Finished, StepView::Finish(Answer::Nothing)),
{
}

/// On macOS the backend's steps are the macOS backend's, and a task ends
/// when that backend is done.
pub proof fn law_macos_dispatch(d: DndView, mt: MacTask, op: DndOp, reply: Option<OutcomeView>)
    requires
        d.platform == Platform::MacOs,
    ensures
        start(d, op) == (DndTask::Mac(MacTask { op, phase: macos::start(d.mac, op).0 }), macos::start(d.mac, op).1),
        next(d, DndTask::Mac(mt), reply).0 == (DndView { platform: d.platform, mac: macos::next(d.mac, mt, reply).0 }),
        next(d, DndTask::Mac(mt), reply).2 == macos::next(d.mac, mt, reply).2,
        (next(d, DndTask::Mac(mt), reply).1 == DndTask::Finished) <==> (macos::next(d.mac, mt, reply).1 == MacPhase::Done),
{
}

} // verus!
