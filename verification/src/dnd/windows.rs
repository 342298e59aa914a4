//! Windows backend: Focus Assist is read and switched by PowerShell scripts
//! that work on the Quiet Hours data in the registry. Windows needs no
//! shortcuts.
use crate::command::{
    command, reply_contains, reply_trimmed_is, CommandSpec, CommandView, Launch, OutcomeView,
    CommandOutcome, output_contains, output_trimmed_is, reply_view,
};
use crate::dnd::{Answer, DndOp, Step, StepView};
use vstd::prelude::*;

verus! {

/// Prints `1` when Focus Assist is on and `0` otherwise.
pub const FOCUS_ASSIST_QUERY: &'static str = "
$path = 'HKCU:\\Software\\Microsoft\\Windows\\CurrentVersion\\CloudStore\\Store\\DefaultAccount\\Current\\default$windows.data.shellcommon.quietmomentfullscreen\\windows.data.shellcommon.quietmomentfullscreen'
if (Test-Path $path) {
    $val = Get-ItemPropertyValue -Path $path -Name 'Data' -ErrorAction SilentlyContinue
    if ($val -and $val.Length -gt 15 -and $val[15] -ne 0) { Write-Output '1' } else { Write-Output '0' }
} else { Write-Output '0' }
";

/// Turns Focus Assist on (alarms only), broadcasts the change, prints `OK`.
pub const FOCUS_ASSIST_ON: &'static str = "
# Enable Focus Assist (Priority Only mode = 1, Alarms Only = 2)
$basePath = 'HKCU:\\Software\\Microsoft\\Windows\\CurrentVersion\\CloudStore\\Store\\DefaultAccount\\Current'
$qhPath = \"$basePath\\default`$windows.data.shellcommon.quiethourssettings\\windows.data.shellcommon.quiethourssettings\"
if (!(Test-Path $qhPath)) { New-Item -Path $qhPath -Force | Out-Null }

# Set to Alarms Only (most restrictive)
$data = @(0x02, 0x00, 0x00, 0x00) + @(0x00) * 8 + @(0x43, 0x42, 0x01, 0x00, 0x02, 0x00, 0x00, 0x00)
Set-ItemProperty -Path $qhPath -Name 'Data' -Value ([byte[]]$data) -Type Binary -Force

# Broadcast settings change
Add-Type -TypeDefinition @\"
using System;
using System.Runtime.InteropServices;
public class WinApi {
    [DllImport(\"user32.dll\", SetLastError = true)]
    public static extern IntPtr SendMessageTimeout(
        IntPtr hWnd, uint Msg, UIntPtr wParam, string lParam,
        uint fuFlags, uint uTimeout, out UIntPtr lpdwResult);
    public static void BroadcastChange() {
        UIntPtr result;
        SendMessageTimeout((IntPtr)0xFFFF, 0x001A, UIntPtr.Zero, \"Policy\",
            0x0002, 1000, out result);
    }
}
\"@
[WinApi]::BroadcastChange()
Write-Output 'OK'
";

/// Turns Focus Assist off, broadcasts the change, prints `OK`.
pub const FOCUS_ASSIST_OFF: &'static str = "
# Disable Focus Assist (back to normal)
$basePath = 'HKCU:\\Software\\Microsoft\\Windows\\CurrentVersion\\CloudStore\\Store\\DefaultAccount\\Current'
$qhPath = \"$basePath\\default`$windows.data.shellcommon.quiethourssettings\\windows.data.shellcommon.quiethourssettings\"
if (Test-Path $qhPath) {
    Remove-ItemProperty -Path $qhPath -Name 'Data' -ErrorAction SilentlyContinue
}

Add-Type -TypeDefinition @\"
using System;
using System.Runtime.InteropServices;
public class WinApi2 {
    [DllImport(\"user32.dll\", SetLastError = true)]
    public static extern IntPtr SendMessageTimeout(
        IntPtr hWnd, uint Msg, UIntPtr wParam, string lParam,
        uint fuFlags, uint uTimeout, out UIntPtr lpdwResult);
    public static void BroadcastChange() {
        UIntPtr result;
        SendMessageTimeout((IntPtr)0xFFFF, 0x001A, UIntPtr.Zero, \"Policy\",
            0x0002, 1000, out result);
    }
}
\"@
[WinApi2]::BroadcastChange()
Write-Output 'OK'
";

/// A PowerShell invocation of `script`, without profile or prompts.
pub open spec fn powershell(script: Seq<char>) -> CommandView {
    command(
        "powershell"@,
        seq!["-NoProfile"@, "-NonInteractive"@, "-Command"@, script],
        Launch::Output,
    )
}

pub open spec fn focus_query() -> CommandView {
    powershell(FOCUS_ASSIST_QUERY@)
}

pub open spec fn focus_switch(on: bool) -> CommandView {
    powershell(
        if on {
            FOCUS_ASSIST_ON@
        } else {
            FOCUS_ASSIST_OFF@
        },
    )
}

/// The first step of `op`, and whether a reply is then awaited.
pub open spec fn start(op: DndOp) -> (bool, StepView) {
    match op {
        DndOp::SetDnd(on) => (true, StepView::Run(focus_switch(on))),
        DndOp::IsDndActive => (true, StepView::Run(focus_query())),
        DndOp::CheckShortcuts => (false, StepView::Finish(Answer::Pair(true, true))),
        DndOp::TryAutoCreateShortcuts => (false, StepView::Finish(Answer::Flag(true))),
        DndOp::OpenShortcutsApp => (false, StepView::Finish(Answer::Nothing)),
    }
}

/// The answer to `op` once its script replied: a switch succeeded when the
/// script printed `OK`; Focus Assist is on when the query printed `1`.
pub open spec fn answer(op: DndOp, reply: Option<OutcomeView>) -> Answer {
    match op {
        DndOp::SetDnd(_) => Answer::Flag(output_contains(reply, "OK"@)),
        DndOp::IsDndActive => Answer::Flag(output_trimmed_is(reply, "1"@)),
        _ => Answer::Nothing,
    }
}

fn powershell_command(script: &str) -> (c: CommandSpec)
    ensures
        c@ == powershell(script@),
{
    let c = CommandSpec {
        program: String::from_str("powershell"),
        args: vec![
            String::from_str("-NoProfile"),
            String::from_str("-NonInteractive"),
            String::from_str("-Command"),
            String::from_str(script),
        ],
        launch: Launch::Output,
    };
    assert(c@.args =~= powershell(script@).args);
    c
}

/// The first step of `op`, and whether a reply is then awaited.
pub fn begin(op: DndOp) -> (r: (bool, Step))
    ensures
        (r.0, r.1@) == start(op),
{
    match op {
        DndOp::SetDnd(on) => {
            let script = if on {
                FOCUS_ASSIST_ON
            } else {
                FOCUS_ASSIST_OFF
            };
            (true, Step::Run(powershell_command(script)))
        },
        DndOp::IsDndActive => (true, Step::Run(powershell_command(FOCUS_ASSIST_QUERY))),
        DndOp::CheckShortcuts => (false, Step::Finish(Answer::Pair(true, true))),
        DndOp::TryAutoCreateShortcuts => (false, Step::Finish(Answer::Flag(true))),
        DndOp::OpenShortcutsApp => (false, Step::Finish(Answer::Nothing)),
    }
}

/// The answer to `op` from its script's reply.
pub fn finish(op: DndOp, reply: &Option<CommandOutcome>) -> (a: Answer)
    ensures
        a == answer(op, reply_view(*reply)),
{
    match op {
        DndOp::SetDnd(_) => Answer::Flag(reply_contains(reply, "OK")),
        DndOp::IsDndActive => Answer::Flag(reply_trimmed_is(reply, "1")),
        _ => Answer::Nothing,
    }
}

/// Windows switches with the Focus Assist scripts run by PowerShell and
/// succeeds exactly when the script printed `OK`; the state is reported on
/// exactly when the query printed `1`; no shortcuts are needed.
pub proof fn law_windows_behaviour(on: bool, reply: Option<OutcomeView>)
    ensures
        start(DndOp::SetDnd(on)) == (true, StepView::Run(CommandView {
            program: "powershell"@,
            args: seq!["-NoProfile"@, "-NonInteractive"@, "-Command"@, if on { FOCUS_ASSIST_ON@ } else { FOCUS_ASSIST_OFF@ }],
            launch: Launch::Output,
        })),
        start(DndOp::IsDndActive) == (true, StepView::Run(CommandView {
            program: "powershell"@,
            args: seq!["-NoProfile"@, "-NonInteractive"@, "-Command"@, FOCUS_ASSIST_QUERY@],
            launch: Launch::Output,
        })),
        start(DndOp::CheckShortcuts) == (false, StepView::Finish(Answer::Pair(true, true))),
        start(DndOp::TryAutoCreateShortcuts) == (false, StepView::Finish(Answer::Flag(true))),
        start(DndOp::OpenShortcutsApp) == (false, StepView::Finish(Answer::Nothing)),
        answer(DndOp::SetDnd(on), reply) == Answer::Flag(
            reply matches Some(o) && crate::text::contains(crate::command::lossy_text(o.stdout), "OK"@),
        ),
        answer(DndOp::IsDndActive, reply) == Answer::Flag(
            reply matches Some(o) && crate::text::trim(crate::command::lossy_text(o.stdout)) == "1"@,
        ),
{
}

} // verus!
