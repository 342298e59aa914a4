//! Meeting detection. On macOS a small detector program (compiled once
//! from a Swift script, or run through the Swift interpreter when it could
//! not be compiled) prints `active:` followed by the signals it saw when a
//! meeting app shows a call; other systems have no detector.
use crate::command::{
    command, command_succeeded, output_trimmed_starts_with, reply_trimmed_starts_with, reply_view,
    succeeded, CommandOutcome, CommandSpec, CommandView, Launch, OutcomeView,
};
use crate::dnd::Platform;
use vstd::prelude::*;

verus! {

/// Swift detection script — compiled to a binary on first run for speed.
///
/// Three independent signals — any one is sufficient to consider "in a call":
///   1. Meeting app window title contains a call keyword
///   2. Meeting app has a floating call-controls bar onscreen (Teams/Zoom compact toolbar)
///   3. System microphone is active while a meeting app is running
///
/// Signal 2 is the most reliable for Teams: the floating bar (Camera/Mic/Share/Leave)
/// is ALWAYS present during a call, even when mic and camera are both muted/off.
/// Teams releases the mic device when the user mutes (for privacy), so signal 3
/// alone is not enough — we need the call bar as a fallback.
pub const DETECT_SCRIPT: &'static str = "
import CoreGraphics
import CoreAudio
import Foundation

let list = CGWindowListCopyWindowInfo([.optionAll], kCGNullWindowID) as? [[String: Any]] ?? []

let meetingApps = [\"Microsoft Teams\", \"zoom.us\", \"Zoom\", \"Webex\", \"Cisco Webex\",
                   \"Slack\", \"FaceTime\", \"Google Meet\"]

// Window title keywords indicating an active call/meeting.
// Broad intentionally — \"Weekly Sync\", \"1:1 with John\", \"Standup\" etc.
let callKeywords = [\"meeting\", \"call\", \"standup\", \"stand-up\", \"sync\", \"webinar\",
                    \"conference\", \"interview\", \"1:1\", \"one-on-one\", \"hangout\", \"video chat\"]

var hasMeetingWindow = false
var hasCallBar        = false   // floating compact call-controls window
var meetingAppRunning = false

for w in list {
    let owner    = w[\"kCGWindowOwnerName\"] as? String ?? \"\"
    let name     = (w[\"kCGWindowName\"] as? String ?? \"\").lowercased()
    let onscreen = w[\"kCGWindowIsOnscreen\"] as? Bool ?? false
    let alpha    = (w[\"kCGWindowAlpha\"] as? NSNumber)?.doubleValue ?? 0

    guard meetingApps.contains(where: { owner.contains($0) }) else { continue }
    meetingAppRunning = true

    // Signal 1: keyword in window title
    if callKeywords.contains(where: { name.contains($0) }) {
        hasMeetingWindow = true
    }

    // Signal 2: floating call-controls bar (Teams / Zoom compact toolbar).
    // When in a call, meeting apps show a narrow floating toolbar (sometimes
    // with a small self-view thumbnail attached):
    //   • onscreen and visible (alpha > 0)
    //   • height: 40–300 px  (a strip/compact panel, not a full window)
    //   • width: > 450 px    (wider than notification banners ~360 px)
    // This bar disappears the moment you leave the call.
    if onscreen && alpha > 0, let bounds = w[\"kCGWindowBounds\"] as? [String: Any] {
        let h  = (bounds[\"Height\"] as? NSNumber)?.doubleValue ?? 0
        let wd = (bounds[\"Width\"]  as? NSNumber)?.doubleValue ?? 0
        if h > 40 && h < 300 && wd > 450 {
            hasCallBar = true
        }
    }
}

// Signal 3: default microphone in use (fails when user is muted in Teams)
var micInUse = false
if meetingAppRunning {
    var dev: AudioDeviceID = 0
    var sz = UInt32(MemoryLayout<AudioDeviceID>.size)
    var a1 = AudioObjectPropertyAddress(
        mSelector: kAudioHardwarePropertyDefaultInputDevice,
        mScope: kAudioObjectPropertyScopeGlobal,
        mElement: kAudioObjectPropertyElementMain
    )
    AudioObjectGetPropertyData(AudioObjectID(kAudioObjectSystemObject), &a1, 0, nil, &sz, &dev)
    var running: UInt32 = 0
    sz = UInt32(MemoryLayout<UInt32>.size)
    var a2 = AudioObjectPropertyAddress(
        mSelector: kAudioDevicePropertyDeviceIsRunningSomewhere,
        mScope: kAudioObjectPropertyScopeGlobal,
        mElement: kAudioObjectPropertyElementMain
    )
    AudioObjectGetPropertyData(dev, &a2, 0, nil, &sz, &running)
    micInUse = running > 0
}

var signals: [String] = []
if hasMeetingWindow { signals.append(\"meeting-window\") }
if hasCallBar       { signals.append(\"call-bar\") }
if micInUse         { signals.append(\"mic-active\") }

if meetingAppRunning && !signals.isEmpty {
    print(\"active:\\(signals.joined(separator: \",\"))\")
} else {
    print(\"none\")
}
";

/// The command that runs meeting detection on `platform`: the compiled
/// detector at `detector` if there is one, else the Swift interpreter on
/// `DETECT_SCRIPT`. Only macOS has a detector.
pub open spec fn detection_model(platform: Platform, detector: Option<Seq<char>>) -> Option<CommandView> {
    match platform {
        Platform::MacOs => Some(
            match detector {
                Some(bin) => command(bin, Seq::empty(), Launch::Output),
                None => command("/usr/bin/swift"@, seq!["-e"@, DETECT_SCRIPT@], Launch::Output),
            },
        ),
        _ => None,
    }
}

/// A reply reports a meeting: the detector ran and its trimmed output
/// starts with `active:`.
pub open spec fn reports_meeting(reply: Option<OutcomeView>) -> bool {
    output_trimmed_starts_with(reply, "active:"@)
}

/// The command that compiles the detector script at `source` into `binary`.
pub open spec fn compile_model(binary: Seq<char>, source: Seq<char>) -> CommandView {
    command("/usr/bin/swiftc"@, seq!["-O"@, "-o"@, binary, source], Launch::Output)
}

/// The command that runs meeting detection, if `platform` has one (see
/// `detection_model`). Without a command, detection reports no meeting.
pub fn meeting_check(platform: Platform, detector: Option<&str>) -> (c: Option<
    CommandSpec,
>)
    ensures
        match c {
            Some(x) => detection_model(
                platform,
                match detector {
                    Some(d) => Some(d@),
                    None => None,
                },
            ) == Some(x@),
            None => detection_model(
                platform,
                match detector {
                    Some(d) => Some(d@),
                    None => None,
                },
            ) is None,
        },
{
    match platform {
        Platform::MacOs => {
            let c = match detector {
                Some(bin) => CommandSpec {
                    program: String::from_str(bin),
                    args: Vec::new(),
                    launch: Launch::Output,
                },
                None => CommandSpec {
                    program: String::from_str("/usr/bin/swift"),
                    args: vec![String::from_str("-e"), String::from_str(DETECT_SCRIPT)],
                    launch: Launch::Output,
                },
            };
            proof {
                let model = detection_model(
                    platform,
                    match detector {
                        Some(d) => Some(d@),
                        None => None,
                    },
                ).unwrap();
                assert(c@.args =~= model.args);
            }
            Some(c)
        },
        _ => None,
    }
}

/// Whether the user is in a meeting, from the reply of the detection
/// command (`None` when it could not run, or there was none to run).
pub fn is_in_meeting(reply: &Option<CommandOutcome>) -> (b: bool)
    ensures
        b == reports_meeting(reply_view(*reply)),
{
    reply_trimmed_starts_with(reply, "active:")
}

/// The command that compiles the detector script at `source` into `binary`.
pub fn compile_command(binary: &str, source: &str) -> (c: CommandSpec)
    ensures
        c@ == compile_model(binary@, source@),
{
    let c = CommandSpec {
        program: String::from_str("/usr/bin/swiftc"),
        args: vec![
            String::from_str("-O"),
            String::from_str("-o"),
            String::from_str(binary),
            String::from_str(source),
        ],
        launch: Launch::Output,
    };
    assert(c@.args =~= compile_model(binary@, source@).args);
    c
}

/// The compiled detector: `binary` when the compiler ran and succeeded.
pub fn compile_detector(binary: String, reply: &Option<CommandOutcome>) -> (d: Option<String>)
    ensures
        d is Some <==> succeeded(reply_view(*reply)),
        d matches Some(b) ==> b@ == binary@,
{
    if command_succeeded(reply) {
        Some(binary)
    } else {
        None
    }
}

/// A meeting is reported exactly when the detector ran and its trimmed
/// output starts with `active:`. On macOS the compiled detector runs with
/// no arguments, or the Swift interpreter runs the detection script; the
/// detector is compiled with `swiftc -O -o`. Other systems detect nothing.
pub proof fn law_meeting_detection(platform: Platform, detector: Option<Seq<char>>, reply: Option<OutcomeView>, binary: Seq<char>, source: Seq<char>)
    ensures
        reports_meeting(reply) <==> (reply matches Some(o) && crate::text::starts_with(
            crate::text::trim(crate::command::lossy_text(o.stdout)),
            "active:"@,
        )),
        detection_model(Platform::MacOs, detector) == Some(match detector {
            Some(bin) => CommandView { program: bin, args: Seq::empty(), launch: Launch::Output },
            None => CommandView { program: "/usr/bin/swift"@, args: seq!["-e"@, DETECT_SCRIPT@], launch: Launch::Output },
        }),
        detection_model(Platform::Windows, detector) is None,
        detection_model(Platform::Other, detector) is None,
        compile_model(binary, source) == (CommandView {
            program: "/usr/bin/swiftc"@,
            args: seq!["-O"@, "-o"@, binary, source],
            launch: Launch::Output,
        }),
{
}

} // verus!
