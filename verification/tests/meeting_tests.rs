use hush::command::{command_succeeded, reply_text, CommandOutcome};
use hush::dnd::Platform;
use hush::meeting::{compile_command, compile_detector, is_in_meeting, meeting_check, DETECT_SCRIPT};

fn out(success: bool, stdout: &[u8]) -> Option<CommandOutcome> {
    Some(CommandOutcome { success, stdout: stdout.to_vec() })
}

#[test]
fn detection_reads_active_marker() {
    assert!(is_in_meeting(&out(true, b"active:call-bar,mic-active\n")));
    assert!(is_in_meeting(&out(false, b"  active:meeting-window")));
    assert!(!is_in_meeting(&out(true, b"none\n")));
    assert!(!is_in_meeting(&out(true, b"")));
    assert!(!is_in_meeting(&None));
    // bytes after the marker need not be UTF-8
    assert!(is_in_meeting(&out(true, b"active:\xff")));
}

#[test]
fn detection_command_per_platform() {
    let c = meeting_check(Platform::MacOs, Some("/tmp/hush-app/meeting-detect")).unwrap();
    assert_eq!(c.program, "/tmp/hush-app/meeting-detect");
    assert!(c.args.is_empty());
    let c = meeting_check(Platform::MacOs, None).unwrap();
    assert_eq!(c.program, "/usr/bin/swift");
    assert_eq!(c.args, vec!["-e".to_string(), DETECT_SCRIPT.to_string()]);
    assert!(DETECT_SCRIPT.contains("print(\"active:"));
    assert!(meeting_check(Platform::Windows, None).is_none());
    assert!(meeting_check(Platform::Other, Some("bin")).is_none());
}

#[test]
fn detector_compilation() {
    let c = compile_command("/tmp/d/bin", "/tmp/d/src.swift");
    assert_eq!(c.program, "/usr/bin/swiftc");
    assert_eq!(c.args, vec!["-O", "-o", "/tmp/d/bin", "/tmp/d/src.swift"]);
    assert_eq!(compile_detector("/tmp/d/bin".to_string(), &out(true, b"")), Some("/tmp/d/bin".to_string()));
    assert_eq!(compile_detector("/tmp/d/bin".to_string(), &out(false, b"")), None);
    assert_eq!(compile_detector("/tmp/d/bin".to_string(), &None), None);
}

#[test]
fn reply_text_decodes_utf8() {
    assert_eq!(reply_text(&out(true, "Grüße\n".as_bytes())), "Grüße\n");
    assert_eq!(reply_text(&out(true, b"\xc3\x28")), "");
    assert_eq!(reply_text(&None), "");
    assert!(command_succeeded(&out(true, b"")));
    assert!(!command_succeeded(&out(false, b"")));
    assert!(!command_succeeded(&None));
}
