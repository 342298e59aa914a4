use hush::command::{CommandOutcome, CommandSpec, Launch};
use hush::dnd::macos::{
    find_shortcut_name, is_legacy_dnd, major_version_from_reply, major_version_from_text,
    shortcut_list_from_reply, MacDnd, MacPhase,
};
use hush::dnd::{
    check_shortcuts, is_dnd_active, open_shortcuts_app, set_dnd, try_auto_create_shortcuts, Answer,
    Dnd, DndOp, DndTask, Platform, Step,
};

fn out(success: bool, stdout: &str) -> Option<CommandOutcome> {
    Some(CommandOutcome { success, stdout: stdout.as_bytes().to_vec() })
}

fn run_of(step: &Step) -> &CommandSpec {
    match step {
        Step::Run(c) => c,
        Step::Finish(a) => panic!("expected a command, got {:?}", a),
    }
}

fn argv(c: &CommandSpec) -> Vec<String> {
    let mut v = vec![c.program.clone()];
    v.extend(c.args.iter().cloned());
    v
}

fn answer_of(step: &Step) -> Answer {
    match step {
        Step::Finish(a) => *a,
        Step::Run(c) => panic!("expected an answer, got {:?}", argv(c)),
    }
}

#[test]
fn major_version_examples() {
    assert_eq!(major_version_from_text("14.2.1\n"), 14);
    assert_eq!(major_version_from_text("11.7"), 11);
    assert_eq!(major_version_from_text(" 13 \n"), 13);
    assert_eq!(major_version_from_text("+15.0"), 15);
    assert_eq!(major_version_from_text(""), 12);
    assert_eq!(major_version_from_text("beta"), 12);
    assert_eq!(major_version_from_text(".5"), 12);
}

#[test]
fn major_version_from_replies() {
    assert_eq!(major_version_from_reply(&out(true, "10.15.7\n")), 10);
    assert_eq!(major_version_from_reply(&None), 12);
    // exit status is not looked at, only the output
    assert_eq!(major_version_from_reply(&out(false, "13.1")), 13);
    // bytes that are not UTF-8 count as no output
    let bad = Some(CommandOutcome { success: true, stdout: vec![0x31, 0x31, 0xff] });
    assert_eq!(major_version_from_reply(&bad), 12);
}

#[test]
fn legacy_threshold() {
    assert!(is_legacy_dnd(11));
    assert!(is_legacy_dnd(10));
    assert!(!is_legacy_dnd(12));
    assert!(!is_legacy_dnd(15));
}

#[test]
fn shortcut_names_found_ignoring_case() {
    let list = vec!["Morning".to_string(), "hush on".to_string(), "HUSH OFF".to_string(), "Hush On".to_string()];
    assert_eq!(find_shortcut_name(&list, "Hush On"), Some("hush on".to_string()));
    assert_eq!(find_shortcut_name(&list, "Hush Off"), Some("HUSH OFF".to_string()));
    assert_eq!(find_shortcut_name(&list, "Hush"), None);
    assert_eq!(find_shortcut_name(&Vec::new(), "Hush On"), None);
}

#[test]
fn shortcut_listing_reply_is_split_into_lines() {
    assert_eq!(
        shortcut_list_from_reply(&out(true, "Hush On\r\nHush Off\n")),
        vec!["Hush On".to_string(), "Hush Off".to_string()]
    );
    assert!(shortcut_list_from_reply(&None).is_empty());
}

#[test]
fn resolve_remembers_exact_names() {
    let mut mac = MacDnd::new();
    let found = mac.resolve_shortcut_names(&vec!["HUSH ON".to_string()]);
    assert_eq!(found, (true, false));
    assert_eq!(mac.on_name, Some("HUSH ON".to_string()));
    assert_eq!(mac.off_name, None);
}

#[test]
fn mac_check_shortcuts_reads_version_then_lists() {
    let mut dnd = Dnd::new(Platform::MacOs);
    let (mut task, step) = check_shortcuts(&dnd);
    assert_eq!(argv(run_of(&step)), vec!["/usr/bin/sw_vers", "-productVersion"]);
    let step = dnd.step(&mut task, out(true, "14.5\n"));
    assert_eq!(argv(run_of(&step)), vec!["/usr/bin/shortcuts", "list"]);
    let step = dnd.step(&mut task, out(true, "hush on\nHush Off\nOther\n"));
    assert_eq!(answer_of(&step), Answer::Pair(true, true));
    assert_eq!(task, DndTask::Finished);
    assert_eq!(dnd.mac.major_version, Some(14));
    assert_eq!(dnd.mac.on_name, Some("hush on".to_string()));
    // the version is not asked for a second time
    let (mut task, step) = check_shortcuts(&dnd);
    assert_eq!(argv(run_of(&step)), vec!["/usr/bin/shortcuts", "list"]);
    let step = dnd.step(&mut task, out(true, "Other\n"));
    assert_eq!(answer_of(&step), Answer::Pair(false, false));
    assert_eq!(dnd.mac.on_name, None);
}

#[test]
fn mac_legacy_needs_no_shortcuts() {
    let mut dnd = Dnd::new(Platform::MacOs);
    let (mut task, _) = check_shortcuts(&dnd);
    let step = dnd.step(&mut task, out(true, "11.6\n"));
    assert_eq!(answer_of(&step), Answer::Pair(true, true));
    let (_, step) = try_auto_create_shortcuts(&dnd);
    assert_eq!(answer_of(&step), Answer::Flag(true));
}

#[test]
fn mac_switch_runs_resolved_shortcut() {
    let mut dnd = Dnd::new(Platform::MacOs);
    dnd.mac.major_version = Some(14);
    let (mut task, step) = set_dnd(&dnd, true);
    // no name known yet: the shortcuts are listed first
    assert_eq!(argv(run_of(&step)), vec!["/usr/bin/shortcuts", "list"]);
    let step = dnd.step(&mut task, out(true, "HUSH ON\nhush off\n"));
    assert_eq!(argv(run_of(&step)), vec!["/usr/bin/shortcuts", "run", "HUSH ON"]);
    let step = dnd.step(&mut task, out(true, ""));
    assert_eq!(answer_of(&step), Answer::Flag(true));
    // the off name is remembered from the same listing
    let (mut task, step) = set_dnd(&dnd, false);
    assert_eq!(argv(run_of(&step)), vec!["/usr/bin/shortcuts", "run", "hush off"]);
    let step = dnd.step(&mut task, out(false, ""));
    assert_eq!(answer_of(&step), Answer::Flag(false));
}

#[test]
fn mac_switch_without_shortcut_fails() {
    let mut dnd = Dnd::new(Platform::MacOs);
    dnd.mac.major_version = Some(13);
    let (mut task, _) = set_dnd(&dnd, true);
    let step = dnd.step(&mut task, out(true, "Something else\n"));
    assert_eq!(answer_of(&step), Answer::Flag(false));
    assert_eq!(task, DndTask::Finished);
}

#[test]
fn mac_legacy_switch_on_sequence() {
    let mut dnd = Dnd::new(Platform::MacOs);
    dnd.mac.major_version = Some(11);
    let (mut task, step) = set_dnd(&dnd, true);
    assert_eq!(
        argv(run_of(&step)),
        vec!["/usr/bin/defaults", "-currentHost", "write", "com.apple.notificationcenterui", "doNotDisturb", "-bool", "true"]
    );
    let step = dnd.step(&mut task, out(true, ""));
    let stamp = run_of(&step);
    assert_eq!(stamp.program, "/bin/sh");
    assert_eq!(stamp.args[0], "-c");
    assert!(stamp.args[1].contains("doNotDisturbDate -date"));
    let step = dnd.step(&mut task, None);
    assert_eq!(argv(run_of(&step)), vec!["/usr/bin/killall", "NotificationCenter"]);
    let step = dnd.step(&mut task, out(false, ""));
    assert_eq!(answer_of(&step), Answer::Flag(true));
}

#[test]
fn mac_legacy_switch_off_skips_stamp() {
    let mut dnd = Dnd::new(Platform::MacOs);
    dnd.mac.major_version = Some(10);
    let (mut task, step) = set_dnd(&dnd, false);
    assert_eq!(run_of(&step).args[5], "false");
    let step = dnd.step(&mut task, out(false, ""));
    assert_eq!(argv(run_of(&step)), vec!["/usr/bin/killall", "NotificationCenter"]);
    let step = dnd.step(&mut task, out(true, ""));
    assert_eq!(answer_of(&step), Answer::Flag(false));
}

#[test]
fn mac_try_shortcuts_needs_both() {
    let mut dnd = Dnd::new(Platform::MacOs);
    dnd.mac.major_version = Some(14);
    let (mut task, step) = try_auto_create_shortcuts(&dnd);
    assert_eq!(argv(run_of(&step)), vec!["/usr/bin/shortcuts", "run", "Hush On"]);
    let step = dnd.step(&mut task, out(true, ""));
    assert_eq!(argv(run_of(&step)), vec!["/usr/bin/shortcuts", "run", "Hush Off"]);
    let step = dnd.step(&mut task, None);
    assert_eq!(answer_of(&step), Answer::Flag(false));
}

#[test]
fn mac_dnd_state_is_read_on_every_version() {
    let mut dnd = Dnd::new(Platform::MacOs);
    dnd.mac.major_version = Some(11);
    let (mut task, step) = is_dnd_active(&dnd);
    assert_eq!(run_of(&step).args[1], "read");
    let step = dnd.step(&mut task, out(true, " 1\n"));
    assert_eq!(answer_of(&step), Answer::Flag(true));
    let (mut task, _) = is_dnd_active(&dnd);
    let step = dnd.step(&mut task, out(true, "0\n"));
    assert_eq!(answer_of(&step), Answer::Flag(false));
    dnd.mac.major_version = Some(14);
    let (mut task, step) = is_dnd_active(&dnd);
    let c = run_of(&step);
    assert_eq!(c.program, "/usr/bin/osascript");
    assert_eq!(c.args[..3], ["-l", "JavaScript", "-e"]);
    assert!(c.args[3].contains("Assertions.json"));
    assert_eq!(answer_of(&dnd.step(&mut task, out(true, "1\n"))), Answer::Flag(true));
    let (mut task, _) = is_dnd_active(&dnd);
    assert_eq!(answer_of(&dnd.step(&mut task, out(true, "0\n"))), Answer::Flag(false));
    let (mut task, _) = is_dnd_active(&dnd);
    assert_eq!(answer_of(&dnd.step(&mut task, None)), Answer::Flag(false));
}

#[test]
fn mac_open_shortcuts_app_is_launched() {
    let mut dnd = Dnd::new(Platform::MacOs);
    let (mut task, step) = open_shortcuts_app(&dnd);
    let c = run_of(&step);
    assert_eq!(argv(c), vec!["/usr/bin/open", "-a", "Shortcuts"]);
    assert_eq!(c.launch, Launch::Spawn);
    assert_eq!(answer_of(&dnd.step(&mut task, None)), Answer::Nothing);
}

#[test]
fn mac_task_phases_are_reported() {
    let mac = MacDnd::new();
    let (task, _) = mac.start(DndOp::IsDndActive);
    assert_eq!(task.phase, MacPhase::AwaitVersion);
}

#[test]
fn windows_backend() {
    let mut dnd = Dnd::new(Platform::Windows);
    let (_, step) = check_shortcuts(&dnd);
    assert_eq!(answer_of(&step), Answer::Pair(true, true));
    let (_, step) = try_auto_create_shortcuts(&dnd);
    assert_eq!(answer_of(&step), Answer::Flag(true));
    let (mut task, step) = set_dnd(&dnd, true);
    let c = run_of(&step);
    assert_eq!(c.program, "powershell");
    assert_eq!(c.args[..3], ["-NoProfile", "-NonInteractive", "-Command"]);
    assert!(c.args[3].contains("Set-ItemProperty"));
    let step = dnd.step(&mut task, out(true, "\r\nOK\r\n"));
    assert_eq!(answer_of(&step), Answer::Flag(true));
    let (mut task, _) = set_dnd(&dnd, false);
    let step = dnd.step(&mut task, out(true, "failed"));
    assert_eq!(answer_of(&step), Answer::Flag(false));
    let (mut task, _) = is_dnd_active(&dnd);
    assert_eq!(answer_of(&dnd.step(&mut task, out(true, "1\r\n"))), Answer::Flag(true));
    let (_, step) = open_shortcuts_app(&dnd);
    assert_eq!(answer_of(&step), Answer::Nothing);
}

#[test]
fn unsupported_platform_runs_nothing() {
    let dnd = Dnd::new(Platform::Other);
    assert_eq!(answer_of(&set_dnd(&dnd, true).1), Answer::Flag(false));
    assert_eq!(answer_of(&check_shortcuts(&dnd).1), Answer::Pair(false, false));
    assert_eq!(answer_of(&try_auto_create_shortcuts(&dnd).1), Answer::Flag(false));
    assert_eq!(answer_of(&is_dnd_active(&dnd).1), Answer::Flag(false));
    assert_eq!(answer_of(&open_shortcuts_app(&dnd).1), Answer::Nothing);
}

#[test]
fn lossy_output_is_decoded() {
    // invalid UTF-8 next to the marker still leaves "OK" readable
    let mut dnd = Dnd::new(Platform::Windows);
    let (mut task, _) = set_dnd(&dnd, true);
    let reply = Some(CommandOutcome { success: true, stdout: vec![0xff, b'O', b'K'] });
    assert_eq!(answer_of(&dnd.step(&mut task, reply)), Answer::Flag(true));
    // but a replacement character keeps the output from being just "1"
    let (mut task, _) = is_dnd_active(&dnd);
    let reply = Some(CommandOutcome { success: true, stdout: vec![b'1', 0xff] });
    assert_eq!(answer_of(&dnd.step(&mut task, reply)), Answer::Flag(false));
}

#[test]
fn every_mac_operation_ends_within_four_commands() {
    let ops = [
        DndOp::SetDnd(true),
        DndOp::SetDnd(false),
        DndOp::CheckShortcuts,
        DndOp::TryAutoCreateShortcuts,
        DndOp::OpenShortcutsApp,
        DndOp::IsDndActive,
    ];
    for version in ["11.2", "14.0"] {
        for op in ops {
            let mut dnd = Dnd::new(Platform::MacOs);
            let (mut task, mut step) = dnd.start(op);
            let mut commands = 0;
            while let Step::Run(_) = step {
                commands += 1;
                assert!(commands <= 4, "{:?} ran too many commands", op);
                let reply = if commands == 1 { out(true, version) } else { out(true, "") };
                step = dnd.step(&mut task, reply);
            }
            assert_eq!(task, DndTask::Finished);
            // a finished task answers nothing more
            assert_eq!(answer_of(&dnd.step(&mut task, None)), Answer::Nothing);
        }
    }
}
