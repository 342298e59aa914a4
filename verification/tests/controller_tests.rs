use hush::command::Launch;
use hush::controller::{
    loading_look, needs_setup, toggle_sound, tray_look, HushState, MeetingPoll, MenuEntry,
    MenuReaction, StartupAction, ToggleAction, ToggleDecision,
};
use hush::dnd::Platform;

#[test]
fn initial_flags() {
    let s = HushState::new();
    assert!(!s.hushed);
    assert!(s.play_sound);
    assert!(s.auto_dnd_on_calls);
    assert!(!s.auto_hushed && !s.manual_override && !s.poll_started && !s.toggle_in_progress);
}

#[test]
fn setup_needed_unless_both_shortcuts() {
    assert!(!needs_setup(true, true));
    assert!(needs_setup(true, false));
    assert!(needs_setup(false, true));
    assert!(needs_setup(false, false));
}

#[test]
fn manual_toggle_switches_and_starts_poll() {
    let mut s = HushState::new();
    let d = s.toggle_hush(None, true);
    assert_eq!(d, ToggleDecision { start_poll: true, action: ToggleAction::Switch(true) });
    assert!(s.hushed && s.manual_override && !s.auto_hushed && s.toggle_in_progress);
    let fb = s.finish_toggle(true, false, true);
    assert!(fb.shown_hushed && fb.play_sound);
    assert!(!s.toggle_in_progress);
    // the poll is not launched a second time
    let d = s.toggle_hush(None, true);
    assert_eq!(d, ToggleDecision { start_poll: false, action: ToggleAction::Switch(false) });
}

#[test]
fn manual_toggle_without_shortcuts_shows_setup() {
    let mut s = HushState::new();
    let d = s.toggle_hush(None, false);
    assert_eq!(d.action, ToggleAction::ShowSetup);
    assert!(!d.start_poll);
    assert_eq!(s, HushState::new());
}

#[test]
fn auto_toggle_without_shortcuts_records_miss() {
    let mut s = HushState::new();
    s.auto_hushed = true;
    let d = s.toggle_hush(Some(true), false);
    assert_eq!(d.action, ToggleAction::Skip);
    assert!(!s.auto_hushed);
    assert!(!s.hushed);
}

#[test]
fn request_for_current_state_is_skipped() {
    let mut s = HushState::new();
    let d = s.toggle_hush(Some(false), true);
    assert_eq!(d.action, ToggleAction::Skip);
    assert!(d.start_poll);
    assert!(!s.toggle_in_progress);
}

#[test]
fn no_second_switch_while_one_runs() {
    let mut s = HushState::new();
    assert_eq!(s.toggle_hush(Some(true), true).action, ToggleAction::Switch(true));
    s.auto_hushed = true;
    // the user clicks while the automatic switch is running: ignored
    assert_eq!(s.toggle_hush(None, true).action, ToggleAction::Skip);
    assert!(s.auto_hushed);
    // an automatic request meanwhile records its target as not reached
    assert_eq!(s.toggle_hush(Some(false), true).action, ToggleAction::Skip);
    assert!(s.auto_hushed);
}

#[test]
fn failed_switch_reverts() {
    let mut s = HushState::new();
    s.auto_hushed = true;
    assert_eq!(s.toggle_hush(Some(true), true).action, ToggleAction::Switch(true));
    let fb = s.finish_toggle(true, true, false);
    assert!(!fb.shown_hushed && !fb.play_sound);
    assert!(!s.hushed && !s.auto_hushed && !s.toggle_in_progress);
}

#[test]
fn successful_switch_without_sound() {
    let mut s = HushState::new();
    s.play_sound = false;
    s.toggle_hush(None, true);
    let fb = s.finish_toggle(true, false, true);
    assert!(fb.shown_hushed && !fb.play_sound);
}

#[test]
fn startup_decisions() {
    let mut s = HushState::new();
    assert_eq!(s.on_startup(false), StartupAction::ShowSetup);
    assert!(!s.poll_started);
    assert_eq!(s.on_startup(true), StartupAction::Detect(true));
    assert_eq!(s.on_startup(true), StartupAction::Detect(false));
    assert!(!s.start_meeting_poll());
}

#[test]
fn meeting_turns_hush_on_after_two_polls() {
    let mut s = HushState::new();
    let mut p = MeetingPoll::new();
    assert!(p.begin_cycle(&s, 3));
    assert_eq!(p.after_detection(&mut s, true), None);
    assert!(p.begin_cycle(&s, 3));
    assert_eq!(p.after_detection(&mut s, true), Some(true));
    assert!(s.auto_hushed);
    assert_eq!(p.consecutive_meeting, 2);
}

#[test]
fn meeting_end_needs_ten_quiet_polls() {
    let mut s = HushState::new();
    s.hushed = true;
    s.auto_hushed = true;
    let mut p = MeetingPoll::new();
    for _ in 0..9 {
        assert_eq!(p.after_detection(&mut s, false), None);
    }
    assert_eq!(p.after_detection(&mut s, false), Some(false));
    assert!(!s.auto_hushed);
}

#[test]
fn manual_hush_is_never_ended_by_poll() {
    let mut s = HushState::new();
    s.hushed = true;
    let mut p = MeetingPoll::new();
    for _ in 0..20 {
        assert_eq!(p.after_detection(&mut s, false), None);
    }
    assert!(s.hushed);
}

#[test]
fn manual_override_pauses_until_quiet() {
    let mut s = HushState::new();
    s.toggle_hush(None, true);
    s.finish_toggle(true, false, true);
    s.toggle_hush(None, true);
    s.finish_toggle(false, false, true);
    assert!(s.manual_override && !s.hushed);
    let mut p = MeetingPoll::new();
    for _ in 0..5 {
        assert_eq!(p.after_detection(&mut s, true), None);
    }
    for _ in 0..9 {
        assert_eq!(p.after_detection(&mut s, false), None);
        assert!(s.manual_override);
    }
    assert_eq!(p.after_detection(&mut s, false), None);
    assert!(!s.manual_override);
    assert_eq!(p.after_detection(&mut s, true), None);
    assert_eq!(p.after_detection(&mut s, true), Some(true));
}

#[test]
fn wake_and_disabled_detection_reset_counts() {
    let mut s = HushState::new();
    let mut p = MeetingPoll::new();
    p.after_detection(&mut s, true);
    assert!(!p.begin_cycle(&s, 31));
    assert_eq!(p, MeetingPoll::new());
    assert!(p.begin_cycle(&s, 30));
    p.after_detection(&mut s, false);
    s.auto_dnd_on_calls = false;
    assert!(!p.begin_cycle(&s, 3));
    assert_eq!(p.consecutive_no_meeting, 0);
}

#[test]
fn menu_events() {
    let mut s = HushState::new();
    assert_eq!(s.handle_menu_event("toggle"), MenuReaction::Toggle);
    assert_eq!(s.handle_menu_event("auto_screen_share"), MenuReaction::Nothing);
    assert!(!s.auto_dnd_on_calls);
    assert_eq!(s.handle_menu_event("play_sound"), MenuReaction::Nothing);
    assert!(!s.play_sound);
    assert_eq!(s.handle_menu_event("status"), MenuReaction::Nothing);
    assert_eq!(s.handle_menu_event("quit"), MenuReaction::Quit(false));
    s.hushed = true;
    assert_eq!(s.handle_menu_event("quit"), MenuReaction::Quit(true));
}

#[test]
fn menu_reflects_state() {
    let mut s = HushState::new();
    let m = s.menu_entries();
    assert_eq!(m.len(), 8);
    match m[0] {
        MenuEntry::Item { id, label, enabled, .. } => {
            assert_eq!((id, label, enabled), ("status", "🔔 Notifications On", false))
        }
        _ => panic!("status item expected"),
    }
    s.hushed = true;
    s.play_sound = false;
    let m = s.menu_entries();
    match m[2] {
        MenuEntry::Item { id, label, .. } => assert_eq!((id, label), ("toggle", "Turn Notifications On")),
        _ => panic!("toggle item expected"),
    }
    match m[5] {
        MenuEntry::Check { id, checked, .. } => assert_eq!((id, checked), ("play_sound", false)),
        _ => panic!("check item expected"),
    }
    match m[7] {
        MenuEntry::Item { label, accelerator, .. } => {
            assert_eq!((label, accelerator), ("Quit Hush", Some("CmdOrCtrl+Q")))
        }
        _ => panic!("quit item expected"),
    }
    assert!(matches!(m[1], MenuEntry::Separator));
}

#[test]
fn tray_looks() {
    let t = tray_look(true);
    assert_eq!((t.icon, t.tooltip), ("icons/tray-hushed.png", "Hush — Notifications Off"));
    let t = tray_look(false);
    assert_eq!((t.icon, t.tooltip), ("icons/tray-normal.png", "Hush — Notifications On"));
    assert_eq!(loading_look().icon, "icons/tray-loading.png");
}

#[test]
fn toggle_sounds() {
    let c = toggle_sound(Platform::MacOs, true).unwrap();
    assert_eq!(c.program, "/usr/bin/afplay");
    assert_eq!(c.args, vec!["/System/Library/Sounds/Purr.aiff".to_string()]);
    assert_eq!(c.launch, Launch::Spawn);
    assert_eq!(toggle_sound(Platform::MacOs, false).unwrap().args[0], "/System/Library/Sounds/Blow.aiff");
    assert_eq!(toggle_sound(Platform::Windows, true).unwrap().args[2], "[System.Media.SystemSounds]::Beep.Play()");
    assert!(toggle_sound(Platform::Other, true).is_none());
}
