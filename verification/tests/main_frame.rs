use mocha::helper::{ToWide, WideString};
use mocha::ui::main_frame::{IconProgress, IconRequest};
use mocha::ui::main_frame::{
    Effect, KeyStroke, MenuItem, PopupMenu, CMD_EXIT, CMD_KEEP_AWAKE, CMD_PROHIBIT_SCREEN_SAVER,
    IDLE_THRESHOLD_MS, IDLE_TIMER_ID, IDLE_TIMER_INTERVAL_MS,
};
use mocha::ui::MainFrame;

const TASKBAR_CREATED: u32 = 0xC123;

fn command(frame: &mut MainFrame, id: i16) -> Effect {
    frame.handle(0x0111, id as u16 as usize, 0, TASKBAR_CREATED)
}

#[test]
fn new_frame_has_both_settings_off() {
    let frame = MainFrame::new();
    assert!(!frame.awake());
    assert!(!frame.prohibit_ss());
}

#[test]
fn create_asks_for_icon_and_leaves_state() {
    let mut frame = MainFrame::new();
    assert_eq!(frame.handle(0x0001, 0, 0x1000, TASKBAR_CREATED), Effect::Create);
    assert!(!frame.awake());
    assert!(!frame.prohibit_ss());
}

#[test]
fn installed_icon_turns_both_settings_on() {
    let mut frame = MainFrame::new();
    let reply = MainFrame::after_icon_install(true);
    assert_eq!(reply.result, 0);
    assert_eq!(reply.commands, vec![CMD_KEEP_AWAKE, CMD_PROHIBIT_SCREEN_SAVER]);
    let mut effects = Vec::new();
    for id in reply.commands {
        effects.push(command(&mut frame, id));
    }
    assert_eq!(
        effects,
        vec![Effect::SetExecutionState(0x8000_0003), Effect::SetTimer(0, 1000)]
    );
    assert!(frame.awake());
    assert!(frame.prohibit_ss());
}

#[test]
fn keep_awake_toggles_execution_state() {
    let mut frame = MainFrame::new();
    assert_eq!(command(&mut frame, CMD_KEEP_AWAKE), Effect::SetExecutionState(0x8000_0003));
    assert!(frame.awake());
    assert_eq!(command(&mut frame, CMD_KEEP_AWAKE), Effect::SetExecutionState(0x8000_0000));
    assert!(!frame.awake());
    assert!(!frame.prohibit_ss());
}

#[test]
fn prohibit_screen_saver_toggles_timer() {
    let mut frame = MainFrame::new();
    assert_eq!(
        command(&mut frame, CMD_PROHIBIT_SCREEN_SAVER),
        Effect::SetTimer(IDLE_TIMER_ID, IDLE_TIMER_INTERVAL_MS)
    );
    assert!(frame.prohibit_ss());
    assert_eq!(command(&mut frame, CMD_PROHIBIT_SCREEN_SAVER), Effect::KillTimer(IDLE_TIMER_ID));
    assert!(!frame.prohibit_ss());
    assert!(!frame.awake());
}

#[test]
fn exit_command_closes_window() {
    let mut frame = MainFrame::new();
    assert_eq!(command(&mut frame, CMD_EXIT), Effect::CloseWindow);
    assert!(!frame.awake());
}

#[test]
fn unknown_command_does_nothing() {
    let mut frame = MainFrame::new();
    assert_eq!(command(&mut frame, 3), Effect::Nothing);
    assert_eq!(command(&mut frame, -1), Effect::Nothing);
    assert!(!frame.awake());
    assert!(!frame.prohibit_ss());
}

#[test]
fn same_command_twice_restores_state() {
    let mut frame = MainFrame::new();
    command(&mut frame, CMD_PROHIBIT_SCREEN_SAVER);
    for id in [CMD_KEEP_AWAKE, CMD_PROHIBIT_SCREEN_SAVER, CMD_EXIT, 7] {
        let before = (frame.awake(), frame.prohibit_ss());
        command(&mut frame, id);
        command(&mut frame, id);
        assert_eq!((frame.awake(), frame.prohibit_ss()), before);
    }
}

#[test]
fn command_with_notification_code_is_handled_by_id() {
    let mut frame = MainFrame::new();
    let effect = frame.handle(0x0111, 0x0001_0001, 0x55, TASKBAR_CREATED);
    assert_eq!(effect, Effect::SetExecutionState(0x8000_0003));
    assert!(frame.awake());
}

#[test]
fn destroy_removes_icon_and_quits() {
    let mut frame = MainFrame::new();
    assert_eq!(frame.handle(0x0002, 0, 0, TASKBAR_CREATED), Effect::Destroy);
}

#[test]
fn timer_asks_for_idle_check() {
    let mut frame = MainFrame::new();
    command(&mut frame, CMD_PROHIBIT_SCREEN_SAVER);
    assert_eq!(frame.handle(0x0113, 0, 0, TASKBAR_CREATED), Effect::CheckIdle);
    assert!(frame.prohibit_ss());
}

#[test]
fn taskbar_created_reinstalls_icon() {
    let mut frame = MainFrame::new();
    assert_eq!(frame.handle(TASKBAR_CREATED, 0, 0, TASKBAR_CREATED), Effect::AddIcon);
}

#[test]
fn other_registered_message_goes_to_default() {
    let mut frame = MainFrame::new();
    assert_eq!(frame.handle(0xC124, 0, 0, TASKBAR_CREATED), Effect::Default);
}

#[test]
fn unregistered_taskbar_number_never_matches_plain_message() {
    let mut frame = MainFrame::new();
    assert_eq!(frame.handle(0, 0, 0, 0), Effect::Default);
}

#[test]
fn unknown_and_user_messages_go_to_default() {
    let mut frame = MainFrame::new();
    assert_eq!(frame.handle(0x0081, 0, 0, TASKBAR_CREATED), Effect::Default);
    assert_eq!(frame.handle(0x0400, 0, 0, TASKBAR_CREATED), Effect::Default);
    assert_eq!(frame.handle(0x0005, 0, 0, TASKBAR_CREATED), Effect::Default);
}

fn expected_menu(x: i32, y: i32, awake: bool, prohibit_ss: bool) -> PopupMenu {
    let flag = |on: bool| if on { 0x0008 } else { 0x0000 };
    PopupMenu {
        x,
        y,
        items: vec![
            MenuItem { flags: flag(awake), id: 1, label: Some("&Keep awake".to_wide()) },
            MenuItem { flags: flag(prohibit_ss), id: 2, label: Some("&Prohibit screen saver".to_wide()) },
            MenuItem { flags: 0x0800, id: 0, label: None },
            MenuItem { flags: 0x0000, id: 0, label: Some("E&xit".to_wide()) },
        ],
    }
}

#[test]
fn context_menu_request_shows_menu_at_point() {
    let mut frame = MainFrame::new();
    let effect = frame.handle(0x8000, (250usize << 16) | 640, 0x007B, TASKBAR_CREATED);
    assert_eq!(effect, Effect::ShowMenu(expected_menu(640, 250, false, false)));
}

#[test]
fn context_menu_shows_check_marks_of_settings() {
    let mut frame = MainFrame::new();
    command(&mut frame, CMD_KEEP_AWAKE);
    let effect = frame.handle(0x8000, 0, 0x007B, TASKBAR_CREATED);
    assert_eq!(effect, Effect::ShowMenu(expected_menu(0, 0, true, false)));
    command(&mut frame, CMD_PROHIBIT_SCREEN_SAVER);
    let effect = frame.handle(0x8000, 0, 0x007B, TASKBAR_CREATED);
    assert_eq!(effect, Effect::ShowMenu(expected_menu(0, 0, true, true)));
}

#[test]
fn context_menu_labels_are_wide_strings() {
    let frame = MainFrame::new();
    let menu = frame.context_menu(0);
    assert_eq!(
        menu.items[3].label,
        Some(WideString(vec![0x45, 0x26, 0x78, 0x69, 0x74, 0]))
    );
}

#[test]
fn other_icon_notifications_do_nothing() {
    let mut frame = MainFrame::new();
    assert_eq!(frame.handle(0x8000, 0, 0x0201, TASKBAR_CREATED), Effect::Nothing);
    assert_eq!(frame.handle(0x8000, 0, 0x0200, TASKBAR_CREATED), Effect::Nothing);
}

#[test]
fn context_menu_point_takes_low_and_next_word() {
    let frame = MainFrame::new();
    let menu = frame.context_menu(0xFFFF_FFFF);
    assert_eq!((menu.x, menu.y), (0xFFFF, 0xFFFF));
}

fn shift_tap() -> Vec<KeyStroke> {
    vec![KeyStroke { vk: 0x10, flags: 0 }, KeyStroke { vk: 0x10, flags: 0x0002 }]
}

#[test]
fn idle_for_a_minute_taps_shift() {
    assert_eq!(MainFrame::idle_keystrokes(1_000, 61_000), shift_tap());
    assert_eq!(MainFrame::idle_keystrokes(1_000, 1_000 + IDLE_THRESHOLD_MS + 5), shift_tap());
}

#[test]
fn idle_just_under_a_minute_does_nothing() {
    assert_eq!(MainFrame::idle_keystrokes(1_000, 60_999), vec![]);
    assert_eq!(MainFrame::idle_keystrokes(5, 5), vec![]);
}

#[test]
fn idle_time_counts_across_tick_wraparound() {
    assert_eq!(MainFrame::idle_keystrokes(u32::MAX - 9_999, 50_000), shift_tap());
    assert_eq!(MainFrame::idle_keystrokes(u32::MAX - 9_999, 49_999), vec![]);
}

#[test]
fn tray_icon_shows_application_name() {
    let icon = MainFrame::tray_icon();
    assert_eq!(&icon.tip[..6], &[0x4D, 0x6F, 0x63, 0x68, 0x61, 0]);
    assert!(icon.tip[6..].iter().all(|&u| u == 0));
    assert_eq!(icon.flags, 0x0001 | 0x0002 | 0x0004 | 0x0080);
    assert_eq!(icon.callback_message, 0x8000);
    assert_eq!(icon.version, 4);
}

#[test]
fn only_commands_change_state() {
    let mut frame = MainFrame::new();
    command(&mut frame, CMD_KEEP_AWAKE);
    for (msg, wp, lp) in [
        (0x0001u32, 1usize, 1isize),
        (0x0002, 1, 1),
        (0x0113, 0, 0),
        (0x8000, 0, 0x007B),
        (0x0400, 1, 2),
        (TASKBAR_CREATED, 0, 0),
        (0x0081, 0, 0),
    ] {
        frame.handle(msg, wp, lp, TASKBAR_CREATED);
        assert!(frame.awake());
        assert!(!frame.prohibit_ss());
    }
}

#[test]
fn creation_fails_without_icon() {
    let mut frame = MainFrame::new();
    assert_eq!(frame.handle(0x0001, 0, 0, TASKBAR_CREATED), Effect::Create);
    let reply = MainFrame::after_icon_install(false);
    assert_eq!(reply.result, -1);
    assert!(reply.commands.is_empty());
    assert!(!frame.awake());
    assert!(!frame.prohibit_ss());
}

#[test]
fn icon_install_sets_version_only_after_add() {
    assert_eq!(
        MainFrame::icon_install_next(IconRequest::Add, true),
        IconProgress::Next(IconRequest::SetVersion)
    );
    assert_eq!(MainFrame::icon_install_next(IconRequest::Add, false), IconProgress::Failed);
    assert_eq!(MainFrame::icon_install_next(IconRequest::SetVersion, true), IconProgress::Installed);
    assert_eq!(MainFrame::icon_install_next(IconRequest::SetVersion, false), IconProgress::Failed);
}

#[test]
fn last_requests_follow_settings_after_command_runs() {
    let runs: [&[i16]; 5] = [
        &[1, 2, 1],
        &[2, 2, 0, 1, 5],
        &[1, 1, 2, 1, 2, 2],
        &[3, 0, -4],
        &[2, 1, 2, 1, 1],
    ];
    for ids in runs {
        let mut frame = MainFrame::new();
        let mut last_exec = None;
        let mut last_timer = None;
        for &id in ids {
            match frame.handle_command(id) {
                Effect::SetExecutionState(f) => last_exec = Some(f),
                e @ (Effect::SetTimer(..) | Effect::KillTimer(..)) => last_timer = Some(e),
                _ => {}
            }
        }
        match last_exec {
            Some(f) => assert_eq!(f & 0x3 == 0x3, frame.awake()),
            None => assert!(!frame.awake()),
        }
        match last_timer {
            Some(e) => assert_eq!(
                e,
                if frame.prohibit_ss() { Effect::SetTimer(0, 1000) } else { Effect::KillTimer(0) }
            ),
            None => assert!(!frame.prohibit_ss()),
        }
    }
}
