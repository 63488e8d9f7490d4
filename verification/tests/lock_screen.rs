use koompi_shell::lock_screen::{LockMessage, LockScreen, LockState, PowerMenu, SessionAction};

#[test]
fn test_lock_unlock() {
    let mut screen = LockScreen::new();
    assert_eq!(screen.state, LockState::Unlocked);

    screen.lock();
    assert_eq!(screen.state, LockState::Locked);
}

#[test]
fn test_password_masking() {
    let mut screen = LockScreen::new();
    screen.lock();
    screen.input_char('t');
    screen.input_char('e');
    screen.input_char('s');
    screen.input_char('t');

    assert_eq!(screen.display_password(), "\u{25cf}\u{25cf}\u{25cf}\u{25cf}");
    screen.toggle_password_visibility();
    assert_eq!(screen.display_password(), "test");
}

#[test]
fn test_failed_attempts() {
    let mut screen = LockScreen::new();
    screen.lock();

    for _ in 0..5 {
        screen.try_unlock("wrong");
    }

    assert!(screen.is_locked_out());
}

#[test]
fn five_failures_set_thirty_second_lockout() {
    let mut screen = LockScreen::new();
    screen.lock();
    for _ in 0..4 {
        screen.try_unlock("wrong");
        assert!(!screen.is_locked_out());
    }
    screen.try_unlock("wrong");
    assert_eq!(screen.failed_attempts, 5);
    assert!(screen.is_locked_out());
    assert_eq!(
        screen.error_message,
        Some(LockMessage::LockoutStarted { lockout_secs: 30 })
    );
}

#[test]
fn attempt_during_lockout_is_not_counted() {
    let mut screen = LockScreen::new();
    screen.lock();
    for _ in 0..5 {
        screen.try_unlock("wrong");
    }
    assert_eq!(screen.failed_attempts, 5);
    let sixth = screen.try_unlock("wrong");
    assert!(!sixth);
    assert_eq!(screen.failed_attempts, 5);
    assert!(matches!(
        screen.error_message,
        Some(LockMessage::LockedOut { .. })
    ));
}

#[test]
fn incorrect_attempts_report_their_count() {
    let mut screen = LockScreen::new();
    screen.lock();
    screen.try_unlock("nope");
    assert_eq!(
        screen.error_message,
        Some(LockMessage::Incorrect { attempts: 1 })
    );
    assert_eq!(screen.state, LockState::AuthFailed);
}

#[test]
fn typing_after_failure_returns_to_locked() {
    let mut screen = LockScreen::new();
    screen.lock();
    screen.try_unlock("nope");
    assert_eq!(screen.state, LockState::AuthFailed);
    screen.input_char('a');
    assert_eq!(screen.state, LockState::Locked);
    assert_eq!(screen.error_message, None);
    assert_eq!(screen.display_password(), "\u{25cf}");
}

#[test]
fn backspace_and_escape_edit_the_buffer() {
    let mut screen = LockScreen::new();
    screen.lock();
    screen.input_char('a');
    screen.input_char('b');
    screen.input_backspace();
    screen.toggle_password_visibility();
    assert_eq!(screen.display_password(), "a");
    screen.input_escape();
    assert_eq!(screen.display_password(), "");
}

#[test]
fn idle_lock_only_fires_while_unlocked() {
    let mut screen = LockScreen::new();
    assert!(!screen.should_idle_lock_at(0));
    assert!(screen.should_idle_lock_at(u64::MAX));
    screen.lock();
    assert!(!screen.should_idle_lock_at(u64::MAX));
}

#[test]
fn time_locked_counts_from_the_lock_instant() {
    let mut screen = LockScreen::new();
    assert_eq!(screen.time_locked(), None);
    screen.lock_at(1_000);
    assert_eq!(screen.time_locked_at(4_500), Some(3_500));
    assert_eq!(screen.time_locked_at(500), Some(0));
}

#[test]
fn power_menu_cycles_and_confirms() {
    let mut menu = PowerMenu::new();
    assert!(!menu.visible);
    assert_eq!(
        menu.actions,
        vec![
            SessionAction::Lock,
            SessionAction::Logout,
            SessionAction::Suspend,
            SessionAction::Hibernate,
            SessionAction::Reboot,
            SessionAction::Shutdown,
        ]
    );
    assert_eq!(menu.confirm(), None);

    menu.toggle();
    assert!(menu.visible);
    menu.select_next();
    assert_eq!(menu.selected, 1);
    menu.select_prev();
    menu.select_prev();
    assert_eq!(menu.selected, 5);
    menu.select_next();
    assert_eq!(menu.selected, 0);
    assert_eq!(menu.confirm(), Some(SessionAction::Lock));
    assert!(!menu.visible);
}

#[test]
fn session_action_labels() {
    assert_eq!(SessionAction::Lock.label(), "Lock");
    assert_eq!(SessionAction::Logout.label(), "Log Out");
    assert_eq!(SessionAction::Shutdown.label(), "Shut Down");
    assert_eq!(SessionAction::Lock.icon(), "\u{1f512}");
}
