use koompi_shell::chrome::{app_command, Message};
use koompi_shell::input::{keycode_to_char, InputEvent, ShellAction};
use koompi_shell::lock_screen::LockState;
use koompi_shell::shell::{RenderLayer, Shell};

#[test]
fn locked_input_reaches_only_the_lock_screen() {
    let mut shell = Shell::new();
    shell.lock_screen.lock();
    // 't' is keycode 20; while locked it must type into the password
    let acts = shell.handle_input_event(InputEvent::Keyboard { code: 20, pressed: true });
    assert!(acts.is_empty());
    shell.lock_screen.toggle_password_visibility();
    assert_eq!(shell.lock_screen.display_password(), "t");
    // and nothing else ran: no notification, no forwarded key
    assert_eq!(shell.notifications.count(), 0);
}

#[test]
fn keyboard_events_always_forward_to_the_client() {
    let mut shell = Shell::new();
    let acts = shell.handle_input_event(InputEvent::Keyboard { code: 30, pressed: true });
    assert!(matches!(
        acts[0],
        ShellAction::ForwardKey { code: 30, pressed: true }
    ));
}

#[test]
fn super_l_locks_and_notifies() {
    let mut shell = Shell::new();
    shell.handle_input_event(InputEvent::Keyboard { code: 125, pressed: true });
    shell.handle_input_event(InputEvent::Keyboard { code: 38, pressed: true });
    assert_eq!(shell.lock_screen.state, LockState::Locked);
    assert_eq!(shell.notifications.count(), 1);
    assert_eq!(shell.notifications.visible()[0].summary, "Screen locked");
}

#[test]
fn modifier_state_follows_presses_and_releases() {
    let mut shell = Shell::new();
    shell.handle_input_event(InputEvent::Keyboard { code: 42, pressed: true });
    assert!(shell.modifiers.shift);
    shell.handle_input_event(InputEvent::Keyboard { code: 29, pressed: true });
    assert!(shell.modifiers.ctrl);
    shell.handle_input_event(InputEvent::Keyboard { code: 42, pressed: false });
    assert!(!shell.modifiers.shift);
    assert!(shell.modifiers.ctrl);
}

#[test]
fn escape_cancels_in_priority_order() {
    let mut shell = Shell::new();
    // shift-held print-screen starts a region selection
    shell.handle_input_event(InputEvent::Keyboard { code: 42, pressed: true });
    shell.handle_input_event(InputEvent::Keyboard { code: 99, pressed: true });
    assert!(shell.screenshot.region_selection.active);
    shell.handle_input_event(InputEvent::Keyboard { code: 42, pressed: false });

    // open the power menu and the launcher behind it
    shell.handle_input_event(InputEvent::Keyboard { code: 29, pressed: true });
    shell.handle_input_event(InputEvent::Keyboard { code: 56, pressed: true });
    shell.handle_input_event(InputEvent::Keyboard { code: 111, pressed: true });
    assert!(shell.power_menu.visible);
    shell.handle_input_event(InputEvent::Keyboard { code: 29, pressed: false });
    shell.handle_input_event(InputEvent::Keyboard { code: 56, pressed: false });

    // first escape: the region selection goes
    shell.handle_input_event(InputEvent::Keyboard { code: 1, pressed: false });
    assert!(!shell.screenshot.region_selection.active);
    assert!(shell.power_menu.visible);
    // second escape: the power menu goes
    shell.handle_input_event(InputEvent::Keyboard { code: 1, pressed: false });
    assert!(!shell.power_menu.visible);
}

#[test]
fn print_screen_without_modifiers_notifies_full_screen() {
    let mut shell = Shell::new();
    shell.handle_input_event(InputEvent::Keyboard { code: 99, pressed: true });
    assert_eq!(shell.notifications.count(), 1);
    assert_eq!(
        shell.notifications.visible()[0].summary,
        "Full screen captured"
    );
}

#[test]
fn region_release_finishes_the_selection() {
    let mut shell = Shell::new();
    shell.handle_input_event(InputEvent::Keyboard { code: 42, pressed: true });
    shell.handle_input_event(InputEvent::Keyboard { code: 99, pressed: true });
    shell.handle_input_event(InputEvent::Keyboard { code: 42, pressed: false });
    assert_eq!(shell.notifications.count(), 1);

    shell.handle_input_event(InputEvent::PointerMotion { x: 150, y: 170 });
    let acts = shell.handle_input_event(InputEvent::PointerButton { pressed: false });
    assert!(acts.is_empty());
    assert!(!shell.screenshot.region_selection.active);
    assert_eq!(shell.notifications.count(), 2);
    assert_eq!(shell.notifications.visible()[1].summary, "Region captured");
}

#[test]
fn super_t_launches_the_terminal() {
    let mut shell = Shell::new();
    shell.handle_input_event(InputEvent::Keyboard { code: 125, pressed: true });
    let acts = shell.handle_input_event(InputEvent::Keyboard { code: 20, pressed: true });
    assert!(acts.iter().any(|a| matches!(a, ShellAction::LaunchApp(n) if n == "Terminal")));
}

#[test]
fn f11_toggles_maximize_of_the_focused_window() {
    let mut shell = Shell::new();
    let id = shell.wm.add_window(0, 400, 300);
    let acts = shell.handle_input_event(InputEvent::Keyboard { code: 87, pressed: true });
    assert!(acts.iter().any(
        |a| matches!(a, ShellAction::ConfigureSize { id: c, width: 1280, height: 760 } if *c == id)
    ));
    assert!(shell.wm.windows[0].maximized);

    let acts = shell.handle_input_event(InputEvent::Keyboard { code: 87, pressed: true });
    assert!(acts.iter().any(
        |a| matches!(a, ShellAction::ConfigureSize { width: 400, height: 300, .. })
    ));
    assert!(!shell.wm.windows[0].maximized);
    assert_eq!(shell.wm.space.locate(id), Some((50, 80)));
}

#[test]
fn tab_cycles_the_focus() {
    let mut shell = Shell::new();
    let a = shell.wm.add_window(0, 200, 200);
    let b = shell.wm.add_window(0, 200, 200);
    assert_eq!(shell.wm.focused, Some(b));
    shell.handle_input_event(InputEvent::Keyboard { code: 15, pressed: true });
    assert_eq!(shell.wm.focused, Some(a));
    shell.handle_input_event(InputEvent::Keyboard { code: 15, pressed: true });
    assert_eq!(shell.wm.focused, Some(b));
}

#[test]
fn render_plan_keeps_the_draw_order() {
    let mut shell = Shell::new();
    let a = shell.wm.add_window(0, 200, 200);
    let b = shell.wm.add_window(0, 200, 200);
    shell.wm.toggle_minimize(b);
    shell.power_menu.toggle();

    let plan = shell.render_plan(0);
    assert_eq!(
        plan,
        vec![
            RenderLayer::Client { id: a },
            RenderLayer::Decoration { id: a },
            RenderLayer::Panel,
            RenderLayer::Notifications,
            RenderLayer::PowerMenu,
        ]
    );

    shell.lock_screen.lock();
    let plan = shell.render_plan(0);
    assert_eq!(
        plan,
        vec![
            RenderLayer::Client { id: a },
            RenderLayer::Decoration { id: a },
            RenderLayer::Panel,
            RenderLayer::PowerMenu,
            RenderLayer::LockScreen,
        ]
    );
}

#[test]
fn clicking_the_title_bar_starts_a_drag() {
    let mut shell = Shell::new();
    let id = shell.wm.add_window(0, 400, 300);
    // the window sits at (50, 80); its title bar spans y in [50, 80)
    shell.handle_input_event(InputEvent::PointerMotion { x: 200, y: 60 });
    shell.handle_input_event(InputEvent::PointerButton { pressed: true });
    assert!(matches!(
        shell.wm.interaction,
        koompi_shell::window::Interaction::Dragging { id: d, .. } if d == id
    ));
    // release ends the drag
    shell.handle_input_event(InputEvent::PointerButton { pressed: false });
    assert!(matches!(
        shell.wm.interaction,
        koompi_shell::window::Interaction::Idle
    ));
}

#[test]
fn clicking_the_close_button_requests_a_close() {
    let mut shell = Shell::new();
    let id = shell.wm.add_window(0, 400, 300);
    // right edge is at 450; the close button spans x in [425, 445]
    shell.handle_input_event(InputEvent::PointerMotion { x: 430, y: 60 });
    let acts = shell.handle_input_event(InputEvent::PointerButton { pressed: true });
    assert!(acts.iter().any(|a| matches!(a, ShellAction::RequestClose(c) if *c == id)));
}

#[test]
fn chrome_click_opens_the_launcher() {
    let mut shell = Shell::new();
    shell.handle_input_event(InputEvent::PointerMotion { x: 50, y: 20 });
    shell.handle_input_event(InputEvent::PointerButton { pressed: true });
    assert!(shell.ui.show_launcher);
    // the first launcher row launches the terminal; launcher x = (1280-300)/2
    let acts = {
        let mut ui_acts = Vec::new();
        if let Some(app) = shell.ui.update(Message::Click(600, 120)) {
            ui_acts.push(app);
        }
        ui_acts
    };
    assert_eq!(acts, vec!["Terminal".to_string()]);
    assert!(!shell.ui.show_launcher);
}

#[test]
fn app_commands_map_known_names() {
    assert_eq!(app_command("Terminal"), Some("foot"));
    assert_eq!(app_command("Browser"), Some("firefox"));
    assert_eq!(app_command("Files"), Some("nautilus"));
    assert_eq!(app_command("Settings"), Some("gnome-control-center"));
    assert_eq!(app_command("Unknown"), None);
}

#[test]
fn keycode_map_matches_the_standard_layout() {
    assert_eq!(keycode_to_char(16, false), Some('q'));
    assert_eq!(keycode_to_char(16, true), Some('Q'));
    assert_eq!(keycode_to_char(2, false), Some('1'));
    // the shifted digit row indexes the symbols by digit value
    assert_eq!(keycode_to_char(2, true), Some('@'));
    assert_eq!(keycode_to_char(11, false), Some('0'));
    assert_eq!(keycode_to_char(11, true), Some('!'));
    assert_eq!(keycode_to_char(57, false), Some(' '));
    assert_eq!(keycode_to_char(12, true), Some('_'));
    assert_eq!(keycode_to_char(13, false), Some('='));
    assert_eq!(keycode_to_char(200, false), None);
}

#[test]
fn tick_drains_events_and_advances_the_clock() {
    let mut shell = Shell::new();
    let events = vec![
        InputEvent::Keyboard { code: 30, pressed: true },
        InputEvent::Keyboard { code: 30, pressed: false },
    ];
    let acts = shell.tick(events);
    let forwarded = acts
        .iter()
        .filter(|a| matches!(a, ShellAction::ForwardKey { .. }))
        .count();
    assert_eq!(forwarded, 2);
    // the displayed clock is HH:MM
    assert_eq!(shell.ui.clock_text.len(), 5);
    assert_eq!(shell.ui.clock_text.as_bytes()[2], b':');
}
