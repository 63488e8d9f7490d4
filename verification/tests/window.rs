use koompi_shell::window::{HitResult, ManagedWindow, ResizeEdge, WindowManager};

fn window_400_by_300() -> ManagedWindow {
    ManagedWindow {
        id: 1,
        surface: 0,
        title: "w".to_string(),
        minimized: false,
        maximized: false,
        pre_max_geometry: None,
        width: 400,
        height: 300,
    }
}

#[test]
fn hit_test_title_bar_and_buttons() {
    let w = window_400_by_300();
    // client rectangle at (100, 100): title bar spans y in [70, 100)
    assert_eq!(w.hit_test(100, 85, (100, 100)), HitResult::TitleBar);
    // buttons sit in [right-25, right-5] by [top+5, top+25], right = 500
    assert_eq!(w.hit_test(480, 90, (100, 100)), HitResult::CloseButton);
    assert_eq!(w.hit_test(455, 90, (100, 100)), HitResult::MaximizeButton);
    assert_eq!(w.hit_test(430, 90, (100, 100)), HitResult::MinimizeButton);
    // past the right border band the point misses the window
    assert_eq!(w.hit_test(520, 90, (100, 100)), HitResult::Outside);
}

#[test]
fn hit_test_edges_corners_and_client() {
    let w = window_400_by_300();
    assert_eq!(w.hit_test(300, 67, (100, 100)), HitResult::Resize(ResizeEdge::Top));
    assert_eq!(w.hit_test(101, 67, (100, 100)), HitResult::Resize(ResizeEdge::TopLeft));
    assert_eq!(w.hit_test(499, 67, (100, 100)), HitResult::Resize(ResizeEdge::TopRight));
    assert_eq!(w.hit_test(300, 403, (100, 100)), HitResult::Resize(ResizeEdge::Bottom));
    assert_eq!(w.hit_test(101, 403, (100, 100)), HitResult::Resize(ResizeEdge::BottomLeft));
    assert_eq!(w.hit_test(499, 403, (100, 100)), HitResult::Resize(ResizeEdge::BottomRight));
    assert_eq!(w.hit_test(97, 200, (100, 100)), HitResult::Resize(ResizeEdge::Left));
    assert_eq!(w.hit_test(503, 200, (100, 100)), HitResult::Resize(ResizeEdge::Right));
    assert_eq!(w.hit_test(300, 250, (100, 100)), HitResult::Client);
    assert_eq!(w.hit_test(0, 0, (100, 100)), HitResult::Outside);
}

#[test]
fn drag_snaps_to_left_edge() {
    let mut wm = WindowManager::new();
    let id = wm.add_window(0, 400, 300);
    // the first window opens at the cascade position (50, 80)
    assert_eq!(wm.space.locate(id), Some((50, 80)));
    wm.start_drag(id, 100, 100);
    // candidate x = 50 + (65 - 100) = 15, within 20 of 0: snaps to 0
    wm.update_drag(65, 100, 1280, 800);
    assert_eq!(wm.space.locate(id), Some((0, 80)));
}

#[test]
fn drag_snaps_to_right_edge() {
    let mut wm = WindowManager::new();
    let id = wm.add_window(0, 400, 300);
    wm.start_drag(id, 0, 0);
    // candidate x = 50 + 825 = 875; right edge 1275 is within 20 of 1280
    wm.update_drag(825, 0, 1280, 800);
    assert_eq!(wm.space.locate(id), Some((880, 80)));
}

#[test]
fn maximize_round_trip_restores_geometry() {
    let mut wm = WindowManager::new();
    let id = wm.add_window(0, 400, 300);
    assert_eq!(wm.space.locate(id), Some((50, 80)));

    let grown = wm.toggle_maximize(id, 1280, 800);
    assert_eq!(grown, Some((id, 1280, 760)));
    assert_eq!(wm.space.locate(id), Some((0, 40)));
    assert!(wm.windows[0].maximized);

    let restored = wm.toggle_maximize(id, 1280, 800);
    assert_eq!(restored, Some((id, 400, 300)));
    assert_eq!(wm.space.locate(id), Some((50, 80)));
    assert_eq!(wm.windows[0].width, 400);
    assert_eq!(wm.windows[0].height, 300);
    assert!(!wm.windows[0].maximized);
    assert!(wm.windows[0].pre_max_geometry.is_none());
}

#[test]
fn resize_right_edge_clamps_to_minimum() {
    let mut wm = WindowManager::new();
    let id = wm.add_window(0, 400, 300);
    wm.start_resize(id, ResizeEdge::Right, 500, 300);
    // shrinking 400 wide by 350 would go below the 100 minimum
    let req = wm.update_resize(150, 300);
    assert_eq!(req, Some((id, 100, 300)));
    assert_eq!(wm.windows[0].width, 100);
}

#[test]
fn resize_left_edge_pins_the_right_edge() {
    let mut wm = WindowManager::new();
    let id = wm.add_window(0, 400, 300);
    wm.start_resize(id, ResizeEdge::Left, 0, 0);
    let req = wm.update_resize(50, 0);
    // the left edge moves 50 right; width shrinks to 350; right edge stays at 450
    assert_eq!(req, Some((id, 350, 300)));
    assert_eq!(wm.space.locate(id), Some((100, 80)));
}

#[test]
fn window_at_respects_stacking_and_minimized() {
    let mut wm = WindowManager::new();
    let a = wm.add_window(0, 400, 300);
    let b = wm.add_window(0, 400, 300);
    // b opened later and sits on top; both overlap around (200, 200)
    assert_eq!(wm.window_at(200, 200).map(|(id, _)| id), Some(b));
    wm.toggle_minimize(b);
    assert_eq!(wm.window_at(200, 200).map(|(id, _)| id), Some(a));
    assert_eq!(wm.window_at(-500, -500), None);
}

#[test]
fn focus_raises_and_close_targets_tracked_windows() {
    let mut wm = WindowManager::new();
    let a = wm.add_window(0, 400, 300);
    let b = wm.add_window(0, 400, 300);
    assert_eq!(wm.focused, Some(b));
    wm.focus_window(a);
    assert_eq!(wm.focused, Some(a));
    assert_eq!(wm.windows.last().map(|w| w.id), Some(a));
    assert!(wm.close_window(a));
    assert!(!wm.close_window(99));
}

#[test]
fn removing_a_window_drops_every_reference() {
    let mut wm = WindowManager::new();
    let a = wm.add_window(0, 400, 300);
    let b = wm.add_window(0, 400, 300);
    wm.start_drag(b, 0, 0);
    wm.remove_window(b);
    assert_eq!(wm.windows.len(), 1);
    assert_eq!(wm.space.locate(b), None);
    assert_eq!(wm.focused, Some(a));
    assert!(wm.close_window(a));
    // the drag holding the removed window ended with it
    wm.update_drag(500, 500, 1280, 800);
    assert_eq!(wm.space.locate(a), Some((50, 80)));
}

#[test]
fn windows_are_titled_in_order() {
    let mut wm = WindowManager::new();
    wm.add_window(0, 400, 300);
    wm.add_window(0, 400, 300);
    assert_eq!(wm.windows[0].title, "Window 1");
    assert_eq!(wm.windows[1].title, "Window 2");
}

#[test]
fn small_windows_are_clamped_to_the_minimum() {
    let mut wm = WindowManager::new();
    let id = wm.add_window(0, 10, 10);
    let w = &wm.windows[0];
    assert_eq!(w.id, id);
    assert_eq!(w.width, 100);
    assert_eq!(w.height, 100);
}
