//! The compositor core: one state owning the window manager, chrome,
//! notification daemon, lock screen, power menu and screenshot state; the
//! input router that feeds them; and the per-tick frame plan with its
//! fixed bottom-to-top draw order.

use vstd::prelude::*;
use vstd::string::StringExecFns;
use crate::chrome::{Message, ShellUI, spec_click_outcome};
use crate::input::{InputEvent, ModifierState, ShellAction, keycode_to_char, spec_keycode_char, spec_update_modifiers};
use crate::lock_screen::{LockScreen, LockState, LockView, PowerMenu, spec_lock, spec_lock_wf, spec_menu_wf, spec_try_unlock};
use crate::notifications::{NotificationDaemon, OSD, spec_fresh_like, spec_osd_expired, MAX_VISIBLE};
use crate::screenshot::{ScreenshotManager, ScreenshotAction};
use crate::window::{HitResult, Interaction, ManagedWindow, Rect, WindowManager, MAX_COORD, spec_clamp_coord, spec_coord_ok, spec_drag_pos, spec_maximize_win, spec_maximized_size, spec_restore_win, spec_win_position, spec_window_at_in};
use crate::sys;

verus! {

/// One layer of the frame, drawn bottom to top in the order the plan
/// lists them.
#[derive(Debug, Clone, Copy, PartialEq, Eq, Structural)]
pub enum RenderLayer {
    Client { id: u32 },
    Decoration { id: u32 },
    Panel,
    Notifications,
    Osd,
    RegionOverlay,
    PowerMenu,
    LockScreen,
}

/// The client surfaces of the bottom `k` windows in stacking order,
/// skipping minimized windows.
pub open spec fn spec_client_layers(ws: Seq<ManagedWindow>, k: int) -> Seq<RenderLayer>
    decreases k,
{
    if k <= 0 {
        Seq::empty()
    } else {
        spec_client_layers(ws, k - 1) + if ws[k - 1].minimized {
            Seq::empty()
        } else {
            seq![RenderLayer::Client { id: ws[k - 1].id }]
        }
    }
}

/// The decorations of the bottom `k` windows in stacking order, skipping
/// minimized windows.
pub open spec fn spec_decoration_layers(ws: Seq<ManagedWindow>, k: int) -> Seq<RenderLayer>
    decreases k,
{
    if k <= 0 {
        Seq::empty()
    } else {
        spec_decoration_layers(ws, k - 1) + if ws[k - 1].minimized {
            Seq::empty()
        } else {
            seq![RenderLayer::Decoration { id: ws[k - 1].id }]
        }
    }
}

/// The compositor core's whole state.
pub struct Shell {
    pub wm: WindowManager,
    pub ui: ShellUI,
    pub notifications: NotificationDaemon,
    pub lock_screen: LockScreen,
    pub power_menu: PowerMenu,
    pub screenshot: ScreenshotManager,
    pub current_osd: Option<OSD>,
    pub modifiers: ModifierState,
    pub pointer_pos: (i32, i32),
}

/// The frame plan at instant `now`, bottom to top: client surfaces in
/// stacking order, their decorations, the panel, the active notifications
/// (suppressed entirely while the screen is not unlocked), the live
/// on-screen display while unexpired, the region-selection overlay while a
/// selection is active, the power menu while visible, and the lock screen
/// on top whenever the screen is not unlocked.
pub open spec fn spec_render_plan(s: Shell, now: u64) -> Seq<RenderLayer> {
    let n = s.wm.windows@.len() as int;
    spec_client_layers(s.wm.windows@, n) + spec_decoration_layers(s.wm.windows@, n) + seq![
        RenderLayer::Panel,
    ] + (if s.lock_screen@.state == LockState::Unlocked {
        seq![RenderLayer::Notifications]
    } else {
        Seq::empty()
    }) + (if s.current_osd matches Some(o) && !spec_osd_expired(o, now) {
        seq![RenderLayer::Osd]
    } else {
        Seq::empty()
    }) + (if s.screenshot.region_selection.active {
        seq![RenderLayer::RegionOverlay]
    } else {
        Seq::empty()
    }) + (if s.power_menu.visible {
        seq![RenderLayer::PowerMenu]
    } else {
        Seq::empty()
    }) + (if s.lock_screen@.state != LockState::Unlocked {
        seq![RenderLayer::LockScreen]
    } else {
        Seq::empty()
    })
}

/// How a click moves the window manager and which requests it emits, when
/// the chrome has declined the click: the topmost window under the point
/// takes the focus and rises; the title bar starts a drag, the buttons
/// close, maximize or minimize, a border band starts a resize, and the
/// client area only focuses. With no window under the point nothing
/// happens.
pub open spec fn spec_wm_click_rel(
    w0: WindowManager, w1: WindowManager, x: i32, y: i32, sw: int, sh: int, acts: Seq<ShellAction>,
) -> bool {
    match spec_window_at_in(
        w0.windows@, w0.space.entries_seq(), x as int, y as int, w0.windows@.len() as int,
    ) {
        None => w1 == w0 && acts.len() == 0,
        Some((id, hit)) => {
            let pos = spec_win_position(w0.windows@, id);
            let w = w0.windows@[pos];
            let raised = w0.windows@.remove(pos).push(w);
            let loc = w0.space.spec_locate(id);
            &&& w1.focused == Some(id)
            &&& w1.next_window_id == w0.next_window_id
            &&& match hit {
                HitResult::TitleBar => {
                    &&& w1.windows@ == raised
                    &&& w1.space == w0.space
                    &&& (if loc is Some {
                        w1.interaction == (Interaction::Dragging {
                            id,
                            start_pointer: (x, y),
                            start_window_pos: loc->0,
                        })
                    } else {
                        w1.interaction == w0.interaction
                    })
                    &&& acts.len() == 0
                },
                HitResult::CloseButton => {
                    &&& w1.windows@ == raised
                    &&& w1.space == w0.space
                    &&& w1.interaction == w0.interaction
                    &&& acts == seq![ShellAction::RequestClose(id)]
                },
                HitResult::MinimizeButton => {
                    &&& w1.windows@ == w0.windows@.remove(pos).push(
                        ManagedWindow { minimized: !w.minimized, ..w },
                    )
                    &&& w1.space == w0.space
                    &&& w1.interaction == w0.interaction
                    &&& acts.len() == 0
                },
                HitResult::MaximizeButton => {
                    &&& w1.interaction == w0.interaction
                    &&& if w.maximized {
                        if w.pre_max_geometry is Some {
                            let g = w.pre_max_geometry->0;
                            &&& w1.windows@ == w0.windows@.remove(pos).push(
                                spec_restore_win(w, g).0,
                            )
                            &&& w1.space.spec_locate(id) == Some((g.x, g.y))
                            &&& forall|q: u32|
                                q != id ==> w1.space.spec_locate(q) == w0.space.spec_locate(q)
                            &&& acts == seq![
                                ShellAction::ConfigureSize { id, width: g.w, height: g.h },
                            ]
                        } else {
                            &&& w1.windows@ == w0.windows@.remove(pos).push(
                                ManagedWindow { maximized: false, ..w },
                            )
                            &&& w1.space == w0.space
                            &&& acts.len() == 0
                        }
                    } else {
                        let (mw, mh) = spec_maximized_size(sw, sh);
                        &&& (if loc is Some {
                            w1.windows@ == w0.windows@.remove(pos).push(
                                spec_maximize_win(w, loc->0, sw, sh).0,
                            )
                        } else {
                            w1.windows@ == w0.windows@.remove(pos).push(
                                ManagedWindow {
                                    maximized: true,
                                    width: mw as i32,
                                    height: mh as i32,
                                    ..w
                                },
                            )
                        })
                        &&& w1.space.spec_locate(id) == Some((0i32, crate::PANEL_HEIGHT))
                        &&& forall|q: u32|
                            q != id ==> w1.space.spec_locate(q) == w0.space.spec_locate(q)
                        &&& acts == seq![
                            ShellAction::ConfigureSize { id, width: mw as i32, height: mh as i32 },
                        ]
                    }
                },
                HitResult::Resize(edge) => {
                    &&& w1.windows@ == raised
                    &&& w1.space == w0.space
                    &&& (if loc is Some {
                        let l = loc->0;
                        w1.interaction == (Interaction::Resizing {
                            id,
                            edge,
                            start_pointer: (x, y),
                            start_geometry: Rect { x: l.0, y: l.1, w: w.width, h: w.height },
                        })
                    } else {
                        w1.interaction == w0.interaction
                    })
                    &&& acts.len() == 0
                },
                HitResult::Client => {
                    &&& w1.windows@ == raised
                    &&& w1.space == w0.space
                    &&& w1.interaction == w0.interaction
                    &&& acts.len() == 0
                },
                HitResult::Outside => true,
            }
        },
    }
}

impl Shell {
    /// Well-formedness of every component.
    pub open spec fn wf(&self) -> bool {
        &&& self.wm.wf()
        &&& self.notifications.wf()
        &&& spec_lock_wf(self.lock_screen@)
        &&& spec_menu_wf(self.power_menu)
        &&& spec_coord_ok(self.pointer_pos.0 as int)
        &&& spec_coord_ok(self.pointer_pos.1 as int)
    }

    /// A fresh shell: no windows, default chrome, empty notification
    /// queue, unlocked screen, hidden power menu, no selection, no
    /// on-screen display, no modifier held, pointer at the origin.
    pub fn new() -> (r: Self)
        ensures
            r.wf(),
            r.wm.windows@ == Seq::<ManagedWindow>::empty(),
            r.wm.next_window_id == 1u32,
            r.wm.focused is None,
            r.wm.interaction is Idle,
            r.wm.space.entries_seq() == Seq::<(u32, i32, i32)>::empty(),
            r.ui.screen_size == (1280u32, 800u32),
            !r.ui.show_launcher,
            r.ui.show_tray_popup is None,
            r.ui.clock_text@ == Seq::<char>::empty(),
            r.ui.pointer_pos == (0i32, 0i32),
            r.ui.tray_icons@.len() == 4,
            r.notifications.active() == Seq::<crate::notifications::Notification>::empty(),
            r.notifications.hist() == Seq::<crate::notifications::Notification>::empty(),
            r.notifications.spec_next_id() == 1u32,
            r.lock_screen@.state == LockState::Unlocked,
            r.lock_screen@.failed_attempts == 0,
            r.lock_screen@.lockout_until is None,
            !r.power_menu.visible,
            r.power_menu.selected == 0,
            r.power_menu.actions@ == crate::lock_screen::spec_power_menu_actions(),
            !r.screenshot.region_selection.active,
            r.current_osd is None,
            r.modifiers == (ModifierState { shift: false, ctrl: false, alt: false, super_key: false }),
            r.pointer_pos == (0i32, 0i32),
    {
        Shell {
            wm: WindowManager::new(),
            ui: ShellUI::new(),
            notifications: NotificationDaemon::new(),
            lock_screen: LockScreen::new(),
            power_menu: PowerMenu::new(),
            screenshot: ScreenshotManager::new(),
            current_osd: None,
            modifiers: ModifierState::default(),
            pointer_pos: (0, 0),
        }
    }

    /// The screen size as coordinates the window manager accepts.
    fn clamped_screen(&self) -> (r: (i32, i32))
        ensures
            r.0 as int == if self.ui.screen_size.0 <= MAX_COORD {
                self.ui.screen_size.0 as int
            } else {
                MAX_COORD as int
            },
            r.1 as int == if self.ui.screen_size.1 <= MAX_COORD {
                self.ui.screen_size.1 as int
            } else {
                MAX_COORD as int
            },
            0 <= r.0 <= MAX_COORD,
            0 <= r.1 <= MAX_COORD,
    {
        let sw = if self.ui.screen_size.0 <= MAX_COORD as u32 {
            self.ui.screen_size.0 as i32
        } else {
            MAX_COORD
        };
        let sh = if self.ui.screen_size.1 <= MAX_COORD as u32 {
            self.ui.screen_size.1 as i32
        } else {
            MAX_COORD
        };
        (sw, sh)
    }

    /// Dispatch a pointer-button event at (x, y): the chrome is consulted
    /// first, and only if it declines does window hit-testing run; a
    /// release only ends whatever drag or resize was in flight.
    pub fn handle_click(&mut self, x: i32, y: i32, pressed: bool) -> (acts: Vec<ShellAction>)
        requires
            old(self).wf(),
            spec_coord_ok(x as int),
            spec_coord_ok(y as int),
        ensures
            final(self).wf(),
            final(self).notifications == old(self).notifications,
            final(self).lock_screen == old(self).lock_screen,
            final(self).power_menu == old(self).power_menu,
            final(self).screenshot == old(self).screenshot,
            final(self).current_osd == old(self).current_osd,
            final(self).modifiers == old(self).modifiers,
            final(self).pointer_pos == old(self).pointer_pos,
            !pressed ==> final(self).wm.interaction is Idle
                && final(self).wm.windows == old(self).wm.windows
                && final(self).wm.space == old(self).wm.space
                && final(self).wm.focused == old(self).wm.focused
                && final(self).ui == old(self).ui
                && acts@.len() == 0,
            pressed ==> exists|rr: Option<String>|
                {
                    &&& #[trigger] spec_click_outcome(old(self).ui, final(self).ui, x, y, rr)
                    &&& (rr matches Some(app) ==> final(self).wm == old(self).wm
                        && acts@.len() == 1
                        && (acts@[0] matches ShellAction::LaunchApp(a) && a@ == app@))
                    &&& (rr is None ==> spec_wm_click_rel(
                        old(self).wm,
                        final(self).wm,
                        x,
                        y,
                        (if old(self).ui.screen_size.0 <= MAX_COORD {
                            old(self).ui.screen_size.0 as int
                        } else {
                            MAX_COORD as int
                        }),
                        (if old(self).ui.screen_size.1 <= MAX_COORD {
                            old(self).ui.screen_size.1 as int
                        } else {
                            MAX_COORD as int
                        }),
                        acts@,
                    ))
                },
    {
        let mut acts: Vec<ShellAction> = Vec::new();
        if !pressed {
            self.wm.end_interaction();
            return acts;
        }
        let (sw, sh) = self.clamped_screen();
        let chrome_result = self.ui.update(Message::Click(x, y));
        if let Some(app) = chrome_result {
            let ghost rr = Some(app);
            acts.push(ShellAction::LaunchApp(app));
            proof {
                assert(spec_click_outcome(old(self).ui, self.ui, x, y, rr));
            }
            return acts;
        }
        let ghost w0 = self.wm;
        let hit = self.wm.window_at(x, y);
        if let Some((id, h)) = hit {
            proof {
                lemma_window_at_found(
                    w0.windows@,
                    w0.space.entries_seq(),
                    x as int,
                    y as int,
                    w0.windows@.len() as int,
                );
            }
            self.wm.focus_window(id);
            proof {
                lemma_raised_position(w0.windows@, spec_win_position(w0.windows@, id));
            }
            match h {
                HitResult::TitleBar => {
                    self.wm.start_drag(id, x, y);
                },
                HitResult::CloseButton => {
                    if self.wm.close_window(id) {
                        acts.push(ShellAction::RequestClose(id));
                    }
                },
                HitResult::MaximizeButton => {
                    let req = self.wm.toggle_maximize(id, sw, sh);
                    if let Some((rid, w, hgt)) = req {
                        acts.push(ShellAction::ConfigureSize { id: rid, width: w, height: hgt });
                    }
                    proof {
                        let pos = spec_win_position(w0.windows@, id);
                        let w = w0.windows@[pos];
                        let raised = w0.windows@.remove(pos).push(w);
                        assert(self.wm.windows@ =~= w0.windows@.remove(pos).push(
                            self.wm.windows@.last(),
                        ));
                    }
                },
                HitResult::MinimizeButton => {
                    self.wm.toggle_minimize(id);
                    proof {
                        let pos = spec_win_position(w0.windows@, id);
                        let w = w0.windows@[pos];
                        assert(self.wm.windows@ =~= w0.windows@.remove(pos).push(
                            ManagedWindow { minimized: !w.minimized, ..w },
                        ));
                    }
                },
                HitResult::Resize(edge) => {
                    self.wm.start_resize(id, edge, x, y);
                },
                HitResult::Client => (),
                HitResult::Outside => (),
            }
        }
        let ghost rr2: Option<String> = None;
        proof {
            assert(spec_click_outcome(old(self).ui, self.ui, x, y, rr2));
            assert(spec_wm_click_rel(w0, self.wm, x, y, sw as int, sh as int, acts@));
        }
        acts
    }
}

/// How toggling maximize on the window with the given id moves the window
/// manager and which size request it emits: maximizing saves the current
/// geometry and fills the (sw, sh) screen under the panel; restoring
/// applies the saved geometry exactly; either way the new size goes out as
/// one `ConfigureSize`. A restore without a saved geometry only drops the
/// flag, and an untracked id changes nothing.
pub open spec fn spec_toggle_max_rel(
    w0: WindowManager, w1: WindowManager, id: u32, sw: int, sh: int, acts: Seq<ShellAction>,
) -> bool {
    let pos = spec_win_position(w0.windows@, id);
    if pos >= 0 {
        let w = w0.windows@[pos];
        &&& w1.focused == w0.focused
        &&& w1.interaction == w0.interaction
        &&& w1.next_window_id == w0.next_window_id
        &&& if w.maximized {
            if w.pre_max_geometry is Some {
                let g = w.pre_max_geometry->0;
                &&& w1.windows@ == w0.windows@.update(pos, spec_restore_win(w, g).0)
                &&& w1.space.spec_locate(id) == Some((g.x, g.y))
                &&& forall|q: u32| q != id ==> w1.space.spec_locate(q) == w0.space.spec_locate(q)
                &&& acts == seq![ShellAction::ConfigureSize { id, width: g.w, height: g.h }]
            } else {
                &&& w1.windows@ == w0.windows@.update(pos, ManagedWindow { maximized: false, ..w })
                &&& w1.space == w0.space
                &&& acts.len() == 0
            }
        } else {
            let loc = w0.space.spec_locate(id);
            let (mw, mh) = spec_maximized_size(sw, sh);
            &&& (if loc is Some {
                w1.windows@ == w0.windows@.update(pos, spec_maximize_win(w, loc->0, sw, sh).0)
            } else {
                w1.windows@ == w0.windows@.update(
                    pos,
                    ManagedWindow { maximized: true, width: mw as i32, height: mh as i32, ..w },
                )
            })
            &&& w1.space.spec_locate(id) == Some((0i32, crate::PANEL_HEIGHT))
            &&& forall|q: u32| q != id ==> w1.space.spec_locate(q) == w0.space.spec_locate(q)
            &&& acts == seq![ShellAction::ConfigureSize { id, width: mw as i32, height: mh as i32 }]
        }
    } else {
        w1 == w0 && acts.len() == 0
    }
}

/// How one keyboard event moves the lock screen while it holds the input:
/// escape clears, backspace deletes, enter submits the buffer to an unlock
/// attempt at some instant, a key that types a character on the standard
/// map (with the held shift) enters it, and anything else — including
/// every release — changes nothing.
pub open spec fn spec_lock_input_rel(
    v0: LockView, v1: LockView, code: u32, pressed: bool, shift: bool,
) -> bool {
    if !pressed {
        v1 == v0
    } else if code == 1 {
        v1 == crate::lock_screen::spec_input_escape(v0)
    } else if code == 14 {
        v1 == crate::lock_screen::spec_input_backspace(v0)
    } else if code == 28 {
        if v0.state == LockState::Locked || v0.state == LockState::AuthFailed {
            exists|now: u64| v1 == spec_try_unlock(v0, false, now).0
        } else {
            v1 == v0
        }
    } else {
        match spec_keycode_char(code, shift) {
            Some(c) => v1 == crate::lock_screen::spec_input_char(v0, c),
            None => v1 == v0,
        }
    }
}

/// How one routed raw input event moves the whole shell: the relation
/// between the shell before (`s0`) and after (`s1`) `handle_input_event`
/// on `event`, and the actions it emits. Every event registers activity
/// (only `last_activity` moves beyond the event's own effect); while the
/// screen is not unlocked the event reaches the lock screen alone.
pub open spec fn spec_input_rel(s0: Shell, s1: Shell, event: InputEvent, acts: Seq<ShellAction>) -> bool {
    &&& s1.wf()
    &&& s1.notifications.spec_next_id() <= s0.notifications.spec_next_id() + 1
    &&& (s0.lock_screen@.state != LockState::Unlocked ==> ({
                &&& s1.wm == s0.wm
                &&& s1.ui == s0.ui
                &&& s1.notifications == s0.notifications
                &&& s1.power_menu == s0.power_menu
                &&& s1.screenshot == s0.screenshot
                &&& s1.current_osd == s0.current_osd
                &&& s1.modifiers == s0.modifiers
                &&& s1.pointer_pos == s0.pointer_pos
                &&& acts.len() == 0
                &&& ({
                    let va = (LockView {
                        last_activity: s1.lock_screen@.last_activity,
                        ..s0.lock_screen@
                    });
                    match event {
                        InputEvent::Keyboard { code, pressed } => spec_lock_input_rel(
                            va,
                            s1.lock_screen@,
                            code,
                            pressed,
                            s0.modifiers.shift,
                        ),
                        _ => s1.lock_screen@ == va,
                    }
                })
            }))
    &&& (s0.lock_screen@.state == LockState::Unlocked ==> match event {
                InputEvent::PointerMotion { x, y } => {
                    &&& s1.pointer_pos == (
                        ((spec_clamp_coord(x as int)) as i32),
                        ((spec_clamp_coord(y as int)) as i32),
                    )
                    &&& s1.ui.pointer_pos == s1.pointer_pos
                    &&& s1.notifications == s0.notifications
                    &&& (s0.screenshot.region_selection.active ==> s1.screenshot.region_selection.end == Some(s1.pointer_pos))
                    &&& (!s0.screenshot.region_selection.active ==> s1.screenshot
                        == s0.screenshot)
                    &&& (s0.screenshot.region_selection.active ==> s1.screenshot
                        == (ScreenshotManager {
                        region_selection: s1.screenshot.region_selection,
                        ..s0.screenshot
                    }) && s1.screenshot.region_selection.active
                        && s1.screenshot.region_selection.start == s0.screenshot.region_selection.start)
                    &&& s1.lock_screen@ == (LockView {
                        last_activity: s1.lock_screen@.last_activity,
                        ..s0.lock_screen@
                    })
                    &&& s1.power_menu == s0.power_menu
                    &&& s1.current_osd == s0.current_osd
                    &&& s1.modifiers == s0.modifiers
                    &&& s1.ui.show_launcher == s0.ui.show_launcher
                    &&& s1.ui.show_tray_popup == s0.ui.show_tray_popup
                    &&& s1.ui.clock_text == s0.ui.clock_text
                    &&& s1.ui.screen_size == s0.ui.screen_size
                    &&& s1.ui.tray_icons == s0.ui.tray_icons
                    &&& (s0.wm.interaction is Idle ==> s1.wm == s0.wm
                        && acts.len() == 0)
                    &&& (s0.wm.interaction matches Interaction::Dragging {
                        id,
                        start_pointer,
                        start_window_pos,
                    } ==> acts.len() == 0 && s1.wm.windows == s0.wm.windows
                        && s1.wm.interaction == s0.wm.interaction && ({
                        let pos = spec_win_position(s0.wm.windows@, id);
                        let sw = if s0.ui.screen_size.0 <= MAX_COORD {
                            s0.ui.screen_size.0 as int
                        } else {
                            MAX_COORD as int
                        };
                        let sh = if s0.ui.screen_size.1 <= MAX_COORD {
                            s0.ui.screen_size.1 as int
                        } else {
                            MAX_COORD as int
                        };
                        if pos >= 0 {
                            let w = s0.wm.windows@[pos];
                            let p = spec_drag_pos(
                                (start_window_pos.0 as int, start_window_pos.1 as int),
                                (start_pointer.0 as int, start_pointer.1 as int),
                                (spec_clamp_coord(x as int), spec_clamp_coord(y as int)),
                                w.width as int,
                                w.height as int,
                                sw,
                                sh,
                            );
                            s1.wm.space.spec_locate(id) == Some(
                                ((p.0 as i32), (p.1 as i32)),
                            ) && forall|q: u32|
                                q != id ==> s1.wm.space.spec_locate(q) == s0.wm.space.spec_locate(q)
                        } else {
                            s1.wm.space == s0.wm.space
                        }
                    }))
                    &&& (s0.wm.interaction matches Interaction::Resizing {
                        id,
                        edge,
                        start_pointer,
                        start_geometry,
                    } ==> ({
                        let pos = spec_win_position(s0.wm.windows@, id);
                        if pos >= 0 {
                            let g = crate::window::spec_resize_rect(
                                start_geometry,
                                edge,
                                spec_clamp_coord(x as int) - start_pointer.0,
                                spec_clamp_coord(y as int) - start_pointer.1,
                            );
                            &&& s1.wm.windows@ == s0.wm.windows@.update(
                                pos,
                                ManagedWindow {
                                    width: g.w,
                                    height: g.h,
                                    ..s0.wm.windows@[pos]
                                },
                            )
                            &&& s1.wm.space.spec_locate(id) == Some((g.x, g.y))
                            &&& acts == seq![
                                ShellAction::ConfigureSize { id, width: g.w, height: g.h },
                            ]
                        } else {
                            &&& s1.wm.windows@ == s0.wm.windows@
                            &&& s1.wm.space == s0.wm.space
                            &&& acts.len() == 0
                        }
                    }))
                },
                InputEvent::PointerButton { pressed } => {
                    &&& s1.modifiers == s0.modifiers
                    &&& s1.pointer_pos == s0.pointer_pos
                    &&& s1.lock_screen@ == (LockView {
                        last_activity: s1.lock_screen@.last_activity,
                        ..s0.lock_screen@
                    })
                    &&& s1.power_menu == s0.power_menu
                    &&& s1.current_osd == s0.current_osd
                    &&& (s0.screenshot.region_selection.active ==> s1.wm == s0.wm && s1.ui == s0.ui && acts.len() == 0
                        && (pressed ==> s1.screenshot == s0.screenshot
                            && s1.notifications == s0.notifications)
                        && (!pressed ==> !s1.screenshot.region_selection.active))
                    &&& (!s0.screenshot.region_selection.active ==> s1.screenshot == s0.screenshot && s1.notifications == s0.notifications && (!pressed ==> s1.wm.interaction is Idle
                        && s1.wm.windows == s0.wm.windows
                        && s1.ui == s0.ui && acts.len() == 0) && (pressed
                        ==> exists|rr: Option<String>|
                        {
                            &&& #[trigger] spec_click_outcome(
                                s0.ui,
                                s1.ui,
                                s0.pointer_pos.0,
                                s0.pointer_pos.1,
                                rr,
                            )
                            &&& (rr matches Some(app) ==> s1.wm == s0.wm
                                && acts.len() == 1
                                && (acts[0] matches ShellAction::LaunchApp(a) && a@ == app@))
                            &&& (rr is None ==> spec_wm_click_rel(
                                s0.wm,
                                s1.wm,
                                s0.pointer_pos.0,
                                s0.pointer_pos.1,
                                (if s0.ui.screen_size.0 <= MAX_COORD {
                                    s0.ui.screen_size.0 as int
                                } else {
                                    MAX_COORD as int
                                }),
                                (if s0.ui.screen_size.1 <= MAX_COORD {
                                    s0.ui.screen_size.1 as int
                                } else {
                                    MAX_COORD as int
                                }),
                                acts,
                            ))
                        }))
                },
                InputEvent::Keyboard { code, pressed } => {
                    &&& s1.modifiers == spec_update_modifiers(
                        s0.modifiers, code, pressed,
                    )
                    &&& acts.len() >= 1
                    &&& acts[0] == (ShellAction::ForwardKey { code, pressed })
                    &&& s1.pointer_pos == s0.pointer_pos
                    &&& s1.current_osd == s0.current_osd
                    &&& s1.ui.clock_text == s0.ui.clock_text
                    &&& s1.ui.pointer_pos == s0.ui.pointer_pos
                    &&& s1.ui.screen_size == s0.ui.screen_size
                    &&& s1.ui.tray_icons == s0.ui.tray_icons
                    &&& (code == 38 && pressed && s0.modifiers.super_key
                        ==> s1.lock_screen@ == spec_lock(
                        (LockView {
                            last_activity: s1.lock_screen@.last_activity,
                            ..s0.lock_screen@
                        }),
                        s1.lock_screen@.locked_at->0,
                    ))
                    &&& (!(code == 38 && pressed && s0.modifiers.super_key)
                        ==> s1.lock_screen@ == (LockView {
                        last_activity: s1.lock_screen@.last_activity,
                        ..s0.lock_screen@
                    }))
                    &&& (code == 38 && pressed && s0.modifiers.super_key
                        ==> s1.lock_screen@.state == LockState::Locked
                        && spec_notified(
                        s0.notifications,
                        s1.notifications,
                        "System"@,
                        "Screen locked"@,
                        "Press any key to unlock"@,
                    ))
                },
            })
}

/// The shell after routing a whole batch of events, one after the other:
/// `chain` lists the shell states the routing passes through (`chain[0]`
/// before the first event, `chain[k + 1]` after the `k`-th), each step
/// moving by `spec_input_rel` on its event, and `acts` is the
/// concatenation of every step's actions in order.
pub open spec fn spec_routed_chain(
    s0: Shell,
    events: Seq<InputEvent>,
    chain: Seq<Shell>,
    parts: Seq<Seq<ShellAction>>,
    acts: Seq<ShellAction>,
) -> bool {
    &&& chain.len() == events.len() + 1
    &&& parts.len() == events.len()
    &&& chain[0] == s0
    &&& (forall|k: int|
        0 <= k < events.len() ==> #[trigger] spec_input_rel(
            chain[k], chain[k + 1], events[k], parts[k],
        ))
    &&& acts == parts.flatten()
}

/// The timer steps that close a tick, all judged at one clock reading
/// `now`: the idle-lock poll locks the screen when it says so; the
/// displayed clock may advance (and nothing else of the chrome moves);
/// expired notifications move to the history, but only while the screen
/// is unlocked after the poll; and an expired on-screen display is
/// dropped. Windows, power menu, screenshot state, modifiers and the
/// pointer stay put.
pub open spec fn spec_tick_epilogue(s0: Shell, s1: Shell, now: u64) -> bool {
    let fired = crate::lock_screen::spec_should_idle_lock(s0.lock_screen@, now);
    &&& s1.lock_screen@ == (if fired {
        spec_lock(s0.lock_screen@, now)
    } else {
        s0.lock_screen@
    })
    &&& s1.wm == s0.wm
    &&& s1.power_menu == s0.power_menu
    &&& s1.screenshot == s0.screenshot
    &&& s1.modifiers == s0.modifiers
    &&& s1.pointer_pos == s0.pointer_pos
    &&& s1.ui.show_launcher == s0.ui.show_launcher
    &&& s1.ui.show_tray_popup == s0.ui.show_tray_popup
    &&& s1.ui.pointer_pos == s0.ui.pointer_pos
    &&& s1.ui.screen_size == s0.ui.screen_size
    &&& s1.ui.tray_icons == s0.ui.tray_icons
    &&& (if !fired && s0.lock_screen@.state == LockState::Unlocked {
        &&& s1.notifications.spec_next_id() == s0.notifications.spec_next_id()
        &&& s1.notifications.active() == crate::notifications::spec_unexpired(
            s0.notifications.active(), now,
        )
        &&& s1.notifications.hist() == crate::notifications::spec_flush_to_history(
            s0.notifications.hist(),
            crate::notifications::spec_expired_of(s0.notifications.active(), now),
            crate::notifications::MAX_HISTORY as int,
        )
    } else {
        s1.notifications == s0.notifications
    })
    &&& (if s0.current_osd matches Some(o) && spec_osd_expired(o, now) {
        s1.current_osd is None
    } else {
        s1.current_osd == s0.current_osd
    })
}

/// Holds when `n1` is `n0` after enqueueing one fresh notification with
/// the given texts under the next id, the queues moving as `notify` moves
/// them.
pub open spec fn spec_notified(
    n0: NotificationDaemon, n1: NotificationDaemon, app: Seq<char>, summary: Seq<char>,
    body: Seq<char>,
) -> bool {
    &&& n1.spec_next_id() == n0.spec_next_id() + 1
    &&& spec_fresh_like(n1.active().last(), n0.spec_next_id(), app, summary, body)
    &&& if n0.active().len() < MAX_VISIBLE {
        &&& n1.active().len() == n0.active().len() + 1
        &&& n1.active() == n0.active().push(n1.active().last())
        &&& n1.active().drop_last() == n0.active()
        &&& n1.hist() == n0.hist()
    } else {
        &&& n1.active().len() == MAX_VISIBLE
        &&& n1.active() == n0.active().skip(1).push(n1.active().last())
        &&& n1.active().drop_last() == n0.active().skip(1)
        &&& n1.hist() == crate::notifications::spec_add_to_history(
            n0.hist(), n0.active()[0], crate::notifications::MAX_HISTORY as int,
        )
    }
}

impl Shell {
    /// Dispatch one keyboard event against the fixed keybinding table:
    /// a bare super release toggles the launcher and hides the power menu;
    /// super-L locks and notifies; print-screen captures per the held
    /// modifiers; escape cancels the region selection, then the power
    /// menu, then the launcher; tab focuses the next window in stacking
    /// order; super-Q asks the focused window to close; super-E and
    /// super-T launch the file manager and the terminal; F11 toggles
    /// maximize of the focused window; ctrl-alt-delete toggles the power
    /// menu. Anything else does nothing.
    pub fn handle_shell_keybindings(&mut self, code: u32, pressed: bool, released: bool) -> (acts:
        Vec<ShellAction>)
        requires
            old(self).wf(),
            old(self).notifications.spec_next_id() < u32::MAX,
        ensures
            final(self).wf(),
            final(self).modifiers == old(self).modifiers,
            final(self).pointer_pos == old(self).pointer_pos,
            final(self).current_osd == old(self).current_osd,
            final(self).ui.clock_text == old(self).ui.clock_text,
            final(self).ui.pointer_pos == old(self).ui.pointer_pos,
            final(self).ui.screen_size == old(self).ui.screen_size,
            final(self).ui.tray_icons == old(self).ui.tray_icons,
            final(self).notifications.spec_next_id() <= old(self).notifications.spec_next_id()
                + 1,
            ({
                let m = old(self).modifiers;
                let super_toggle = (code == 125 || code == 126) && released && !m.shift
                    && !m.ctrl && !m.alt;
                let lock_combo = code == 38 && pressed && m.super_key;
                let prtsc = code == 99 && pressed;
                let esc = code == 1 && released;
                let tab = code == 15 && pressed && old(self).wm.windows@.len() > 0;
                let close_combo = code == 16 && pressed && m.super_key;
                let files_combo = code == 18 && pressed && m.super_key;
                let term_combo = code == 20 && pressed && m.super_key;
                let f11 = code == 87 && pressed;
                let power_combo = code == 111 && pressed && m.ctrl && m.alt;
                &&& (!(lock_combo || prtsc) ==> final(self).notifications == old(self).notifications)
                &&& (!lock_combo ==> final(self).lock_screen == old(self).lock_screen)
                &&& (!(super_toggle || esc || power_combo) ==> final(self).ui.show_launcher
                    == old(self).ui.show_launcher && final(self).ui.show_tray_popup == old(self).ui.show_tray_popup)
                &&& (!(super_toggle || esc || power_combo) ==> final(self).power_menu == old(self).power_menu)
                &&& (!(prtsc || esc) ==> final(self).screenshot == old(self).screenshot)
                &&& (!(tab || f11) ==> final(self).wm == old(self).wm)
                &&& (super_toggle ==> final(self).ui.show_launcher == !old(self).ui.show_launcher
                    && final(self).ui.show_tray_popup is None
                    && !final(self).power_menu.visible
                    && final(self).power_menu.selected == old(self).power_menu.selected
                    && final(self).power_menu.actions == old(self).power_menu.actions
                    && acts@.len() == 0)
                &&& (lock_combo ==> (exists|now: u64|
                    final(self).lock_screen@ == spec_lock(old(self).lock_screen@, now))
                    && spec_notified(
                    old(self).notifications,
                    final(self).notifications,
                    "System"@,
                    "Screen locked"@,
                    "Press any key to unlock"@,
                ) && acts@.len() == 0)
                &&& (prtsc && m.shift ==> final(self).screenshot.region_selection.active
                    && final(self).screenshot.region_selection.start == Some(
                    old(self).pointer_pos,
                ) && final(self).screenshot.region_selection.end is None
                    && spec_notified(
                    old(self).notifications,
                    final(self).notifications,
                    "Screenshot"@,
                    "Select region"@,
                    "Click and drag to select area"@,
                ) && acts@.len() == 0)
                &&& (prtsc && !m.shift && m.alt ==> final(self).screenshot == old(self).screenshot
                    && spec_notified(
                    old(self).notifications,
                    final(self).notifications,
                    "Screenshot"@,
                    "Window captured"@,
                    "Saved to Pictures/Screenshots"@,
                ) && acts@.len() == 0)
                &&& (prtsc && !m.shift && !m.alt ==> final(self).screenshot == old(self).screenshot && spec_notified(
                    old(self).notifications,
                    final(self).notifications,
                    "Screenshot"@,
                    "Full screen captured"@,
                    "Saved to Pictures/Screenshots"@,
                ) && acts@.len() == 0)
                &&& (esc ==> acts@.len() == 0 && (if old(self).screenshot.region_selection.active {
                    &&& !final(self).screenshot.region_selection.active
                    &&& final(self).screenshot.region_selection.start is None
                    &&& final(self).screenshot.region_selection.end is None
                    &&& final(self).power_menu == old(self).power_menu
                    &&& final(self).ui.show_launcher == old(self).ui.show_launcher
                    &&& final(self).ui.show_tray_popup == old(self).ui.show_tray_popup
                } else if old(self).power_menu.visible {
                    &&& !final(self).power_menu.visible
                    &&& final(self).power_menu.selected == old(self).power_menu.selected
                    &&& final(self).power_menu.actions == old(self).power_menu.actions
                    &&& final(self).screenshot == old(self).screenshot
                    &&& final(self).ui.show_launcher == old(self).ui.show_launcher
                    &&& final(self).ui.show_tray_popup == old(self).ui.show_tray_popup
                } else {
                    &&& !final(self).ui.show_launcher
                    &&& final(self).ui.show_tray_popup == old(self).ui.show_tray_popup
                    &&& final(self).power_menu == old(self).power_menu
                    &&& final(self).screenshot == old(self).screenshot
                }))
                &&& (tab ==> acts@.len() == 0 && ({
                    let ws = old(self).wm.windows@;
                    let next: int = match old(self).wm.focused {
                        Some(f) => {
                            let pos = spec_win_position(ws, f);
                            if pos >= 0 {
                                (pos + 1) % (ws.len() as int)
                            } else {
                                0
                            }
                        },
                        None => 0,
                    };
                    &&& final(self).wm.windows@ == ws.remove(next).push(ws[next])
                    &&& final(self).wm.focused == Some(ws[next].id)
                    &&& final(self).wm.space == old(self).wm.space
                    &&& final(self).wm.interaction == old(self).wm.interaction
                }))
                &&& (close_combo ==> final(self).wm == old(self).wm && (match old(self).wm.focused {
                    Some(f) => {
                        if spec_win_position(old(self).wm.windows@, f) >= 0 {
                            acts@ == seq![ShellAction::RequestClose(f)]
                        } else {
                            acts@.len() == 0
                        }
                    },
                    None => acts@.len() == 0,
                }))
                &&& (files_combo ==> acts@.len() == 1 && (acts@[0] matches
                    ShellAction::LaunchApp(a) && a@ == "Files"@))
                &&& (term_combo ==> acts@.len() == 1 && (acts@[0] matches
                    ShellAction::LaunchApp(a) && a@ == "Terminal"@))
                &&& (f11 ==> (match old(self).wm.focused {
                    Some(f) => spec_toggle_max_rel(
                        old(self).wm,
                        final(self).wm,
                        f,
                        (if old(self).ui.screen_size.0 <= MAX_COORD {
                            old(self).ui.screen_size.0 as int
                        } else {
                            MAX_COORD as int
                        }),
                        (if old(self).ui.screen_size.1 <= MAX_COORD {
                            old(self).ui.screen_size.1 as int
                        } else {
                            MAX_COORD as int
                        }),
                        acts@,
                    ),
                    None => final(self).wm == old(self).wm && acts@.len() == 0,
                }))
                &&& (power_combo ==> final(self).power_menu.visible == !old(self).power_menu.visible && final(self).power_menu.selected == 0
                    && final(self).power_menu.actions == old(self).power_menu.actions
                    && !final(self).ui.show_launcher
                    && final(self).ui.show_tray_popup == old(self).ui.show_tray_popup
                    && acts@.len() == 0)
                &&& (!(super_toggle || lock_combo || prtsc || esc || tab || close_combo
                    || files_combo || term_combo || f11 || power_combo) ==> *final(self) == *old(self) && acts@.len() == 0)
            }),
    {
        let mut acts: Vec<ShellAction> = Vec::new();
        let m = self.modifiers;
        if (code == 125 || code == 126) && released {
            if !m.shift && !m.ctrl && !m.alt {
                self.ui.update(Message::ToggleLauncher);
                self.power_menu.visible = false;
                return acts;
            }
            return acts;
        }
        if code == 38 && pressed && m.super_key {
            self.lock_screen.lock();
            self.notifications.notify("System", "Screen locked", "Press any key to unlock");
            return acts;
        }
        if code == 99 && pressed {
            let action = ScreenshotAction::from_modifiers(m.shift, m.alt);
            match action {
                ScreenshotAction::FullScreen => {
                    self.notifications.notify(
                        "Screenshot",
                        "Full screen captured",
                        "Saved to Pictures/Screenshots",
                    );
                },
                ScreenshotAction::ActiveWindow => {
                    self.notifications.notify(
                        "Screenshot",
                        "Window captured",
                        "Saved to Pictures/Screenshots",
                    );
                },
                ScreenshotAction::SelectRegion => {
                    self.screenshot.region_selection.start_selection(
                        self.pointer_pos.0,
                        self.pointer_pos.1,
                    );
                    self.notifications.notify(
                        "Screenshot",
                        "Select region",
                        "Click and drag to select area",
                    );
                },
            }
            return acts;
        }
        if code == 1 && released {
            if self.screenshot.region_selection.active {
                self.screenshot.region_selection.cancel();
            } else if self.power_menu.visible {
                self.power_menu.visible = false;
            } else if self.ui.show_launcher {
                self.ui.show_launcher = false;
            }
            return acts;
        }
        if code == 15 && pressed && self.wm.windows.len() > 0 {
            let len = self.wm.windows.len();
            let next: usize = match self.wm.focused {
                Some(f) => {
                    match self.wm.find_window(f) {
                        Some(pos) => (pos + 1) % len,
                        None => 0,
                    }
                },
                None => 0,
            };
            let target = self.wm.windows[next].id;
            let ghost w0 = self.wm;
            proof {
                crate::window::lemma_win_position_found(w0.windows@, w0.windows@[next as int].id, next as int);
            }
            self.wm.focus_window(target);
            return acts;
        }
        if code == 16 && pressed && m.super_key {
            if let Some(f) = self.wm.focused {
                if self.wm.close_window(f) {
                    acts.push(ShellAction::RequestClose(f));
                }
            }
            return acts;
        }
        if code == 18 && pressed && m.super_key {
            acts.push(ShellAction::LaunchApp(String::from_str("Files")));
            return acts;
        }
        if code == 20 && pressed && m.super_key {
            acts.push(ShellAction::LaunchApp(String::from_str("Terminal")));
            return acts;
        }
        if code == 87 && pressed {
            if let Some(f) = self.wm.focused {
                let (sw, sh) = self.clamped_screen();
                let req = self.wm.toggle_maximize(f, sw, sh);
                if let Some((rid, w, hgt)) = req {
                    acts.push(ShellAction::ConfigureSize { id: rid, width: w, height: hgt });
                }
            }
            return acts;
        }
        if code == 111 && pressed && m.ctrl && m.alt {
            self.power_menu.toggle();
            self.ui.show_launcher = false;
            return acts;
        }
        acts
    }

    /// Route one keyboard event to the lock screen: escape clears,
    /// backspace deletes, enter submits the buffer, and a key that types a
    /// character on the standard map (with the held shift) enters it.
    /// Releases do nothing.
    pub fn handle_lock_screen_input(&mut self, code: u32, pressed: bool)
        requires
            old(self).wf(),
        ensures
            final(self).wf(),
            final(self).wm == old(self).wm,
            final(self).ui == old(self).ui,
            final(self).notifications == old(self).notifications,
            final(self).power_menu == old(self).power_menu,
            final(self).screenshot == old(self).screenshot,
            final(self).current_osd == old(self).current_osd,
            final(self).modifiers == old(self).modifiers,
            final(self).pointer_pos == old(self).pointer_pos,
            spec_lock_input_rel(
                old(self).lock_screen@,
                final(self).lock_screen@,
                code,
                pressed,
                old(self).modifiers.shift,
            ),
    {
        if !pressed {
            return;
        }
        match code {
            1 => self.lock_screen.input_escape(),
            14 => self.lock_screen.input_backspace(),
            28 => self.lock_screen.input_enter(),
            _ => {
                if let Some(c) = keycode_to_char(code, self.modifiers.shift) {
                    self.lock_screen.input_char(c);
                }
            },
        }
    }

    /// Route one raw input event. Every event first registers activity on
    /// the lock screen; while the screen is not unlocked the event goes
    /// exclusively to lock-screen handling and nothing else runs. Pointer
    /// motion tracks the pointer, feeds an active region selection, and
    /// feeds an in-flight drag or resize; button events finish an active
    /// region selection on release or go to click dispatch; keyboard
    /// events update the modifiers, are always forwarded to the focused
    /// client, and are matched against the keybinding table.
    pub fn handle_input_event(&mut self, event: InputEvent) -> (acts: Vec<ShellAction>)
        requires
            old(self).wf(),
            old(self).notifications.spec_next_id() < u32::MAX,
        ensures
            final(self).wf(),
            spec_input_rel(*old(self), *final(self), event, acts@),
    {
        self.lock_screen.activity();
        let locked = !matches!(self.lock_screen.state, LockState::Unlocked);
        if locked {
            let acts: Vec<ShellAction> = Vec::new();
            if let InputEvent::Keyboard { code, pressed } = event {
                self.handle_lock_screen_input(code, pressed);
            }
            return acts;
        }
        match event {
            InputEvent::PointerMotion { x, y } => {
                let mut acts: Vec<ShellAction> = Vec::new();
                let cx = clamp_coord32(x);
                let cy = clamp_coord32(y);
                self.pointer_pos = (cx, cy);
                self.ui.update(Message::PointerMove(cx, cy));
                if self.screenshot.region_selection.active {
                    self.screenshot.region_selection.update(cx, cy);
                }
                let it = self.wm.interaction;
                if let Interaction::Dragging { id, start_pointer, start_window_pos } = it {
                    let (sw, sh) = self.clamped_screen();
                    self.wm.update_drag(cx, cy, sw, sh);
                } else if let Interaction::Resizing { id, edge, start_pointer, start_geometry } =
                    it {
                    let req = self.wm.update_resize(cx, cy);
                    if let Some((rid, w, h)) = req {
                        acts.push(ShellAction::ConfigureSize { id: rid, width: w, height: h });
                    }
                }
                acts
            },
            InputEvent::PointerButton { pressed } => {
                if self.screenshot.region_selection.active {
                    let acts: Vec<ShellAction> = Vec::new();
                    if !pressed {
                        let finished = self.screenshot.region_selection.finish();
                        if finished.is_some() {
                            self.notifications.notify(
                                "Screenshot",
                                "Region captured",
                                "Screenshot saved",
                            );
                        }
                    }
                    return acts;
                }
                let px = self.pointer_pos.0;
                let py = self.pointer_pos.1;
                self.handle_click(px, py, pressed)
            },
            InputEvent::Keyboard { code, pressed } => {
                let mut acts: Vec<ShellAction> = Vec::new();
                self.modifiers.update(code, pressed);
                acts.push(ShellAction::ForwardKey { code, pressed });
                let mut more = self.handle_shell_keybindings(code, pressed, !pressed);
                acts.append(&mut more);
                acts
            },
        }
    }

    /// One compositor tick over the drained input: route every event in
    /// order, then poll the idle lock against the clock and lock when it
    /// says so, advance the displayed clock, drop expired notifications
    /// (only while unlocked; they are suppressed while locked anyway), and
    /// drop the on-screen display once expired. The returned actions are
    /// exactly those of the routed events, in order; the timer steps close
    /// the tick at one clock reading.
    pub fn tick(&mut self, events: Vec<InputEvent>) -> (acts: Vec<ShellAction>)
        requires
            old(self).wf(),
            old(self).notifications.spec_next_id() as int + events@.len() <= u32::MAX,
        ensures
            final(self).wf(),
            final(self).notifications.spec_next_id() <= old(self).notifications.spec_next_id()
                as int + events@.len(),
            exists|chain: Seq<Shell>, parts: Seq<Seq<ShellAction>>, now: u64|
                #[trigger] spec_routed_chain(*old(self), events@, chain, parts, acts@)
                    && #[trigger] spec_tick_epilogue(
                    chain[events@.len() as int], *final(self), now,
                ),
    {
        let mut acts: Vec<ShellAction> = Vec::new();
        let n = events.len();
        let mut i: usize = 0;
        let ghost mut chain: Seq<Shell> = seq![*old(self)];
        let ghost mut parts: Seq<Seq<ShellAction>> = Seq::empty();
        proof {
            assert(parts.flatten() =~= Seq::<ShellAction>::empty());
        }
        while i < n
            invariant
                self.wf(),
                n == events@.len(),
                i <= n,
                self.notifications.spec_next_id() as int + (n - i) <= u32::MAX,
                self.notifications.spec_next_id() <= old(self).notifications.spec_next_id()
                    as int + i,
                chain.len() == i + 1,
                parts.len() == i as int,
                chain[0] == *old(self),
                chain[i as int] == *self,
                forall|k: int|
                    0 <= k < i ==> #[trigger] spec_input_rel(
                        chain[k], chain[k + 1], events@[k], parts[k],
                    ),
                acts@ == parts.flatten(),
            decreases n - i,
        {
            let ev = events[i];
            let ghost pre = *self;
            let mut more = self.handle_input_event(ev);
            let ghost more0 = more@;
            acts.append(&mut more);
            proof {
                let parts0 = parts;
                chain = chain.push(*self);
                parts = parts.push(more0);
                parts0.lemma_flatten_push(more0);
                assert(spec_input_rel(pre, *self, ev, more0));
                assert forall|k: int|
                    0 <= k < i + 1 implies #[trigger] spec_input_rel(
                    chain[k], chain[k + 1], events@[k], parts[k],
                ) by {
                    if k < i {
                        assert(chain[k] == chain.drop_last()[k]);
                        assert(chain[k + 1] == chain.drop_last()[k + 1]);
                        assert(parts[k] == parts0[k]);
                    }
                }
            }
            i = i + 1;
        }
        let ghost mid = *self;
        proof {
            assert(spec_routed_chain(*old(self), events@, chain, parts, acts@));
        }
        let now = sys::now_millis();
        if self.lock_screen.should_idle_lock_at(now) {
            self.lock_screen.lock_at(now);
        }
        if let Some(t) = sys::format_local_now("%H:%M") {
            self.ui.update(Message::Tick(t));
        }
        let unlocked = matches!(self.lock_screen.state, LockState::Unlocked);
        if unlocked {
            self.notifications.cleanup_at(now);
        }
        let osd_expired = match &self.current_osd {
            Some(o) => o.is_expired_at(now),
            None => false,
        };
        if osd_expired {
            self.current_osd = None;
        }
        proof {
            assert(spec_routed_chain(*old(self), events@, chain, parts, acts@));
            assert(spec_tick_epilogue(mid, *self, now));
            assert(chain[events@.len() as int] == mid);
        }
        acts
    }

    /// The frame plan at instant `now`: exactly the layers of
    /// `spec_render_plan`, bottom to top.
    pub fn render_plan(&self, now: u64) -> (r: Vec<RenderLayer>)
        ensures
            r@ == spec_render_plan(*self, now),
    {
        let mut r: Vec<RenderLayer> = Vec::new();
        let n = self.wm.windows.len();
        let mut i: usize = 0;
        while i < n
            invariant
                n == self.wm.windows@.len(),
                i <= n,
                r@ == spec_client_layers(self.wm.windows@, i as int),
            decreases n - i,
        {
            if !self.wm.windows[i].minimized {
                r.push(RenderLayer::Client { id: self.wm.windows[i].id });
            }
            proof {
                assert(r@ =~= spec_client_layers(self.wm.windows@, i as int + 1));
            }
            i = i + 1;
        }
        let ghost clients = r@;
        let mut i: usize = 0;
        while i < n
            invariant
                n == self.wm.windows@.len(),
                i <= n,
                r@ == clients + spec_decoration_layers(self.wm.windows@, i as int),
            decreases n - i,
        {
            if !self.wm.windows[i].minimized {
                r.push(RenderLayer::Decoration { id: self.wm.windows[i].id });
            }
            proof {
                assert(r@ =~= clients + spec_decoration_layers(self.wm.windows@, i as int + 1));
            }
            i = i + 1;
        }
        r.push(RenderLayer::Panel);
        let unlocked = matches!(self.lock_screen.state, LockState::Unlocked);
        if unlocked {
            r.push(RenderLayer::Notifications);
        }
        let osd_live = match &self.current_osd {
            Some(o) => !o.is_expired_at(now),
            None => false,
        };
        if osd_live {
            r.push(RenderLayer::Osd);
        }
        if self.screenshot.region_selection.active {
            r.push(RenderLayer::RegionOverlay);
        }
        if self.power_menu.visible {
            r.push(RenderLayer::PowerMenu);
        }
        if !unlocked {
            r.push(RenderLayer::LockScreen);
        }
        proof {
            assert(r@ =~= spec_render_plan(*self, now));
        }
        r
    }
}

/// A clamp of one coordinate into the stored range.
fn clamp_coord32(n: i32) -> (r: i32)
    ensures
        r as int == spec_clamp_coord(n as int),
{
    if n < -MAX_COORD {
        -MAX_COORD
    } else if n > MAX_COORD {
        MAX_COORD
    } else {
        n
    }
}

/// A hit found by the top-down scan belongs to a tracked window: its id
/// sits at a valid position, and the hit is never `Outside`.
proof fn lemma_window_at_found(
    ws: Seq<ManagedWindow>, sp: Seq<(u32, i32, i32)>, x: int, y: int, k: int,
)
    requires
        spec_window_at_in(ws, sp, x, y, k) is Some,
        0 <= k <= ws.len(),
        forall|i: int, j: int| 0 <= i < j < ws.len() ==> (#[trigger] ws[i]).id != (#[trigger] ws[j]).id,
    ensures
        ({
            let (id, hit) = spec_window_at_in(ws, sp, x, y, k)->0;
            &&& 0 <= spec_win_position(ws, id) < ws.len()
            &&& ws[spec_win_position(ws, id)].id == id
            &&& hit != HitResult::Outside
        }),
    decreases k,
{
    if k > 0 {
        let w = ws[k - 1];
        let loc = crate::window::spec_locate_in(sp, w.id);
        let l = loc->0;
        if !(loc is None || w.minimized) && crate::window::spec_hit_test(
            w.width as int,
            w.height as int,
            x,
            y,
            l.0 as int,
            l.1 as int,
        ) != HitResult::Outside {
            assert forall|j: int| 0 <= j < k - 1 implies ws[j].id != w.id by {}
            crate::window::lemma_win_position_found(ws, w.id, k - 1);
        } else {
            lemma_window_at_found(ws, sp, x, y, k - 1);
        }
    }
}

/// In a list of windows with distinct ids, the window raised from
/// position `pos` is the last and only occurrence of its id.
proof fn lemma_raised_position(s: Seq<ManagedWindow>, pos: int)
    requires
        forall|i: int, j: int| 0 <= i < j < s.len() ==> (#[trigger] s[i]).id != (#[trigger] s[j]).id,
        0 <= pos < s.len(),
    ensures
        spec_win_position(s.remove(pos).push(s[pos]), s[pos].id) == s.len() - 1,
{
    let t = s.remove(pos).push(s[pos]);
    assert forall|j: int| 0 <= j < t.len() - 1 implies t[j].id != s[pos].id by {
        if j < pos {
            assert(t[j] == s[j]);
        } else {
            assert(t[j] == s[j + 1]);
        }
    }
    crate::window::lemma_win_position_found(t, s[pos].id, t.len() as int - 1);
}

} // verus!