//! The shell's own chrome: the panel clock, the app launcher, and the
//! system tray with its popup. Pure state; the renderer draws it and the
//! click dispatcher consults it before any window hit-testing runs.

use vstd::prelude::*;
use vstd::string::StringExecFns;

verus! {

/// What a tray icon shows.
#[derive(Debug, Clone)]
pub enum NetworkStatus {
    Disconnected,
    Wifi(u8),
    Ethernet,
    Airplane,
}

/// The kind of a tray icon, with its displayed datum.
#[derive(Debug, Clone)]
pub enum TrayIconType {
    Network(NetworkStatus),
    Volume(u8),
    Battery(u8, bool),
    Notification(u32),
    Generic,
}

/// One system-tray icon.
#[derive(Debug, Clone)]
pub struct TrayIcon {
    pub id: String,
    pub name: String,
    pub icon_type: TrayIconType,
    pub tooltip: String,
}

/// The chrome's state: the displayed clock text, whether the launcher is
/// open, the last pointer position, the screen size, the tray icons, and
/// which tray popup (by icon id) is expanded.
pub struct ShellUI {
    pub clock_text: String,
    pub show_launcher: bool,
    pub pointer_pos: (i32, i32),
    pub screen_size: (u32, u32),
    pub tray_icons: Vec<TrayIcon>,
    pub show_tray_popup: Option<String>,
}

/// A chrome update.
#[derive(Debug, Clone)]
pub enum Message {
    Tick(String),
    ToggleLauncher,
    LaunchApp(String),
    PointerMove(i32, i32),
    Click(i32, i32),
    Resize(u32, u32),
    TrayIconClick(String),
    UpdateTrayIcon(TrayIcon),
    CloseTrayPopup,
}

/// Whether (x, y) presses the launcher button at the panel's left end.
pub open spec fn spec_koompi_button_hit(x: int, y: int) -> bool {
    y <= 40 && 10 <= x <= 90
}

/// Whether (x, y) lands on tray icon `i` on a screen `sw` wide: the tray
/// row starts 180 units before the right edge, each icon 28 wide.
pub open spec fn spec_tray_icon_hit(sw: int, x: int, y: int, i: int) -> bool {
    let icon_x = sw - 180 + i * 28;
    y <= 40 && icon_x <= x <= icon_x + 28
}

/// The first of `n` tray icons that (x, y) lands on, or -1.
pub open spec fn spec_tray_index(sw: int, x: int, y: int, n: int) -> int
    decreases n,
{
    if n <= 0 {
        -1
    } else {
        let r = spec_tray_index(sw, x, y, n - 1);
        if r >= 0 {
            r
        } else if spec_tray_icon_hit(sw, x, y, n - 1) {
            n - 1
        } else {
            -1
        }
    }
}

/// The first icon hit is what the scan finds, whatever comes after it.
proof fn lemma_tray_index_found(sw: int, x: int, y: int, i: int, n: int)
    requires
        0 <= i < n,
        spec_tray_index(sw, x, y, i) == -1,
        spec_tray_icon_hit(sw, x, y, i),
    ensures
        spec_tray_index(sw, x, y, n) == i,
    decreases n,
{
    if n - 1 > i {
        lemma_tray_index_found(sw, x, y, i, n - 1);
    }
}

/// The left edge of the launcher panel on a screen `sw` wide.
pub open spec fn spec_launcher_x(sw: int) -> int {
    (sw - 300) / 2
}

/// The launcher app row that (x, y) presses, or -1: four rows of buttons,
/// each 45 tall with 55 spacing, inset 20 from the launcher's sides.
pub open spec fn spec_launcher_button(sw: int, x: int, y: int) -> int {
    let lx = spec_launcher_x(sw);
    if x < lx + 20 || x > lx + 280 {
        -1
    } else if 100 <= y <= 145 {
        0
    } else if 155 <= y <= 200 {
        1
    } else if 210 <= y <= 255 {
        2
    } else if 265 <= y <= 310 {
        3
    } else {
        -1
    }
}

/// Whether (x, y) lies outside the open launcher panel entirely.
pub open spec fn spec_outside_launcher(sw: int, x: int, y: int) -> bool {
    let lx = spec_launcher_x(sw);
    x < lx || x > lx + 300 || y < 50 || y > 330
}

/// The name of launcher app row `i`.
pub open spec fn spec_app_name(i: int) -> Seq<char> {
    if i == 0 {
        "Terminal"@
    } else if i == 1 {
        "Browser"@
    } else if i == 2 {
        "Files"@
    } else {
        "Settings"@
    }
}

/// The command that launches a named app, if the shell knows it.
pub open spec fn spec_app_command(app: Seq<char>) -> Option<Seq<char>> {
    if app == "Terminal"@ {
        Some("foot"@)
    } else if app == "Browser"@ {
        Some("firefox"@)
    } else if app == "Files"@ {
        Some("nautilus"@)
    } else if app == "Settings"@ {
        Some("gnome-control-center"@)
    } else {
        None
    }
}

/// The command that launches a named app, if the shell knows it; the
/// caller spawns it.
pub fn app_command(app: &str) -> (r: Option<&'static str>)
    ensures
        r matches Some(c) ==> spec_app_command(app@) == Some(c@),
        r is None ==> spec_app_command(app@) is None,
{
    proof {
        reveal_strlit("Terminal");
        reveal_strlit("Browser");
        reveal_strlit("Files");
        reveal_strlit("Settings");
    }
    if str_eq(app, "Terminal") {
        Some("foot")
    } else if str_eq(app, "Browser") {
        Some("firefox")
    } else if str_eq(app, "Files") {
        Some("nautilus")
    } else if str_eq(app, "Settings") {
        Some("gnome-control-center")
    } else {
        None
    }
}

/// Character-wise equality of two string slices.
fn str_eq(a: &str, b: &str) -> (r: bool)
    ensures
        r == (a@ == b@),
{
    let sa = String::from_str(a);
    let sb = String::from_str(b);
    sa == sb
}

impl ShellUI {
    /// Fresh chrome: launcher closed, no popup, a 1280 by 800 screen, and
    /// the default tray of network, volume, battery and notification
    /// icons.
    pub fn new() -> (r: Self)
        ensures
            r.clock_text@ == Seq::<char>::empty(),
            !r.show_launcher,
            r.pointer_pos == (0i32, 0i32),
            r.screen_size == (1280u32, 800u32),
            r.tray_icons@.len() == 4,
            r.tray_icons@[0].id@ == "network"@,
            r.tray_icons@[1].id@ == "volume"@,
            r.tray_icons@[2].id@ == "battery"@,
            r.tray_icons@[3].id@ == "notifications"@,
            r.show_tray_popup is None,
    {
        let mut tray_icons: Vec<TrayIcon> = Vec::new();
        tray_icons.push(
            TrayIcon {
                id: String::from_str("network"),
                name: String::from_str("Network"),
                icon_type: TrayIconType::Network(NetworkStatus::Wifi(75)),
                tooltip: String::from_str("Connected to WiFi"),
            },
        );
        tray_icons.push(
            TrayIcon {
                id: String::from_str("volume"),
                name: String::from_str("Volume"),
                icon_type: TrayIconType::Volume(70),
                tooltip: String::from_str("Volume: 70%"),
            },
        );
        tray_icons.push(
            TrayIcon {
                id: String::from_str("battery"),
                name: String::from_str("Battery"),
                icon_type: TrayIconType::Battery(85, false),
                tooltip: String::from_str("Battery: 85%"),
            },
        );
        tray_icons.push(
            TrayIcon {
                id: String::from_str("notifications"),
                name: String::from_str("Notifications"),
                icon_type: TrayIconType::Notification(3),
                tooltip: String::from_str("3 notifications"),
            },
        );
        ShellUI {
            clock_text: String::new(),
            show_launcher: false,
            pointer_pos: (0, 0),
            screen_size: (1280, 800),
            tray_icons,
            show_tray_popup: None,
        }
    }

    /// Apply one chrome update; a click on a launcher app row hands the
    /// app's name back for the caller to spawn.
    pub fn update(&mut self, message: Message) -> (r: Option<String>)
        ensures
            final(self).tray_icons@.len() >= old(self).tray_icons@.len(),
            ({
                match message {
                    Message::Tick(now) => {
                        &&& final(self).clock_text == now
                        &&& final(self).show_launcher == old(self).show_launcher
                        &&& final(self).show_tray_popup == old(self).show_tray_popup
                        &&& final(self).pointer_pos == old(self).pointer_pos
                        &&& final(self).screen_size == old(self).screen_size
                        &&& final(self).tray_icons == old(self).tray_icons
                        &&& r is None
                    },
                    Message::ToggleLauncher => {
                        &&& final(self).show_launcher == !old(self).show_launcher
                        &&& final(self).show_tray_popup is None
                        &&& final(self).clock_text == old(self).clock_text
                        &&& final(self).pointer_pos == old(self).pointer_pos
                        &&& final(self).screen_size == old(self).screen_size
                        &&& final(self).tray_icons == old(self).tray_icons
                        &&& r is None
                    },
                    Message::PointerMove(x, y) => {
                        &&& final(self).pointer_pos == (x, y)
                        &&& final(self).show_launcher == old(self).show_launcher
                        &&& final(self).show_tray_popup == old(self).show_tray_popup
                        &&& final(self).clock_text == old(self).clock_text
                        &&& final(self).screen_size == old(self).screen_size
                        &&& final(self).tray_icons == old(self).tray_icons
                        &&& r is None
                    },
                    Message::Click(x, y) => spec_click_outcome(*old(self), *final(self), x, y, r),
                    Message::LaunchApp(app) => {
                        &&& !final(self).show_launcher
                        &&& r == Some(app)
                        &&& final(self).show_tray_popup == old(self).show_tray_popup
                        &&& final(self).clock_text == old(self).clock_text
                        &&& final(self).pointer_pos == old(self).pointer_pos
                        &&& final(self).screen_size == old(self).screen_size
                        &&& final(self).tray_icons == old(self).tray_icons
                    },
                    Message::Resize(w, h) => {
                        &&& final(self).screen_size == (w, h)
                        &&& final(self).show_launcher == old(self).show_launcher
                        &&& final(self).show_tray_popup == old(self).show_tray_popup
                        &&& final(self).clock_text == old(self).clock_text
                        &&& final(self).pointer_pos == old(self).pointer_pos
                        &&& final(self).tray_icons == old(self).tray_icons
                        &&& r is None
                    },
                    Message::TrayIconClick(id) => {
                        &&& (if old(self).show_tray_popup matches Some(p) && p@ == id@ {
                            final(self).show_tray_popup is None
                                && final(self).show_launcher == old(self).show_launcher
                        } else {
                            (final(self).show_tray_popup matches Some(q) && q@ == id@)
                                && !final(self).show_launcher
                        })
                        &&& final(self).clock_text == old(self).clock_text
                        &&& final(self).pointer_pos == old(self).pointer_pos
                        &&& final(self).screen_size == old(self).screen_size
                        &&& final(self).tray_icons == old(self).tray_icons
                        &&& r is None
                    },
                    Message::UpdateTrayIcon(_) => {
                        &&& final(self).show_launcher == old(self).show_launcher
                        &&& final(self).show_tray_popup == old(self).show_tray_popup
                        &&& final(self).clock_text == old(self).clock_text
                        &&& final(self).pointer_pos == old(self).pointer_pos
                        &&& final(self).screen_size == old(self).screen_size
                        &&& r is None
                    },
                    Message::CloseTrayPopup => {
                        &&& final(self).show_tray_popup is None
                        &&& final(self).show_launcher == old(self).show_launcher
                        &&& final(self).clock_text == old(self).clock_text
                        &&& final(self).pointer_pos == old(self).pointer_pos
                        &&& final(self).screen_size == old(self).screen_size
                        &&& final(self).tray_icons == old(self).tray_icons
                        &&& r is None
                    },
                }
            }),
    {
        match message {
            Message::Tick(now) => {
                self.clock_text = now;
                None
            },
            Message::ToggleLauncher => {
                self.show_launcher = !self.show_launcher;
                self.show_tray_popup = None;
                None
            },
            Message::PointerMove(x, y) => {
                self.pointer_pos = (x, y);
                None
            },
            Message::Click(x, y) => self.handle_click(x, y),
            Message::LaunchApp(app) => {
                self.show_launcher = false;
                Some(app)
            },
            Message::Resize(w, h) => {
                self.screen_size = (w, h);
                None
            },
            Message::TrayIconClick(id) => {
                let same = match &self.show_tray_popup {
                    Some(p) => string_eq(p, &id),
                    None => false,
                };
                if same {
                    self.show_tray_popup = None;
                } else {
                    self.show_tray_popup = Some(id);
                    self.show_launcher = false;
                }
                None
            },
            Message::UpdateTrayIcon(icon) => {
                self.upsert_tray_icon(icon);
                None
            },
            Message::CloseTrayPopup => {
                self.show_tray_popup = None;
                None
            },
        }
    }

    /// Replace the tray icon with the same id, or append a new one.
    fn upsert_tray_icon(&mut self, icon: TrayIcon)
        ensures
            final(self).tray_icons@.len() >= old(self).tray_icons@.len(),
            final(self).show_launcher == old(self).show_launcher,
            final(self).show_tray_popup == old(self).show_tray_popup,
            final(self).clock_text == old(self).clock_text,
            final(self).pointer_pos == old(self).pointer_pos,
            final(self).screen_size == old(self).screen_size,
    {
        let n = self.tray_icons.len();
        let mut i: usize = 0;
        while i < n
            invariant
                n == self.tray_icons@.len(),
                i <= n,
                *self == *old(self),
            decreases n - i,
        {
            let same = string_eq(&self.tray_icons[i].id, &icon.id);
            if same {
                self.tray_icons.set(i, icon);
                return;
            }
            i = i + 1;
        }
        self.tray_icons.push(icon);
    }

    /// Dispatch a click on the chrome: the launcher button toggles the
    /// launcher, a tray icon toggles its popup, an open launcher's app
    /// rows launch (returning the app name) and a click outside it closes
    /// it, and any leftover click closes the tray popup.
    fn handle_click(&mut self, x: i32, y: i32) -> (r: Option<String>)
        ensures
            spec_click_outcome(*old(self), *final(self), x, y, r),
    {
        let sw: i128 = self.screen_size.0 as i128;
        let xl: i128 = x as i128;
        let yl: i128 = y as i128;
        if yl <= 40 && xl >= 10 && xl <= 90 {
            self.show_launcher = !self.show_launcher;
            self.show_tray_popup = None;
            return None;
        }
        let n = self.tray_icons.len();
        let mut i: usize = 0;
        while i < n
            invariant
                n == self.tray_icons@.len(),
                i <= n,
                *self == *old(self),
                sw == old(self).screen_size.0 as int,
                xl == x as int,
                yl == y as int,
                !spec_koompi_button_hit(x as int, y as int),
                spec_tray_index(sw as int, x as int, y as int, i as int) == -1,
            decreases n - i,
        {
            let icon_x: i128 = sw - 180 + (i as i128) * 28;
            if yl <= 40 && xl >= icon_x && xl <= icon_x + 28 {
                proof {
                    lemma_tray_index_found(sw as int, x as int, y as int, i as int, n as int);
                }
                let id = self.tray_icons[i].id.clone();
                let same = match &self.show_tray_popup {
                    Some(p) => string_eq(p, &id),
                    None => false,
                };
                if same {
                    self.show_tray_popup = None;
                } else {
                    self.show_tray_popup = Some(id);
                    self.show_launcher = false;
                }
                return None;
            }
            i = i + 1;
        }
        if self.show_launcher {
            let d: i128 = sw - 300;
            let lx: i128 = if d >= 0 {
                d / 2
            } else {
                (d - 1) / 2
            };
            proof {
                assert(lx == spec_launcher_x(sw as int));
            }
            if xl >= lx + 20 && xl <= lx + 280 {
                if yl >= 100 && yl <= 145 {
                    self.show_launcher = false;
                    return Some(String::from_str("Terminal"));
                }
                if yl >= 155 && yl <= 200 {
                    self.show_launcher = false;
                    return Some(String::from_str("Browser"));
                }
                if yl >= 210 && yl <= 255 {
                    self.show_launcher = false;
                    return Some(String::from_str("Files"));
                }
                if yl >= 265 && yl <= 310 {
                    self.show_launcher = false;
                    return Some(String::from_str("Settings"));
                }
            }
            if xl < lx || xl > lx + 300 || yl < 50 || yl > 330 {
                self.show_launcher = false;
            }
        }
        if self.show_tray_popup.is_some() {
            self.show_tray_popup = None;
        }
        None
    }
}

/// Character-wise equality of two strings.
fn string_eq(a: &String, b: &String) -> (r: bool)
    ensures
        r == (a@ == b@),
{
    *a == *b
}

/// How a chrome click moves the state: the relation between the chrome
/// before (`s0`) and after (`s1`) a click at (x, y), and what the click
/// returns. The launcher button wins, then the tray icons in order, then
/// an open launcher's app rows, then closing an open launcher from
/// outside, then closing the tray popup.
pub open spec fn spec_click_outcome(
    s0: ShellUI, s1: ShellUI, x: i32, y: i32, r: Option<String>,
) -> bool {
    let sw = s0.screen_size.0 as int;
    let tray = spec_tray_index(sw, x as int, y as int, s0.tray_icons@.len() as int);
    let button = spec_launcher_button(sw, x as int, y as int);
    &&& s1.clock_text == s0.clock_text
    &&& s1.pointer_pos == s0.pointer_pos
    &&& s1.screen_size == s0.screen_size
    &&& s1.tray_icons == s0.tray_icons
    &&& if spec_koompi_button_hit(x as int, y as int) {
        &&& s1.show_launcher == !s0.show_launcher
        &&& s1.show_tray_popup is None
        &&& r is None
    } else if tray >= 0 {
        &&& (if s0.show_tray_popup matches Some(p) && p@ == s0.tray_icons@[tray].id@ {
            s1.show_tray_popup is None && s1.show_launcher == s0.show_launcher
        } else {
            (s1.show_tray_popup matches Some(q) && q@ == s0.tray_icons@[tray].id@)
                && !s1.show_launcher
        })
        &&& r is None
    } else if s0.show_launcher && button >= 0 {
        &&& !s1.show_launcher
        &&& s1.show_tray_popup == s0.show_tray_popup
        &&& r matches Some(app) && app@ == spec_app_name(button)
    } else {
        &&& s1.show_launcher == (s0.show_launcher && !spec_outside_launcher(
            sw, x as int, y as int,
        ))
        &&& s1.show_tray_popup is None
        &&& r is None
    }
}

} // verus!