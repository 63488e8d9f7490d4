//! The lock screen: an authentication state machine with a progressive
//! lockout, idle-lock polling, and password-entry editing; plus the modal
//! power menu of session actions.

use vstd::prelude::*;
use vstd::std_specs::iter::IteratorSpec;
use vstd::string::StringExecFns;
use crate::sys;

verus! {

/// The lock screen's authentication state.
#[derive(Debug, Clone, Copy, PartialEq, Eq, Structural)]
pub enum LockState {
    Unlocked,
    Locked,
    Authenticating,
    AuthFailed,
}

/// A message shown on the lock screen, kept as pure data; the renderer
/// gives it words.
#[derive(Debug, Clone, Copy, PartialEq, Eq, Structural)]
pub enum LockMessage {
    /// The attempt was rejected without being counted: the screen is locked
    /// out for another `wait_secs` seconds.
    LockedOut { wait_secs: u64 },
    /// The attempt crossed the failure threshold: locked out for
    /// `lockout_secs` seconds from now.
    LockoutStarted { lockout_secs: u64 },
    /// A failed attempt: `attempts` of the five allowed have been used.
    Incorrect { attempts: u32 },
}

/// The lock screen. All timestamps are milliseconds on one clock.
pub struct LockScreen {
    pub state: LockState,
    pub password_input: String,
    pub error_message: Option<LockMessage>,
    pub failed_attempts: u32,
    pub lockout_until: Option<u64>,
    pub locked_at: Option<u64>,
    pub idle_timeout_ms: u64,
    pub last_activity: u64,
    pub show_password: bool,
    pub user_name: String,
    pub user_avatar: Option<String>,
}

/// The mathematical shadow of `LockScreen`: everything the authentication
/// state machine reads or writes.
pub struct LockView {
    pub state: LockState,
    pub password: Seq<char>,
    pub error_message: Option<LockMessage>,
    pub failed_attempts: u32,
    pub lockout_until: Option<u64>,
    pub locked_at: Option<u64>,
    pub idle_timeout_ms: u64,
    pub last_activity: u64,
    pub show_password: bool,
}

impl View for LockScreen {
    type V = LockView;

    open spec fn view(&self) -> LockView {
        LockView {
            state: self.state,
            password: self.password_input@,
            error_message: self.error_message,
            failed_attempts: self.failed_attempts,
            lockout_until: self.lockout_until,
            locked_at: self.locked_at,
            idle_timeout_ms: self.idle_timeout_ms,
            last_activity: self.last_activity,
            show_password: self.show_password,
        }
    }
}

/// How many failed attempts start a lockout.
pub const MAX_ATTEMPTS: u32 = 5;

/// Well-formedness: at most five failures are ever counted, and reaching
/// five always comes with a lockout deadline.
pub open spec fn spec_lock_wf(v: LockView) -> bool {
    &&& v.failed_attempts <= MAX_ATTEMPTS
    &&& v.failed_attempts == MAX_ATTEMPTS ==> v.lockout_until is Some
}

/// `a + b`, saturating at the largest `u64`.
pub open spec fn spec_sat_add(a: u64, b: u64) -> u64 {
    if a <= u64::MAX - b {
        (a + b) as u64
    } else {
        u64::MAX
    }
}

/// The lockout length in seconds after `attempts` failures: thirty seconds
/// per failure past the fourth, capped at three hundred.
pub open spec fn spec_lockout_secs(attempts: u32) -> u64 {
    let raw = 30 * (attempts - 4);
    if raw <= 300 {
        raw as u64
    } else {
        300
    }
}

/// Locking the screen at instant `now`: the state becomes `Locked`, the
/// entry buffer and message are cleared, and the instant is recorded.
pub open spec fn spec_lock(v: LockView, now: u64) -> LockView {
    LockView {
        state: LockState::Locked,
        password: Seq::empty(),
        error_message: None,
        locked_at: Some(now),
        show_password: false,
        ..v
    }
}

/// One unlock attempt at instant `now`, where `password_ok` is the external
/// authenticator's verdict. During an unexpired lockout the attempt is
/// rejected unread and uncounted; an expired lockout is cleared first. On
/// success everything resets and the screen unlocks; on failure the failure
/// count grows, and crossing the threshold starts a lockout. The entry
/// buffer never survives a counted attempt.
pub open spec fn spec_try_unlock(v: LockView, password_ok: bool, now: u64) -> (LockView, bool) {
    if v.lockout_until is Some && now < v.lockout_until->0 {
        (
            LockView {
                error_message: Some(
                    LockMessage::LockedOut {
                        wait_secs: (((v.lockout_until->0 - now) / 1000) as u64),
                    },
                ),
                ..v
            },
            false,
        )
    } else {
        let v1 = if v.lockout_until is Some {
            LockView { lockout_until: None, failed_attempts: 0, ..v }
        } else {
            v
        };
        if password_ok {
            (
                LockView {
                    state: LockState::Unlocked,
                    password: Seq::empty(),
                    error_message: None,
                    failed_attempts: 0,
                    locked_at: None,
                    ..v1
                },
                true,
            )
        } else {
            let attempts = (v1.failed_attempts + 1) as u32;
            if attempts >= MAX_ATTEMPTS {
                let secs = spec_lockout_secs(attempts);
                (
                    LockView {
                        state: LockState::AuthFailed,
                        password: Seq::empty(),
                        failed_attempts: attempts,
                        lockout_until: Some(spec_sat_add(now, (secs * 1000) as u64)),
                        error_message: Some(
                            LockMessage::LockoutStarted { lockout_secs: secs },
                        ),
                        ..v1
                    },
                    false,
                )
            } else {
                (
                    LockView {
                        state: LockState::AuthFailed,
                        password: Seq::empty(),
                        failed_attempts: attempts,
                        error_message: Some(LockMessage::Incorrect { attempts }),
                        ..v1
                    },
                    false,
                )
            }
        }
    }
}

/// Typing one character: accepted only while `Locked` or `AuthFailed`;
/// typing after a failure first returns to `Locked` and clears the message.
pub open spec fn spec_input_char(v: LockView, ch: char) -> LockView {
    if v.state == LockState::Locked || v.state == LockState::AuthFailed {
        LockView {
            state: LockState::Locked,
            error_message: if v.state == LockState::AuthFailed {
                None
            } else {
                v.error_message
            },
            password: v.password.push(ch),
            ..v
        }
    } else {
        v
    }
}

/// Backspace: accepted only while `Locked` or `AuthFailed`; removes the
/// last buffered character, and returns a failure state to `Locked`.
pub open spec fn spec_input_backspace(v: LockView) -> LockView {
    if v.state == LockState::Locked || v.state == LockState::AuthFailed {
        LockView {
            state: LockState::Locked,
            error_message: if v.state == LockState::AuthFailed {
                None
            } else {
                v.error_message
            },
            password: if v.password.len() > 0 {
                v.password.drop_last()
            } else {
                v.password
            },
            ..v
        }
    } else {
        v
    }
}

/// Escape: clears the buffer and the message, and returns a failure state
/// to `Locked`.
pub open spec fn spec_input_escape(v: LockView) -> LockView {
    LockView {
        state: if v.state == LockState::AuthFailed {
            LockState::Locked
        } else {
            v.state
        },
        password: Seq::empty(),
        error_message: None,
        ..v
    }
}

/// Whether the screen should lock itself at instant `now`: only while
/// unlocked, once more than the idle timeout has passed since the last
/// registered activity.
pub open spec fn spec_should_idle_lock(v: LockView, now: u64) -> bool {
    &&& v.state == LockState::Unlocked
    &&& now > v.last_activity
    &&& now - v.last_activity > v.idle_timeout_ms
}

/// How long the screen has been locked at instant `now`, if it is.
pub open spec fn spec_time_locked(v: LockView, now: u64) -> Option<u64> {
    match v.locked_at {
        Some(t) => Some(
            if now >= t {
                (now - t) as u64
            } else {
                0
            },
        ),
        None => None,
    }
}

/// Whether a lockout deadline is set and still ahead at instant `now`.
pub open spec fn spec_is_locked_out(v: LockView, now: u64) -> bool {
    v.lockout_until matches Some(l) && now < l
}

impl LockScreen {
    /// An unlocked screen with an empty buffer, no failures, a five-minute
    /// idle timeout, and the account name the system reports (or `user`).
    pub fn new() -> (r: Self)
        ensures
            spec_lock_wf(r@),
            r@.state == LockState::Unlocked,
            r@.password == Seq::<char>::empty(),
            r@.error_message is None,
            r@.failed_attempts == 0,
            r@.lockout_until is None,
            r@.locked_at is None,
            r@.idle_timeout_ms == 300_000,
            !r@.show_password,
            r.user_avatar is None,
    {
        let user_name = match sys::fetch_username() {
            Some(u) => u,
            None => String::from_str("user"),
        };
        LockScreen {
            state: LockState::Unlocked,
            password_input: String::new(),
            error_message: None,
            failed_attempts: 0,
            lockout_until: None,
            locked_at: None,
            idle_timeout_ms: 300_000,
            last_activity: sys::now_millis(),
            show_password: false,
            user_name,
            user_avatar: None,
        }
    }

    /// Lock the screen as of instant `now`.
    pub fn lock_at(&mut self, now: u64)
        ensures
            final(self)@ == spec_lock(old(self)@, now),
            final(self).user_name == old(self).user_name,
            final(self).user_avatar == old(self).user_avatar,
    {
        self.state = LockState::Locked;
        self.password_input = String::new();
        self.error_message = None;
        self.locked_at = Some(now);
        self.show_password = false;
    }

    /// Lock the screen, recording the current instant.
    pub fn lock(&mut self)
        ensures
            exists|now: u64| final(self)@ == spec_lock(old(self)@, now),
            final(self)@.state == LockState::Locked,
            final(self).user_name == old(self).user_name,
            final(self).user_avatar == old(self).user_avatar,
    {
        let now = sys::now_millis();
        self.lock_at(now);
    }

    /// The external authenticator is a collaborator outside this library;
    /// within the library every password is refused. An integration that
    /// holds a real authenticator submits its verdict through
    /// `try_unlock_with`.
    fn verify_password(&self, _password: &str) -> (r: bool)
        ensures
            !r,
    {
        false
    }

    /// One unlock attempt at instant `now`, taking the external
    /// authenticator's verdict as an argument; moves exactly as
    /// `spec_try_unlock` says, for either verdict.
    pub fn try_unlock_with(&mut self, password_ok: bool, now: u64) -> (r: bool)
        requires
            spec_lock_wf(old(self)@),
        ensures
            spec_lock_wf(final(self)@),
            final(self)@ == spec_try_unlock(old(self)@, password_ok, now).0,
            r == spec_try_unlock(old(self)@, password_ok, now).1,
            final(self).user_name == old(self).user_name,
            final(self).user_avatar == old(self).user_avatar,
    {
        if let Some(lockout) = self.lockout_until {
            if now < lockout {
                let remaining = (lockout - now) / 1000;
                self.error_message = Some(LockMessage::LockedOut { wait_secs: remaining });
                return false;
            } else {
                self.lockout_until = None;
                self.failed_attempts = 0;
            }
        }
        self.state = LockState::Authenticating;
        if password_ok {
            self.state = LockState::Unlocked;
            self.password_input = String::new();
            self.error_message = None;
            self.failed_attempts = 0;
            self.locked_at = None;
            true
        } else {
            assert(self.failed_attempts < MAX_ATTEMPTS);
            self.failed_attempts = self.failed_attempts + 1;
            self.state = LockState::AuthFailed;
            if self.failed_attempts >= MAX_ATTEMPTS {
                let raw: u64 = 30 * ((self.failed_attempts - 4) as u64);
                let lockout_secs = if raw <= 300 {
                    raw
                } else {
                    300
                };
                let until = if now <= u64::MAX - lockout_secs * 1000 {
                    now + lockout_secs * 1000
                } else {
                    u64::MAX
                };
                self.lockout_until = Some(until);
                self.error_message = Some(
                    LockMessage::LockoutStarted { lockout_secs },
                );
            } else {
                self.error_message = Some(
                    LockMessage::Incorrect { attempts: self.failed_attempts },
                );
            }
            self.password_input = String::new();
            false
        }
    }

    /// One unlock attempt against the external authenticator and the system
    /// clock. The library's own authenticator refuses every password, so
    /// the attempt fails, moving as `spec_try_unlock` with a negative
    /// verdict at the instant read from the clock.
    pub fn try_unlock(&mut self, password: &str) -> (r: bool)
        requires
            spec_lock_wf(old(self)@),
        ensures
            spec_lock_wf(final(self)@),
            !r,
            exists|now: u64| final(self)@ == spec_try_unlock(old(self)@, false, now).0,
            final(self).user_name == old(self).user_name,
            final(self).user_avatar == old(self).user_avatar,
    {
        let now = sys::now_millis();
        let ok = self.verify_password(password);
        self.try_unlock_with(ok, now)
    }

    /// Submit the buffered password; only while `Locked` or `AuthFailed`.
    pub fn input_enter(&mut self)
        requires
            spec_lock_wf(old(self)@),
        ensures
            spec_lock_wf(final(self)@),
            old(self)@.state == LockState::Locked || old(self)@.state == LockState::AuthFailed
                ==> exists|now: u64|
                final(self)@ == spec_try_unlock(old(self)@, false, now).0,
            !(old(self)@.state == LockState::Locked || old(self)@.state
                == LockState::AuthFailed) ==> final(self)@ == old(self)@,
            final(self).user_name == old(self).user_name,
            final(self).user_avatar == old(self).user_avatar,
    {
        if matches!(self.state, LockState::Locked | LockState::AuthFailed) {
            let password = self.password_input.clone();
            self.try_unlock(password.as_str());
        }
    }

    /// Type one character into the password buffer.
    pub fn input_char(&mut self, ch: char)
        ensures
            final(self)@ == spec_input_char(old(self)@, ch),
            final(self).user_name == old(self).user_name,
            final(self).user_avatar == old(self).user_avatar,
    {
        if matches!(self.state, LockState::Locked | LockState::AuthFailed) {
            if matches!(self.state, LockState::AuthFailed) {
                self.state = LockState::Locked;
                self.error_message = None;
            }
            sys::string_push(&mut self.password_input, ch);
        }
    }

    /// Remove the last character of the password buffer.
    pub fn input_backspace(&mut self)
        ensures
            final(self)@ == spec_input_backspace(old(self)@),
            final(self).user_name == old(self).user_name,
            final(self).user_avatar == old(self).user_avatar,
    {
        if matches!(self.state, LockState::Locked | LockState::AuthFailed) {
            sys::string_pop(&mut self.password_input);
            if matches!(self.state, LockState::AuthFailed) {
                self.state = LockState::Locked;
                self.error_message = None;
            }
        }
    }

    /// Clear the buffer and the message; a failure state returns to
    /// `Locked`.
    pub fn input_escape(&mut self)
        ensures
            final(self)@ == spec_input_escape(old(self)@),
            final(self).user_name == old(self).user_name,
            final(self).user_avatar == old(self).user_avatar,
    {
        self.password_input = String::new();
        self.error_message = None;
        if matches!(self.state, LockState::AuthFailed) {
            self.state = LockState::Locked;
        }
    }

    /// Flip whether the buffered password is displayed in the clear.
    pub fn toggle_password_visibility(&mut self)
        ensures
            final(self)@ == (LockView { show_password: !old(self)@.show_password, ..old(self)@ }),
            final(self).user_name == old(self).user_name,
            final(self).user_avatar == old(self).user_avatar,
    {
        self.show_password = !self.show_password;
    }

    /// Record activity at instant `now`, restarting the idle countdown.
    pub fn activity_at(&mut self, now: u64)
        ensures
            final(self)@ == (LockView { last_activity: now, ..old(self)@ }),
            final(self).user_name == old(self).user_name,
            final(self).user_avatar == old(self).user_avatar,
    {
        self.last_activity = now;
    }

    /// Record activity as of the system clock: only `last_activity` moves.
    pub fn activity(&mut self)
        ensures
            final(self)@ == (LockView {
                last_activity: final(self)@.last_activity,
                ..old(self)@
            }),
            final(self).user_name == old(self).user_name,
            final(self).user_avatar == old(self).user_avatar,
    {
        let now = sys::now_millis();
        self.activity_at(now);
    }

    /// Whether the screen should lock itself at instant `now`.
    pub fn should_idle_lock_at(&self, now: u64) -> (r: bool)
        ensures
            r == spec_should_idle_lock(self@, now),
    {
        if !matches!(self.state, LockState::Unlocked) {
            false
        } else if now <= self.last_activity {
            false
        } else {
            now - self.last_activity > self.idle_timeout_ms
        }
    }

    /// Whether the screen should lock itself, judged against the system
    /// clock; never while already locked.
    pub fn should_idle_lock(&self) -> (r: bool)
        ensures
            exists|now: u64| r == spec_should_idle_lock(self@, now),
            self@.state != LockState::Unlocked ==> !r,
    {
        let now = sys::now_millis();
        self.should_idle_lock_at(now)
    }

    /// The buffered password as shown: the text itself when visibility is
    /// on, otherwise one mask character per typed character.
    pub fn display_password(&self) -> (r: String)
        ensures
            self@.show_password ==> r@ == self@.password,
            !self@.show_password ==> r@.len() == self@.password.len() && forall|i: int|
                0 <= i < r@.len() ==> r@[i] == '\u{25cf}',
    {
        if self.show_password {
            return self.password_input.clone();
        }
        let mut out = String::new();
        let mut it = self.password_input.as_str().chars();
        loop
            invariant
                !self@.show_password,
                it.obeys_prophetic_iter_laws(),
                it.decrease() is Some,
                out@.len() + it.remaining().len() == self@.password.len(),
                forall|i: int| 0 <= i < out@.len() ==> out@[i] == '\u{25cf}',
            decreases it.decrease()->0,
        {
            match it.next() {
                Some(_) => {
                    sys::string_push(&mut out, '\u{25cf}');
                },
                None => {
                    return out;
                },
            }
        }
    }

    /// How long the screen has been locked at instant `now`, if it is.
    pub fn time_locked_at(&self, now: u64) -> (r: Option<u64>)
        ensures
            r == spec_time_locked(self@, now),
    {
        match self.locked_at {
            Some(t) => Some(
                if now >= t {
                    now - t
                } else {
                    0
                },
            ),
            None => None,
        }
    }

    /// How long the screen has been locked, against the system clock.
    pub fn time_locked(&self) -> (r: Option<u64>)
        ensures
            exists|now: u64| r == spec_time_locked(self@, now),
            (r is Some) == (self@.locked_at is Some),
    {
        let now = sys::now_millis();
        self.time_locked_at(now)
    }

    /// Whether a lockout deadline is set and still ahead at instant `now`.
    pub fn is_locked_out_at(&self, now: u64) -> (r: bool)
        ensures
            r == spec_is_locked_out(self@, now),
    {
        match self.lockout_until {
            Some(l) => now < l,
            None => false,
        }
    }

    /// Whether the screen is currently locked out, against the system
    /// clock; never without a lockout deadline.
    pub fn is_locked_out(&self) -> (r: bool)
        ensures
            exists|now: u64| r == spec_is_locked_out(self@, now),
            self@.lockout_until is None ==> !r,
    {
        let now = sys::now_millis();
        self.is_locked_out_at(now)
    }
}

impl Default for LockScreen {
    /// The same screen `new` builds.
    fn default() -> (r: Self)
        ensures
            spec_lock_wf(r@),
            r@.state == LockState::Unlocked,
            r@.failed_attempts == 0,
            r@.lockout_until is None,
    {
        LockScreen::new()
    }
}

/// Five straight failed attempts lock the screen out. From a state with no
/// failures counted and no lockout pending, five failed attempts at
/// instants `t1..t5` leave five failures counted and a lockout deadline
/// thirty seconds past the fifth attempt; the screen reports itself locked
/// out at any instant before that deadline, and a sixth attempt at such an
/// instant returns false and counts nothing, whatever the authenticator
/// would have said.
pub proof fn lemma_five_failures_lock_out(
    v: LockView, t1: u64, t2: u64, t3: u64, t4: u64, t5: u64, t6: u64, verdict: bool,
)
    requires
        spec_lock_wf(v),
        v.failed_attempts == 0,
        v.lockout_until is None,
        t5 <= u64::MAX - 30_000,
        t6 < t5 + 30_000,
    ensures
        ({
            let v1 = spec_try_unlock(v, false, t1).0;
            let v2 = spec_try_unlock(v1, false, t2).0;
            let v3 = spec_try_unlock(v2, false, t3).0;
            let v4 = spec_try_unlock(v3, false, t4).0;
            let v5 = spec_try_unlock(v4, false, t5).0;
            &&& v5.failed_attempts == 5
            &&& v5.lockout_until == Some((t5 + 30_000) as u64)
            &&& spec_is_locked_out(v5, t6)
            &&& spec_try_unlock(v5, verdict, t6).1 == false
            &&& spec_try_unlock(v5, verdict, t6).0.failed_attempts == 5
        }),
{
}

/// A session action offered by the power menu.
#[derive(Debug, Clone, Copy, PartialEq, Eq, Structural)]
pub enum SessionAction {
    Lock,
    Logout,
    Suspend,
    Hibernate,
    Reboot,
    Shutdown,
}

impl SessionAction {
    /// The words naming this action.
    pub open spec fn spec_label(self) -> Seq<char> {
        match self {
            SessionAction::Lock => "Lock"@,
            SessionAction::Logout => "Log Out"@,
            SessionAction::Suspend => "Suspend"@,
            SessionAction::Hibernate => "Hibernate"@,
            SessionAction::Reboot => "Reboot"@,
            SessionAction::Shutdown => "Shut Down"@,
        }
    }

    /// The glyph drawn beside this action.
    pub open spec fn spec_icon(self) -> Seq<char> {
        match self {
            SessionAction::Lock => "\u{1f512}"@,
            SessionAction::Logout => "\u{1f6aa}"@,
            SessionAction::Suspend => "\u{1f4a4}"@,
            SessionAction::Hibernate => "\u{1f319}"@,
            SessionAction::Reboot => "\u{1f504}"@,
            SessionAction::Shutdown => "\u{23fb}"@,
        }
    }

    /// The words naming this action.
    pub fn label(&self) -> (r: &'static str)
        ensures
            r@ == self.spec_label(),
    {
        match self {
            SessionAction::Lock => "Lock",
            SessionAction::Logout => "Log Out",
            SessionAction::Suspend => "Suspend",
            SessionAction::Hibernate => "Hibernate",
            SessionAction::Reboot => "Reboot",
            SessionAction::Shutdown => "Shut Down",
        }
    }

    /// The glyph drawn beside this action.
    pub fn icon(&self) -> (r: &'static str)
        ensures
            r@ == self.spec_icon(),
    {
        match self {
            SessionAction::Lock => "\u{1f512}",
            SessionAction::Logout => "\u{1f6aa}",
            SessionAction::Suspend => "\u{1f4a4}",
            SessionAction::Hibernate => "\u{1f319}",
            SessionAction::Reboot => "\u{1f504}",
            SessionAction::Shutdown => "\u{23fb}",
        }
    }
}

/// The modal session-action picker.
pub struct PowerMenu {
    pub visible: bool,
    pub selected: usize,
    pub actions: Vec<SessionAction>,
}

/// The fixed list of actions the menu offers.
pub open spec fn spec_power_menu_actions() -> Seq<SessionAction> {
    seq![
        SessionAction::Lock,
        SessionAction::Logout,
        SessionAction::Suspend,
        SessionAction::Hibernate,
        SessionAction::Reboot,
        SessionAction::Shutdown,
    ]
}

/// Well-formedness: the menu offers at least one action and the selection
/// points at one of them.
pub open spec fn spec_menu_wf(m: PowerMenu) -> bool {
    m.actions@.len() > 0 && m.selected < m.actions@.len()
}

impl PowerMenu {
    /// A hidden menu offering the fixed ordered session actions — lock,
    /// logout, suspend, hibernate, reboot, shutdown — with the first one
    /// selected.
    pub fn new() -> (r: Self)
        ensures
            spec_menu_wf(r),
            !r.visible,
            r.selected == 0,
            r.actions@ == spec_power_menu_actions(),
    {
        let mut actions: Vec<SessionAction> = Vec::new();
        actions.push(SessionAction::Lock);
        actions.push(SessionAction::Logout);
        actions.push(SessionAction::Suspend);
        actions.push(SessionAction::Hibernate);
        actions.push(SessionAction::Reboot);
        actions.push(SessionAction::Shutdown);
        proof {
            assert(actions@ =~= spec_power_menu_actions());
        }
        PowerMenu { visible: false, selected: 0, actions }
    }

    /// Show or hide the menu; either way the selection returns to the top.
    pub fn toggle(&mut self)
        requires
            spec_menu_wf(*old(self)),
        ensures
            spec_menu_wf(*final(self)),
            final(self).visible == !old(self).visible,
            final(self).selected == 0,
            final(self).actions == old(self).actions,
    {
        self.visible = !self.visible;
        self.selected = 0;
    }

    /// Move the selection down one action, wrapping past the end.
    pub fn select_next(&mut self)
        requires
            spec_menu_wf(*old(self)),
        ensures
            spec_menu_wf(*final(self)),
            final(self).selected == (old(self).selected + 1) as int % old(self).actions@.len()
                as int,
            final(self).visible == old(self).visible,
            final(self).actions == old(self).actions,
    {
        let len = self.actions.len();
        self.selected = (self.selected + 1) % len;
    }

    /// Move the selection up one action, wrapping past the top.
    pub fn select_prev(&mut self)
        requires
            spec_menu_wf(*old(self)),
        ensures
            spec_menu_wf(*final(self)),
            final(self).selected == if old(self).selected == 0 {
                old(self).actions@.len() - 1
            } else {
                old(self).selected - 1
            },
            final(self).visible == old(self).visible,
            final(self).actions == old(self).actions,
    {
        if self.selected == 0 {
            self.selected = self.actions.len() - 1;
        } else {
            self.selected = self.selected - 1;
        }
    }

    /// Pick the selected action: a visible menu hides and hands the action
    /// back; a hidden menu hands back nothing.
    pub fn confirm(&mut self) -> (r: Option<SessionAction>)
        requires
            spec_menu_wf(*old(self)),
        ensures
            spec_menu_wf(*final(self)),
            old(self).visible ==> r == Some(old(self).actions@[old(self).selected as int])
                && !final(self).visible,
            !old(self).visible ==> r is None && final(self).visible == old(self).visible,
            final(self).selected == old(self).selected,
            final(self).actions == old(self).actions,
    {
        if self.visible {
            let action = self.actions[self.selected];
            self.visible = false;
            Some(action)
        } else {
            None
        }
    }
}

impl Default for PowerMenu {
    /// The same menu `new` builds.
    fn default() -> (r: Self)
        ensures
            spec_menu_wf(r),
            !r.visible,
            r.selected == 0,
            r.actions@ == spec_power_menu_actions(),
    {
        PowerMenu::new()
    }
}

} // verus!
