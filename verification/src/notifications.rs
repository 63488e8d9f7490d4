//! Toast notifications: a bounded active FIFO that overflows into a bounded
//! history, per-notification urgency and expiry, and the single live
//! on-screen display for volume/brightness feedback.

use vstd::prelude::*;
use crate::sys;

verus! {

/// Notification urgency level.
#[derive(Debug, Clone, Copy, PartialEq, Eq, Structural)]
pub enum Urgency {
    Low,
    Normal,
    Critical,
}

impl Default for Urgency {
    /// Notifications are `Normal` unless asked otherwise.
    fn default() -> (r: Self)
        ensures
            r == Urgency::Normal,
    {
        Urgency::Normal
    }
}

/// A single notification. A `timeout_ms` of zero means "never expires".
#[derive(Debug, Clone)]
pub struct Notification {
    pub id: u32,
    pub app_name: String,
    pub summary: String,
    pub body: String,
    pub icon: Option<String>,
    pub urgency: Urgency,
    pub actions: Vec<(String, String)>,
    pub created_at: u64,
    pub timeout_ms: u64,
    pub progress: Option<u8>,
}

/// Holds when `n` is a freshly created notification carrying the given id
/// and texts: normal urgency, the default five-second timeout, and no icon,
/// actions or progress.
pub open spec fn spec_fresh_like(
    n: Notification, id: u32, app: Seq<char>, summary: Seq<char>, body: Seq<char>,
) -> bool {
    &&& n.id == id
    &&& n.app_name@ == app
    &&& n.summary@ == summary
    &&& n.body@ == body
    &&& n.icon is None
    &&& n.urgency == Urgency::Normal
    &&& n.actions@ == Seq::<(String, String)>::empty()
    &&& n.timeout_ms == 5000
    &&& n.progress is None
}

/// `n` with its urgency replaced; critical urgency also zeroes the timeout,
/// so a critical notification never expires unless a timeout is set
/// afterwards.
pub open spec fn spec_with_urgency(n: Notification, urgency: Urgency) -> Notification {
    Notification {
        urgency,
        timeout_ms: if urgency == Urgency::Critical {
            0
        } else {
            n.timeout_ms
        },
        ..n
    }
}

/// Seconds converted to milliseconds, saturating at the largest `u64`.
pub open spec fn spec_secs_to_ms(secs: u64) -> u64 {
    if secs <= u64::MAX as int / 1000 {
        (secs * 1000) as u64
    } else {
        u64::MAX
    }
}

/// Progress clamped to the 0..=100 scale.
pub open spec fn spec_clamp_progress(p: u8) -> u8 {
    if p <= 100 {
        p
    } else {
        100
    }
}

/// Whether `n` counts as expired at instant `now`: never for a zero
/// timeout, otherwise once more than `timeout_ms` has passed since creation.
pub open spec fn spec_is_expired(n: Notification, now: u64) -> bool {
    &&& n.timeout_ms != 0
    &&& now > n.created_at
    &&& now - n.created_at > n.timeout_ms
}

impl Notification {
    /// A fresh notification with the given id and texts, created now.
    pub fn new(id: u32, app_name: &str, summary: &str, body: &str) -> (r: Self)
        ensures
            spec_fresh_like(r, id, app_name@, summary@, body@),
    {
        Notification {
            id,
            app_name: app_name.to_owned(),
            summary: summary.to_owned(),
            body: body.to_owned(),
            icon: None,
            urgency: Urgency::Normal,
            actions: Vec::new(),
            created_at: sys::now_millis(),
            timeout_ms: 5000,
            progress: None,
        }
    }

    /// Set the urgency; critical notifications stop expiring.
    pub fn with_urgency(self, urgency: Urgency) -> (r: Self)
        ensures
            r == spec_with_urgency(self, urgency),
    {
        let timeout_ms = if matches!(urgency, Urgency::Critical) {
            0
        } else {
            self.timeout_ms
        };
        Notification { urgency, timeout_ms, ..self }
    }

    /// Set the timeout, given in whole seconds.
    pub fn with_timeout(self, secs: u64) -> (r: Self)
        ensures
            r == (Notification { timeout_ms: spec_secs_to_ms(secs), ..self }),
    {
        let timeout_ms = if secs <= u64::MAX / 1000 {
            secs * 1000
        } else {
            u64::MAX
        };
        Notification { timeout_ms, ..self }
    }

    /// Set the icon reference.
    pub fn with_icon(self, icon: &str) -> (r: Self)
        ensures
            r.icon matches Some(i) && i@ == icon@,
            r == (Notification { icon: r.icon, ..self }),
    {
        Notification { icon: Some(icon.to_owned()), ..self }
    }

    /// Append one (action id, label) pair.
    pub fn with_action(self, action_id: &str, label: &str) -> (r: Self)
        ensures
            r.actions@.len() == self.actions@.len() + 1,
            r.actions@.drop_last() == self.actions@,
            r.actions@.last().0@ == action_id@,
            r.actions@.last().1@ == label@,
            r == (Notification { actions: r.actions, ..self }),
    {
        let mut actions = self.actions;
        actions.push((action_id.to_owned(), label.to_owned()));
        Notification { actions, ..self }
    }

    /// Set the progress, clamped to 0..=100.
    pub fn with_progress(self, progress: u8) -> (r: Self)
        ensures
            r == (Notification { progress: Some(spec_clamp_progress(progress)), ..self }),
    {
        let p = if progress <= 100 {
            progress
        } else {
            100
        };
        Notification { progress: Some(p), ..self }
    }

    /// Whether this notification has outlived its timeout at instant `now`.
    pub fn is_expired_at(&self, now: u64) -> (r: bool)
        ensures
            r == spec_is_expired(*self, now),
    {
        if self.timeout_ms == 0 {
            false
        } else if now <= self.created_at {
            false
        } else {
            now - self.created_at > self.timeout_ms
        }
    }

    /// Whether this notification has outlived its timeout, read against the
    /// system clock. A zero timeout never expires, whatever the clock says.
    pub fn is_expired(&self) -> (r: bool)
        ensures
            self.timeout_ms == 0 ==> !r,
    {
        let now = sys::now_millis();
        self.is_expired_at(now)
    }
}

/// A critical-urgency notification never expires: after `with_urgency`
/// with `Urgency::Critical`, `is_expired` is false at every instant.
pub proof fn lemma_critical_never_expires(n: Notification, now: u64)
    ensures
        !spec_is_expired(spec_with_urgency(n, Urgency::Critical), now),
{
}

/// How many notifications stay visible at once.
pub const MAX_VISIBLE: usize = 5;

/// How many dismissed notifications the history keeps.
pub const MAX_HISTORY: usize = 50;

/// `n` with its id replaced.
pub open spec fn spec_with_id(n: Notification, id: u32) -> Notification {
    Notification { id, ..n }
}


/// `h` with `n` appended, then trimmed from the front to at most `cap`
/// entries (oldest entries are discarded first).
pub open spec fn spec_add_to_history(
    h: Seq<Notification>, n: Notification, cap: int,
) -> Seq<Notification> {
    let s = h.push(n);
    if s.len() <= cap {
        s
    } else {
        s.skip(s.len() - cap)
    }
}

/// `h` after appending each element of `s` in order through
/// `spec_add_to_history`.
pub open spec fn spec_flush_to_history(
    h: Seq<Notification>, s: Seq<Notification>, cap: int,
) -> Seq<Notification>
    decreases s.len(),
{
    if s.len() == 0 {
        h
    } else {
        spec_flush_to_history(spec_add_to_history(h, s[0], cap), s.skip(1), cap)
    }
}

/// The elements of `s` not expired at `now`, in order.
pub open spec fn spec_unexpired(s: Seq<Notification>, now: u64) -> Seq<Notification>
    decreases s.len(),
{
    if s.len() == 0 {
        s
    } else if !spec_is_expired(s[0], now) {
        seq![s[0]] + spec_unexpired(s.skip(1), now)
    } else {
        spec_unexpired(s.skip(1), now)
    }
}

/// The elements of `s` expired at `now`, in order.
pub open spec fn spec_expired_of(s: Seq<Notification>, now: u64) -> Seq<Notification>
    decreases s.len(),
{
    if s.len() == 0 {
        s
    } else if spec_is_expired(s[0], now) {
        seq![s[0]] + spec_expired_of(s.skip(1), now)
    } else {
        spec_expired_of(s.skip(1), now)
    }
}

/// The first index of `s` holding id `id`, or -1 when none does.
pub open spec fn spec_position(s: Seq<Notification>, id: u32) -> int
    decreases s.len(),
{
    if s.len() == 0 {
        -1
    } else if s[0].id == id {
        0
    } else {
        let r = spec_position(s.skip(1), id);
        if r < 0 {
            -1
        } else {
            r + 1
        }
    }
}

/// Bridges a left-to-right search to `spec_position`: an element with the
/// id at index `i`, with no earlier match, is the first match.
proof fn lemma_position_found(s: Seq<Notification>, id: u32, i: int)
    requires
        0 <= i < s.len(),
        s[i].id == id,
        forall|j: int| 0 <= j < i ==> s[j].id != id,
    ensures
        spec_position(s, id) == i,
    decreases i,
{
    if i > 0 {
        lemma_position_found(s.skip(1), id, i - 1);
    }
}

/// A sequence with no match has position -1.
proof fn lemma_position_none(s: Seq<Notification>, id: u32)
    requires
        forall|j: int| 0 <= j < s.len() ==> s[j].id != id,
    ensures
        spec_position(s, id) == -1,
    decreases s.len(),
{
    if s.len() > 0 {
        lemma_position_none(s.skip(1), id);
    }
}

/// Appending one element to the flushed sequence flushes it last.
proof fn lemma_flush_push(h: Seq<Notification>, s: Seq<Notification>, n: Notification, cap: int)
    ensures
        spec_flush_to_history(h, s.push(n), cap)
            == spec_add_to_history(spec_flush_to_history(h, s, cap), n, cap),
    decreases s.len(),
{
    let sp = s.push(n);
    if s.len() == 0 {
        assert(sp[0] == n);
        assert(sp.skip(1) =~= Seq::<Notification>::empty());
        assert(spec_flush_to_history(spec_add_to_history(h, n, cap), sp.skip(1), cap)
            == spec_add_to_history(h, n, cap));
        assert(spec_flush_to_history(h, s, cap) == h);
    } else {
        assert(sp[0] == s[0]);
        assert(sp.skip(1) =~= s.skip(1).push(n));
        lemma_flush_push(spec_add_to_history(h, s[0], cap), s.skip(1), n, cap);
    }
}

/// The notification daemon: an active FIFO bounded to `MAX_VISIBLE` that
/// overflows oldest-first into a history bounded to `MAX_HISTORY`.
pub struct NotificationDaemon {
    notifications: Vec<Notification>,
    next_id: u32,
    max_visible: usize,
    history: Vec<Notification>,
    max_history: usize,
}

impl NotificationDaemon {
    /// The visible notifications, oldest first.
    pub closed spec fn active(&self) -> Seq<Notification> {
        self.notifications@
    }

    /// The dismissed notifications kept for history, oldest first.
    pub closed spec fn hist(&self) -> Seq<Notification> {
        self.history@
    }

    /// The id the next notification will receive.
    pub closed spec fn spec_next_id(&self) -> u32 {
        self.next_id
    }

    /// Well-formedness: the two queues respect their bounds, and active ids
    /// grow strictly from front to back, all below the next id to be given
    /// out.
    pub closed spec fn wf(&self) -> bool {
        &&& self.max_visible == MAX_VISIBLE
        &&& self.max_history == MAX_HISTORY
        &&& self.active().len() <= MAX_VISIBLE
        &&& self.hist().len() <= MAX_HISTORY
        &&& forall|i: int, j: int|
            0 <= i < j < self.active().len() ==> self.active()[i].id < self.active()[j].id
        &&& forall|i: int|
            0 <= i < self.active().len() ==> #[trigger] self.active()[i].id < self.spec_next_id()
    }

    /// An empty daemon; ids start at 1.
    pub fn new() -> (r: Self)
        ensures
            r.wf(),
            r.active() == Seq::<Notification>::empty(),
            r.hist() == Seq::<Notification>::empty(),
            r.spec_next_id() == 1u32,
    {
        NotificationDaemon {
            notifications: Vec::new(),
            next_id: 1,
            max_visible: MAX_VISIBLE,
            history: Vec::new(),
            max_history: MAX_HISTORY,
        }
    }

    /// Append `n` to the history, discarding the oldest entry once the
    /// history bound is exceeded.
    fn add_to_history(&mut self, n: Notification)
        requires
            old(self).max_history == MAX_HISTORY,
            old(self).history@.len() <= MAX_HISTORY,
        ensures
            final(self).history@.len() <= MAX_HISTORY,
            final(self).history@ == spec_add_to_history(old(self).history@, n, MAX_HISTORY as int),
            final(self).notifications == old(self).notifications,
            final(self).next_id == old(self).next_id,
            final(self).max_visible == old(self).max_visible,
            final(self).max_history == old(self).max_history,
    {
        self.history.push(n);
        if self.history.len() > self.max_history {
            self.history.remove(0);
            assert(self.history@ =~= spec_add_to_history(
                old(self).hist(), n, MAX_HISTORY as int,
            ));
        }
    }

    /// Enqueue `notification` under the next id and return that id. When the
    /// active queue would exceed its bound, its oldest entry moves to the
    /// history.
    pub fn add(&mut self, notification: Notification) -> (id: u32)
        requires
            old(self).wf(),
            old(self).spec_next_id() < u32::MAX,
        ensures
            final(self).wf(),
            id == old(self).spec_next_id(),
            final(self).spec_next_id() == id + 1,
            if old(self).active().len() < MAX_VISIBLE {
                &&& final(self).active() == old(self).active().push(
                    spec_with_id(notification, id),
                )
                &&& final(self).hist() == old(self).hist()
            } else {
                &&& final(self).active() == old(self).active().skip(1).push(
                    spec_with_id(notification, id),
                )
                &&& final(self).hist() == spec_add_to_history(
                    old(self).hist(), old(self).active()[0], MAX_HISTORY as int,
                )
            },
    {
        let id = self.next_id;
        self.next_id = self.next_id + 1;
        let mut notification = notification;
        notification.id = id;
        self.notifications.push(notification);
        if self.notifications.len() > self.max_visible {
            let oldest = self.notifications.remove(0);
            self.add_to_history(oldest);
            assert(self.notifications@ =~= old(self).active().skip(1).push(
                spec_with_id(notification, id),
            ));
        }
        id
    }

    /// Create and enqueue a notification with the given texts; returns its
    /// id. The queue moves as in `add`.
    pub fn notify(&mut self, app_name: &str, summary: &str, body: &str) -> (id: u32)
        requires
            old(self).wf(),
            old(self).spec_next_id() < u32::MAX,
        ensures
            final(self).wf(),
            id == old(self).spec_next_id(),
            final(self).spec_next_id() == id + 1,
            spec_fresh_like(
                final(self).active().last(), id, app_name@, summary@, body@,
            ),
            if old(self).active().len() < MAX_VISIBLE {
                &&& final(self).active().len() == old(self).active().len() + 1
                &&& final(self).active() == old(self).active().push(final(self).active().last())
                &&& final(self).active().drop_last() == old(self).active()
                &&& final(self).hist() == old(self).hist()
            } else {
                &&& final(self).active().len() == MAX_VISIBLE
                &&& final(self).active() == old(self).active().skip(1).push(
                    final(self).active().last(),
                )
                &&& final(self).active().drop_last() == old(self).active().skip(1)
                &&& final(self).hist() == spec_add_to_history(
                    old(self).hist(), old(self).active()[0], MAX_HISTORY as int,
                )
            },
    {
        let n = Notification::new(self.next_id, app_name, summary, body);
        self.add(n)
    }

    /// Move the notification with the given id (if any) from the active
    /// queue into the history; with no match this is a silent no-op.
    pub fn dismiss(&mut self, id: u32)
        requires
            old(self).wf(),
        ensures
            final(self).wf(),
            final(self).spec_next_id() == old(self).spec_next_id(),
            ({
                let pos = spec_position(old(self).active(), id);
                if pos >= 0 {
                    &&& final(self).active() == old(self).active().remove(pos)
                    &&& final(self).hist() == spec_add_to_history(
                        old(self).hist(), old(self).active()[pos], MAX_HISTORY as int,
                    )
                } else {
                    &&& final(self).active() == old(self).active()
                    &&& final(self).hist() == old(self).hist()
                }
            }),
    {
        let n = self.notifications.len();
        let mut i: usize = 0;
        while i < n
            invariant
                old(self).wf(),
                n == self.notifications@.len(),
                i <= n,
                *self == *old(self),
                forall|j: int| 0 <= j < i ==> self.notifications@[j].id != id,
            decreases n - i,
        {
            if self.notifications[i].id == id {
                proof {
                    lemma_position_found(self.notifications@, id, i as int);
                }
                let removed = self.notifications.remove(i);
                proof {
                    let s = old(self).active();
                    let t = self.notifications@;
                    assert forall|a: int, b: int|
                        0 <= a < b < t.len() implies t[a].id < t[b].id by {
                        let sa: int = if a < i { a } else { a + 1 };
                        let sb: int = if b < i { b } else { b + 1 };
                        assert(t[a] == s[sa]);
                        assert(t[b] == s[sb]);
                    }
                    assert forall|a: int|
                        0 <= a < t.len() implies #[trigger] t[a].id < self.next_id by {
                        let sa: int = if a < i { a } else { a + 1 };
                        assert(t[a] == s[sa]);
                    }
                }
                self.add_to_history(removed);
                return;
            }
            i = i + 1;
        }
        proof {
            lemma_position_none(self.notifications@, id);
        }
    }

    /// Move every active notification into the history, oldest first.
    pub fn dismiss_all(&mut self)
        requires
            old(self).wf(),
        ensures
            final(self).wf(),
            final(self).spec_next_id() == old(self).spec_next_id(),
            final(self).active() == Seq::<Notification>::empty(),
            final(self).hist() == spec_flush_to_history(
                old(self).hist(), old(self).active(), MAX_HISTORY as int,
            ),
    {
        while self.notifications.len() > 0
            invariant
                self.wf(),
                self.spec_next_id() == old(self).spec_next_id(),
                spec_flush_to_history(self.hist(), self.active(), MAX_HISTORY as int)
                    == spec_flush_to_history(
                    old(self).hist(), old(self).active(), MAX_HISTORY as int,
                ),
            decreases self.notifications@.len(),
        {
            let n = self.notifications.remove(0);
            proof {
                assert(old(self).active() == old(self).active());
            }
            self.add_to_history(n);
        }
        assert(self.notifications@ =~= Seq::<Notification>::empty());
    }

    /// Replace the summary/body/progress of the notification with the given
    /// id, leaving every field not supplied (and every other notification)
    /// unchanged; with no match this is a silent no-op. Progress is clamped
    /// to 0..=100.
    pub fn update(
        &mut self,
        id: u32,
        summary: Option<&str>,
        body: Option<&str>,
        progress: Option<u8>,
    )
        requires
            old(self).wf(),
        ensures
            final(self).wf(),
            final(self).spec_next_id() == old(self).spec_next_id(),
            final(self).hist() == old(self).hist(),
            ({
                let pos = spec_position(old(self).active(), id);
                if pos >= 0 {
                    &&& final(self).active() == old(self).active().update(
                        pos, final(self).active()[pos],
                    )
                    &&& spec_updated_matches(
                        final(self).active()[pos], old(self).active()[pos],
                        summary, body, progress,
                    )
                } else {
                    final(self).active() == old(self).active()
                }
            }),
    {
        let n = self.notifications.len();
        let mut i: usize = 0;
        while i < n
            invariant
                old(self).wf(),
                n == self.notifications@.len(),
                i <= n,
                *self == *old(self),
                forall|j: int| 0 <= j < i ==> self.notifications@[j].id != id,
            decreases n - i,
        {
            if self.notifications[i].id == id {
                proof {
                    lemma_position_found(self.notifications@, id, i as int);
                }
                let mut picked = self.notifications.remove(i);
                if let Some(s) = summary {
                    picked.summary = s.to_owned();
                }
                if let Some(b) = body {
                    picked.body = b.to_owned();
                }
                if let Some(p) = progress {
                    picked.progress = Some(
                        if p <= 100 {
                            p
                        } else {
                            100
                        },
                    );
                }
                self.notifications.insert(i, picked);
                proof {
                    let s = old(self).active();
                    let t = self.notifications@;
                    assert(t =~= s.update(i as int, t[i as int]));
                    assert forall|a: int, b: int|
                        0 <= a < b < t.len() implies t[a].id < t[b].id by {
                        assert(t[a].id == s[a].id);
                        assert(t[b].id == s[b].id);
                    }
                    assert forall|a: int|
                        0 <= a < t.len() implies #[trigger] t[a].id < self.next_id by {
                        assert(t[a].id == s[a].id);
                    }
                }
                return;
            }
            i = i + 1;
        }
        proof {
            lemma_position_none(self.notifications@, id);
        }
    }

    /// Move every notification expired at `now` into the history, keeping
    /// the rest in order.
    pub fn cleanup_at(&mut self, now: u64)
        requires
            old(self).wf(),
        ensures
            final(self).wf(),
            final(self).spec_next_id() == old(self).spec_next_id(),
            final(self).active() == spec_unexpired(old(self).active(), now),
            final(self).hist() == spec_flush_to_history(
                old(self).hist(), spec_expired_of(old(self).active(), now), MAX_HISTORY as int,
            ),
    {
        let ghost s0 = self.notifications@;
        let ghost h0 = self.history@;
        let mut keep: Vec<Notification> = Vec::new();
        while self.notifications.len() > 0
            invariant
                old(self).wf(),
                self.next_id == old(self).next_id,
                self.max_visible == MAX_VISIBLE,
                self.max_history == MAX_HISTORY,
                self.history@.len() <= MAX_HISTORY,
                keep@.len() + self.notifications@.len() <= MAX_VISIBLE,
                spec_unexpired(s0, now) == keep@ + spec_unexpired(self.notifications@, now),
                spec_flush_to_history(h0, spec_expired_of(s0, now), MAX_HISTORY as int)
                    == spec_flush_to_history(
                    self.history@,
                    spec_expired_of(self.notifications@, now),
                    MAX_HISTORY as int,
                ),
                forall|a: int, b: int|
                    0 <= a < b < keep@.len() ==> keep@[a].id < keep@[b].id,
                forall|a: int, b: int|
                    0 <= a < keep@.len() && 0 <= b < self.notifications@.len()
                        ==> keep@[a].id < self.notifications@[b].id,
                forall|a: int, b: int|
                    0 <= a < b < self.notifications@.len()
                        ==> self.notifications@[a].id < self.notifications@[b].id,
                forall|a: int|
                    0 <= a < keep@.len() ==> #[trigger] keep@[a].id < self.next_id,
                forall|a: int|
                    0 <= a < self.notifications@.len()
                        ==> #[trigger] self.notifications@[a].id < self.next_id,
            decreases self.notifications@.len(),
        {
            let ghost rem = self.notifications@;
            let x = self.notifications.remove(0);
            proof {
                assert(self.notifications@ =~= rem.skip(1));
            }
            if x.is_expired_at(now) {
                proof {
                    assert(spec_expired_of(rem, now)
                        == seq![x] + spec_expired_of(rem.skip(1), now));
                    assert((seq![x] + spec_expired_of(rem.skip(1), now))[0] == x);
                    assert((seq![x] + spec_expired_of(rem.skip(1), now)).skip(1)
                        =~= spec_expired_of(rem.skip(1), now));
                }
                self.add_to_history(x);
            } else {
                keep.push(x);
                proof {
                    assert(spec_unexpired(rem, now)
                        == seq![x] + spec_unexpired(rem.skip(1), now));
                    assert(keep@.drop_last() + (seq![x] + spec_unexpired(rem.skip(1), now))
                        =~= keep@ + spec_unexpired(rem.skip(1), now));
                }
            }
        }
        proof {
            assert(keep@ + spec_unexpired(self.notifications@, now) =~= keep@);
        }
        self.notifications = keep;
    }

    /// Move every notification expired against the system clock into the
    /// history, keeping the rest in order: for some reading `now` of the
    /// clock, the queues move exactly as `cleanup_at(now)` moves them.
    pub fn cleanup(&mut self)
        requires
            old(self).wf(),
        ensures
            final(self).wf(),
            final(self).spec_next_id() == old(self).spec_next_id(),
            exists|now: u64|
                final(self).active() == spec_unexpired(old(self).active(), now)
                    && final(self).hist() == #[trigger] spec_flush_to_history(
                    old(self).hist(),
                    spec_expired_of(old(self).active(), now),
                    MAX_HISTORY as int,
                ),
    {
        let now = sys::now_millis();
        self.cleanup_at(now);
    }

    /// The visible notifications, oldest first.
    pub fn visible(&self) -> (r: &Vec<Notification>)
        ensures
            r@ == self.active(),
    {
        &self.notifications
    }

    /// How many notifications are visible.
    pub fn count(&self) -> (r: usize)
        ensures
            r == self.active().len(),
    {
        self.notifications.len()
    }

    /// The dismissed notifications kept for history, oldest first.
    pub fn history(&self) -> (r: &Vec<Notification>)
        ensures
            r@ == self.hist(),
    {
        &self.history
    }
}

/// The queues respect their bounds: a well-formed daemon shows at most
/// `MAX_VISIBLE` notifications and keeps at most `MAX_HISTORY` in its
/// history.
pub proof fn lemma_daemon_bounds(d: &NotificationDaemon)
    requires
        d.wf(),
    ensures
        d.active().len() <= MAX_VISIBLE,
        d.hist().len() <= MAX_HISTORY,
{
}

/// How long an on-screen display stays up, in milliseconds.
pub const OSD_TIMEOUT_MS: u64 = 1500;

/// What an on-screen display reports.
#[derive(Debug, Clone, Copy, PartialEq, Eq, Structural)]
pub enum OSDKind {
    Volume,
    Brightness,
    Mute,
}

/// A short-lived centered overlay for volume/brightness/mute feedback.
/// At most one is live at a time; a new one replaces the old.
#[derive(Debug, Clone)]
pub struct OSD {
    pub kind: OSDKind,
    pub value: u8,
    pub created_at: u64,
    pub timeout_ms: u64,
}

/// Whether an on-screen display created at `created_at` with timeout
/// `timeout_ms` has expired at instant `now`.
pub open spec fn spec_osd_expired(o: OSD, now: u64) -> bool {
    now > o.created_at && now - o.created_at > o.timeout_ms
}

impl OSD {
    /// A volume display showing `value`, clamped to 0..=100, created now.
    pub fn volume(value: u8) -> (r: Self)
        ensures
            r.kind == OSDKind::Volume,
            r.value == spec_clamp_progress(value),
            r.timeout_ms == OSD_TIMEOUT_MS,
    {
        let v = if value <= 100 {
            value
        } else {
            100
        };
        OSD { kind: OSDKind::Volume, value: v, created_at: sys::now_millis(), timeout_ms: OSD_TIMEOUT_MS }
    }

    /// A brightness display showing `value`, clamped to 0..=100, created now.
    pub fn brightness(value: u8) -> (r: Self)
        ensures
            r.kind == OSDKind::Brightness,
            r.value == spec_clamp_progress(value),
            r.timeout_ms == OSD_TIMEOUT_MS,
    {
        let v = if value <= 100 {
            value
        } else {
            100
        };
        OSD { kind: OSDKind::Brightness, value: v, created_at: sys::now_millis(), timeout_ms: OSD_TIMEOUT_MS }
    }

    /// A mute display, created now.
    pub fn mute() -> (r: Self)
        ensures
            r.kind == OSDKind::Mute,
            r.value == 0,
            r.timeout_ms == OSD_TIMEOUT_MS,
    {
        OSD { kind: OSDKind::Mute, value: 0, created_at: sys::now_millis(), timeout_ms: OSD_TIMEOUT_MS }
    }

    /// Whether this display has outlived its timeout at instant `now`.
    pub fn is_expired_at(&self, now: u64) -> (r: bool)
        ensures
            r == spec_osd_expired(*self, now),
    {
        if now <= self.created_at {
            false
        } else {
            now - self.created_at > self.timeout_ms
        }
    }

    /// Whether this display has outlived its timeout, read against the
    /// system clock.
    pub fn is_expired(&self) -> (r: bool)
        ensures
            exists|now: u64| r == spec_osd_expired(*self, now),
    {
        let now = sys::now_millis();
        self.is_expired_at(now)
    }
}

/// Holds when `new` is `orig` with exactly the supplied fields replaced:
/// a supplied summary or body replaces the text, a supplied progress is
/// stored clamped to 0..=100, and everything else is kept.
pub open spec fn spec_updated_matches(
    new: Notification,
    orig: Notification,
    summary: Option<&str>,
    body: Option<&str>,
    progress: Option<u8>,
) -> bool {
    &&& new.id == orig.id
    &&& new.app_name == orig.app_name
    &&& match summary {
        Some(s) => new.summary@ == s@,
        None => new.summary == orig.summary,
    }
    &&& match body {
        Some(b) => new.body@ == b@,
        None => new.body == orig.body,
    }
    &&& new.icon == orig.icon
    &&& new.urgency == orig.urgency
    &&& new.actions == orig.actions
    &&& new.created_at == orig.created_at
    &&& new.timeout_ms == orig.timeout_ms
    &&& match progress {
        Some(p) => new.progress == Some(spec_clamp_progress(p)),
        None => new.progress == orig.progress,
    }
}

} // verus!
