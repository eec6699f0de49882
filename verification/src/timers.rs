//! The deferred-callback scheduler of one script execution context.
//!
//! [`OneshotTimers`] keeps every pending timed callback of the context in a
//! single ordered collection, decides when the external wake-up source must
//! be asked for a wake, rejects stale wake notifications by token, and pops
//! due callbacks in firing order. The interval layer ([`JsTimers`], owned by
//! the registry) adds a stable public handle space for `setTimeout` /
//! `setInterval` style timers, the nesting-depth clamp, and the optional
//! minimum-duration throttle, re-arming repeating timers after each firing.
//!
//! The scheduler is deliberately a pure state machine. Readings of the
//! wall clock enter as plain millisecond values, and every operation that
//! may have to (re)arm the external wake-up source returns the request to
//! send as a plain [`WakeRequest`] value. The embedder owns the channel to
//! the wake-up source, forwards each returned request, and feeds incoming
//! wake notifications back through [`OneshotTimers::fire_timer`]; a later
//! request supersedes an earlier one, and a superseded wake is dropped by
//! its token on arrival. Likewise the execution of a callback body belongs
//! to the script engine: the registry hands the popped batch to the
//! embedder, which brackets each scripted callback between
//! [`OneshotTimers::begin_invoke`] and [`OneshotTimers::finish_invoke`] so
//! that the nesting bookkeeping and the re-arm decision stay verified.

use vstd::prelude::*;

use std::collections::HashMap;

verus! {

broadcast use vstd::std_specs::hash::group_hash_axioms;

/// Once scheduling calls are nested more deeply than this many levels of
/// timer callbacks, the clamp floor below applies.
pub const NESTING_CLAMP_THRESHOLD: u32 = 5;

/// The duration floor, in milliseconds, forced upon deeply nested timers.
pub const NESTING_CLAMP_FLOOR_MS: u64 = 4;

/// Identifies one pending one-shot callback. Strictly monotonically
/// increasing within one registry, never reused.
#[derive(Clone, Copy, Debug, Hash, PartialEq, Eq, Structural)]
pub struct OneshotTimerHandle(pub i32);

/// Identifies one timer of the interval layer. Stable across re-arming, so
/// a caller can cancel a repeating timer without knowing which one-shot
/// handle currently represents its next firing.
#[derive(Clone, Copy, Debug, Hash, PartialEq, Eq, Structural)]
pub struct JsTimerHandle(pub i32);

/// Where a timer was created, and hence on which event loop its callback
/// must run: a window, identified by its pipeline, or a worker.
#[derive(Clone, Copy, Debug, PartialEq, Eq, Structural)]
pub enum TimerSource {
    FromWindow(u64),
    FromWorker,
}

/// Whether a timer of the interval layer repeats.
#[derive(Clone, Copy, Debug, PartialEq, Eq, Structural)]
pub enum IsInterval {
    Interval,
    NonInterval,
}

/// A callback as a caller hands it to the interval layer: either source
/// text to evaluate, or a script function designated by the identity the
/// execution environment gave it.
#[derive(Clone, Debug, PartialEq)]
pub enum TimerCallback {
    StringTimerCallback(String),
    FunctionTimerCallback(u64),
}

/// The callback of an interval-layer timer once its captured arguments are
/// attached: source text, or a function identity with the identities of the
/// argument values captured at scheduling time.
#[derive(Clone, Debug, PartialEq)]
pub enum InternalTimerCallback {
    StringTimerCallback(String),
    FunctionTimerCallback(u64, Vec<u64>),
}

/// Everything the interval layer remembers about one of its timers: enough
/// to run the callback, to re-arm it if it repeats, and to clamp nested
/// scheduling calls made while it runs.
#[derive(Clone, Debug, PartialEq)]
pub struct JsTimerTask {
    pub handle: JsTimerHandle,
    pub source: TimerSource,
    pub callback: InternalTimerCallback,
    pub is_interval: IsInterval,
    pub nesting_level: u32,
    pub duration: u64,
    pub is_user_interacting: bool,
}

/// The payload of one pending one-shot callback. The registry never looks
/// inside: it only decides when and whether the payload is handed back for
/// invocation. Callbacks of the interval layer carry their task; the other
/// variants carry the identity the embedder gave the pending operation.
#[derive(Clone, Debug, PartialEq)]
pub enum OneshotTimerCallback {
    XhrTimeout(u64),
    EventSourceTimeout(u64),
    JsTimer(JsTimerTask),
    TestBindingCallback(u64),
    FakeRequestAnimationFrame(u64),
    RefreshRedirectDue(u64),
}

/// One pending one-shot callback: its handle, where it came from, its
/// payload, and when it is due on the registry's adjusted clock.
#[derive(Clone, Debug, PartialEq)]
pub struct OneshotTimer {
    pub handle: OneshotTimerHandle,
    pub source: TimerSource,
    pub callback: OneshotTimerCallback,
    pub scheduled_for: u64,
}

/// A request toward the external wake-up source: deliver one wake
/// notification carrying `event_id` to this context, `delay_ms`
/// milliseconds from the clock reading the request was computed against.
/// At most one request is live at a time; a newer request supersedes an
/// older one, whose wake will then be dropped as stale.
#[derive(Clone, Copy, Debug, PartialEq, Eq, Structural)]
pub struct WakeRequest {
    pub source: TimerSource,
    pub event_id: u64,
    pub delay_ms: u64,
}

/// `a` fires strictly before `b`: earlier due time, ties broken by the
/// smaller (older) handle.
pub open spec fn fires_before(a: OneshotTimer, b: OneshotTimer) -> bool {
    a.scheduled_for < b.scheduled_for || (a.scheduled_for == b.scheduled_for
        && a.handle.0 < b.handle.0)
}

/// The pending collection is kept sorted with the soonest-due record last,
/// so "which timer is next" is answered in constant time.
pub open spec fn pending_sorted(s: Seq<OneshotTimer>) -> bool {
    forall|i: int, j: int| 0 <= i < j < s.len() ==> fires_before(#[trigger] s[j], #[trigger] s[i])
}

/// Whether some pending record carries the given handle value.
pub open spec fn contains_handle(s: Seq<OneshotTimer>, handle: i32) -> bool {
    exists|i: int| 0 <= i < s.len() && (#[trigger] s[i]).handle.0 == handle
}

/// How a firing pass relates the pending records before it (`pre`) to the
/// records left live (`remaining`) and the batch popped for invocation
/// (`batch`): the batch is the due tail of `pre`, read back to front, so
/// its first element is the soonest-due record.
pub open spec fn batch_split(
    pre: Seq<OneshotTimer>,
    remaining: Seq<OneshotTimer>,
    batch: Seq<OneshotTimer>,
) -> bool {
    &&& pre.len() == remaining.len() + batch.len()
    &&& (forall|i: int| 0 <= i < remaining.len() ==> #[trigger] remaining[i] == pre[i])
    &&& (forall|j: int| 0 <= j < batch.len() ==> #[trigger] batch[j] == pre[pre.len() - 1 - j])
}

/// The delay a wake request carries: the time from the unadjusted reading
/// `now` until the due time, floored at zero.
pub open spec fn spec_delay(scheduled_for: u64, now: u64) -> u64 {
    if scheduled_for >= now {
        (scheduled_for - now) as u64
    } else {
        0
    }
}

impl OneshotTimers {
    /// How scheduling `new_timer` at the unadjusted reading `now` takes the
    /// registry from `pre` to `post`, answering `request`: the record joins
    /// the pending collection at its sorted position under the next fresh
    /// handle, and exactly when it is strictly the new soonest-due record
    /// and the context is not suspended, the wake request is superseded and
    /// `request` carries the replacement to send.
    pub open spec fn schedule_effect(
        pre: OneshotTimers,
        post: OneshotTimers,
        new_timer: OneshotTimer,
        now: u64,
        request: Option<WakeRequest>,
    ) -> bool {
        let newly_soonest = forall|i: int|
            0 <= i < pre.pending().len() ==> fires_before(
                new_timer,
                #[trigger] pre.pending()[i],
            );
        &&& new_timer.handle == OneshotTimerHandle(pre.next_handle())
        &&& post.next_handle() == pre.next_handle() + 1
        &&& post.suspended() == pre.suspended()
        &&& post.offset() == pre.offset()
        &&& exists|p: int|
            0 <= p <= pre.pending().len() && post.pending() == pre.pending().insert(p, new_timer)
        &&& post.pending().len() == pre.pending().len() + 1
        &&& contains_handle(post.pending(), pre.next_handle())
        &&& (forall|h: i32|
            contains_handle(pre.pending(), h) ==> contains_handle(post.pending(), h))
        &&& (forall|h: i32|
            contains_handle(post.pending(), h) ==> contains_handle(pre.pending(), h) || h
                == pre.next_handle())
        &&& (newly_soonest && pre.suspended() is None ==> {
            &&& post.event_id() == pre.event_id() + 1
            &&& request == Some(WakeRequest {
                source: new_timer.source,
                event_id: (pre.event_id() + 1) as u64,
                delay_ms: spec_delay(new_timer.scheduled_for, now),
            })
        })
        &&& (!(newly_soonest && pre.suspended() is None) ==> {
            &&& post.event_id() == pre.event_id()
            &&& request is None
        })
    }

    /// How cancelling `handle` at the unadjusted reading `now` takes the
    /// registry from `pre` to `post`, answering `request`: the record with
    /// the handle — if any — leaves the pending collection, and if it was
    /// the soonest due, the outstanding wake request is superseded and,
    /// unless the context is suspended or nothing is left, `request`
    /// carries the request to send for the new soonest-due record.
    pub open spec fn unschedule_effect(
        pre: OneshotTimers,
        post: OneshotTimers,
        handle: i32,
        now: u64,
        request: Option<WakeRequest>,
    ) -> bool {
        let was_next = pre.pending().len() > 0 && pre.pending().last().handle.0 == handle;
        let remaining = pre.pending().drop_last();
        &&& post.next_handle() == pre.next_handle()
        &&& post.suspended() == pre.suspended()
        &&& post.offset() == pre.offset()
        &&& !contains_handle(post.pending(), handle)
        &&& (!contains_handle(pre.pending(), handle) ==> {
            &&& post.pending() == pre.pending()
            &&& post.event_id() == pre.event_id()
            &&& request is None
        })
        &&& (contains_handle(pre.pending(), handle) ==> exists|idx: int|
            0 <= idx < pre.pending().len() && (#[trigger] pre.pending()[idx]).handle.0 == handle
                && post.pending() == pre.pending().remove(idx))
        &&& (!was_next ==> {
            &&& post.event_id() == pre.event_id()
            &&& request is None
        })
        &&& (was_next ==> post.pending() == remaining)
        &&& (was_next && (pre.suspended() is Some || remaining.len() == 0) ==> {
            &&& post.event_id() == pre.event_id() + 1
            &&& request is None
        })
        &&& (was_next && pre.suspended() is None && remaining.len() > 0 ==> {
            &&& post.event_id() == pre.event_id() + 2
            &&& request == Some(WakeRequest {
                source: remaining.last().source,
                event_id: (pre.event_id() + 2) as u64,
                delay_ms: spec_delay(remaining.last().scheduled_for, now),
            })
        })
    }
}

/// The interval layer's record for one live timer: the one-shot handle
/// that currently represents the timer's next firing. Overwritten on every
/// re-arm.
#[derive(Clone, Copy, Debug, PartialEq, Eq, Structural)]
pub struct JsTimerEntry {
    pub oneshot_handle: OneshotTimerHandle,
}

/// The interval layer: a stable handle space for `setTimeout` /
/// `setInterval` style timers built on top of [`OneshotTimers`], which owns
/// it. It remembers which one-shot handle currently stands for each live
/// timer, the nesting level of the callback currently running (0 outside
/// any callback), and the optional minimum-duration throttle.
pub struct JsTimers {
    next_timer_handle: i32,
    active_timers: HashMap<i32, JsTimerEntry>,
    nesting_level: u32,
    min_duration: Option<u64>,
}

impl JsTimers {
    /// The handle the next scheduled timer will get.
    pub closed spec fn next_handle(self) -> i32 {
        self.next_timer_handle
    }

    /// The live timers: each handle value maps to the one-shot handle that
    /// currently represents the timer's next firing.
    pub closed spec fn active(self) -> Map<i32, JsTimerEntry> {
        self.active_timers@
    }

    /// The nesting level of the interval-layer callback currently running,
    /// or 0 outside any callback.
    pub closed spec fn nesting(self) -> u32 {
        self.nesting_level
    }

    /// The configured minimum-duration throttle, if any.
    pub closed spec fn min_dur(self) -> Option<u64> {
        self.min_duration
    }

    pub open spec fn wf(self) -> bool {
        self.next_handle() >= 1
    }

    /// A fresh interval layer: no live timers, handles starting at 1, no
    /// callback running, no throttle.
    pub fn new() -> (timers: JsTimers)
        ensures
            timers.wf(),
            timers.next_handle() == 1,
            timers.active() == Map::<i32, JsTimerEntry>::empty(),
            timers.nesting() == 0,
            timers.min_dur() is None,
    {
        let timers = JsTimers {
            next_timer_handle: 1,
            active_timers: HashMap::new(),
            nesting_level: 0,
            min_duration: None,
        };
        proof {
            assert(timers.active() =~= Map::<i32, JsTimerEntry>::empty());
        }
        timers
    }

    /// Installs the minimum-duration throttle. It applies from the next
    /// arming on, never retroactively to already-scheduled timers.
    pub fn set_min_duration(&mut self, duration: u64)
        ensures
            final(self).min_dur() == Some(duration),
            final(self).next_handle() == old(self).next_handle(),
            final(self).active() == old(self).active(),
            final(self).nesting() == old(self).nesting(),
    {
        self.min_duration = Some(duration);
    }

    /// Removes the minimum-duration throttle.
    pub fn remove_min_duration(&mut self)
        ensures
            final(self).min_dur() is None,
            final(self).next_handle() == old(self).next_handle(),
            final(self).active() == old(self).active(),
            final(self).nesting() == old(self).nesting(),
    {
        self.min_duration = None;
    }
}

/// The nesting clamp of the interval layer: timers scheduled from more
/// than [`NESTING_CLAMP_THRESHOLD`] levels of nested timer callbacks get a
/// duration floor of [`NESTING_CLAMP_FLOOR_MS`]; shallower ones get none.
pub open spec fn spec_clamp_floor(nesting_level: u32) -> u64 {
    if nesting_level > NESTING_CLAMP_THRESHOLD {
        NESTING_CLAMP_FLOOR_MS
    } else {
        0
    }
}

/// The duration the interval layer actually schedules for a task: the
/// requested duration, raised to the nesting clamp floor, then raised to
/// the minimum-duration throttle if one is configured.
pub open spec fn spec_effective_duration(min_duration: Option<u64>, task: JsTimerTask) -> u64 {
    let floor = spec_clamp_floor(task.nesting_level);
    let clamped = if task.duration >= floor {
        task.duration
    } else {
        floor
    };
    match min_duration {
        Some(min) => if clamped >= min {
            clamped
        } else {
            min
        },
        None => clamped,
    }
}

/// The callback an interval-layer task will carry: source text stays as it
/// is, a function is paired with the argument values captured at
/// scheduling time.
pub open spec fn spec_internal_callback(
    callback: TimerCallback,
    arguments: Vec<u64>,
) -> InternalTimerCallback {
    match callback {
        TimerCallback::StringTimerCallback(code) => InternalTimerCallback::StringTimerCallback(
            code,
        ),
        TimerCallback::FunctionTimerCallback(function) => InternalTimerCallback::FunctionTimerCallback(
            function,
            arguments,
        ),
    }
}

/// The task a `set` call builds before arming: it captures the callback
/// with its arguments, the caller's current nesting level, and the
/// requested duration — a negative timeout counts as zero, unclamped
/// otherwise.
pub open spec fn spec_new_task(
    js: JsTimers,
    callback: TimerCallback,
    arguments: Vec<u64>,
    timeout: i32,
    is_interval: IsInterval,
    source: TimerSource,
    is_user_interacting: bool,
) -> JsTimerTask {
    JsTimerTask {
        handle: JsTimerHandle(js.next_handle()),
        source,
        callback: spec_internal_callback(callback, arguments),
        is_interval,
        nesting_level: js.nesting(),
        duration: if timeout >= 0 {
            timeout as u64
        } else {
            0
        },
        is_user_interacting,
    }
}

/// Whether finishing an invocation of `task` re-arms it: the task repeats
/// and its handle is still live — it was cleared neither by its own
/// callback nor by anyone else since it fired.
pub open spec fn spec_rearms(active: Map<i32, JsTimerEntry>, task: JsTimerTask) -> bool {
    task.is_interval == IsInterval::Interval && active.contains_key(task.handle.0)
}

/// The registry of every pending timed callback of one script execution
/// context, together with the interval layer built on it.
pub struct OneshotTimers {
    js_timers: JsTimers,
    next_timer_handle: i32,
    /// Sorted with the soonest-due record last; see [`pending_sorted`].
    timers: Vec<OneshotTimer>,
    /// While `Some`, the unadjusted clock reading at which the context was
    /// suspended; no wake request is issued while suspended.
    suspended_since: Option<u64>,
    /// Accumulated milliseconds the context has spent suspended. The
    /// adjusted clock is the unadjusted clock minus this offset.
    suspension_offset: u64,
    /// Wake notifications carrying any other token are dropped. Bumped
    /// whenever the soonest-due record may have changed, so that a
    /// superseded wake request can never fire callbacks.
    expected_event_id: u64,
}

impl OneshotTimers {
    /// The pending one-shot records, soonest-due last.
    pub closed spec fn pending(self) -> Seq<OneshotTimer> {
        self.timers@
    }

    /// The handle the next scheduled one-shot callback will get.
    pub closed spec fn next_handle(self) -> i32 {
        self.next_timer_handle
    }

    /// The token the next accepted wake notification must carry.
    pub closed spec fn event_id(self) -> u64 {
        self.expected_event_id
    }

    /// The unadjusted clock reading at which the context was suspended, if
    /// it currently is.
    pub closed spec fn suspended(self) -> Option<u64> {
        self.suspended_since
    }

    /// Accumulated milliseconds spent suspended.
    pub closed spec fn offset(self) -> u64 {
        self.suspension_offset
    }

    /// The interval layer owned by this registry.
    pub closed spec fn js(self) -> JsTimers {
        self.js_timers
    }

    /// The registry's adjusted clock, given an unadjusted reading `now`:
    /// frozen at the suspension point while suspended, else `now` minus the
    /// accumulated suspension offset.
    pub open spec fn base_time_spec(self, now: u64) -> int {
        match self.suspended() {
            Some(since) => since - self.offset(),
            None => now - self.offset(),
        }
    }

    pub open spec fn wf(self) -> bool {
        &&& pending_sorted(self.pending())
        &&& (forall|i: int|
            0 <= i < self.pending().len()
                ==> 1 <= (#[trigger] self.pending()[i]).handle.0 < self.next_handle())
        &&& (forall|i: int, j: int|
            0 <= i < j < self.pending().len()
                ==> (#[trigger] self.pending()[i]).handle.0 != (#[trigger] self.pending()[j]).handle.0)
        &&& self.next_handle() >= 1
        &&& (self.suspended() matches Some(since) ==> since >= self.offset())
        &&& self.js().wf()
    }

    /// A fresh registry: nothing pending, handles starting at 1, not
    /// suspended, token 0, and a fresh interval layer.
    pub fn new() -> (timers: OneshotTimers)
        ensures
            timers.wf(),
            timers.pending() == Seq::<OneshotTimer>::empty(),
            timers.next_handle() == 1,
            timers.event_id() == 0,
            timers.suspended() is None,
            timers.offset() == 0,
            timers.js().next_handle() == 1,
            timers.js().active() == Map::<i32, JsTimerEntry>::empty(),
            timers.js().nesting() == 0,
            timers.js().min_dur() is None,
    {
        let timers = OneshotTimers {
            js_timers: JsTimers::new(),
            next_timer_handle: 1,
            timers: Vec::new(),
            suspended_since: None,
            suspension_offset: 0,
            expected_event_id: 0,
        };
        proof {
            assert(timers.pending() =~= Seq::<OneshotTimer>::empty());
        }
        timers
    }

    /// The handle of the record that will fire next: the pending record
    /// with the numerically smallest due time, ties broken by the smallest
    /// handle. `None` exactly when nothing is pending.
    pub fn soonest_due_handle(&self) -> (result: Option<OneshotTimerHandle>)
        requires
            self.wf(),
        ensures
            match result {
                None => self.pending().len() == 0,
                Some(handle) => {
                    &&& self.pending().len() > 0
                    &&& handle == self.pending().last().handle
                    &&& contains_handle(self.pending(), handle.0)
                    &&& forall|i: int|
                        0 <= i < self.pending().len() - 1
                            ==> fires_before(self.pending().last(), #[trigger] self.pending()[i])
                },
            },
    {
        if self.timers.len() == 0 {
            None
        } else {
            let soonest = self.timers[self.timers.len() - 1].handle;
            proof {
                let last = self.pending().len() - 1;
                assert(self.pending()[last].handle.0 == soonest.0);
            }
            Some(soonest)
        }
    }

    /// Whether the given handle names the soonest-due pending record.
    fn is_next_timer(&self, handle: OneshotTimerHandle) -> (result: bool)
        ensures
            result == (self.pending().len() > 0 && self.pending().last().handle.0 == handle.0),
    {
        if self.timers.len() == 0 {
            false
        } else {
            self.timers[self.timers.len() - 1].handle.0 == handle.0
        }
    }

    /// The adjusted clock: see [`Self::base_time_spec`].
    fn base_time(&self, now: u64) -> (base: u64)
        requires
            self.wf(),
            self.suspended() is None ==> now >= self.offset(),
        ensures
            base == self.base_time_spec(now),
    {
        match self.suspended_since {
            Some(since) => since - self.suspension_offset,
            None => now - self.suspension_offset,
        }
    }

    /// Bumps the expected token, so that every wake request issued so far
    /// becomes stale, and returns the new token.
    fn invalidate_expected_event_id(&mut self) -> (id: u64)
        requires
            old(self).event_id() < u64::MAX,
        ensures
            *final(self) == (OneshotTimers {
                expected_event_id: (old(self).event_id() + 1) as u64,
                ..*old(self)
            }),
            id == old(self).event_id() + 1,
    {
        self.expected_event_id = self.expected_event_id + 1;
        self.expected_event_id
    }

    /// Asks the external wake-up source for a wake when the soonest-due
    /// record is due: bumps the expected token (superseding every earlier
    /// request) and returns the request to send, carrying the new token
    /// and a non-negative delay. Returns nothing while suspended or while
    /// nothing is pending. The embedder must forward the returned request.
    pub fn schedule_timer_call(&mut self, now: u64) -> (request: Option<WakeRequest>)
        requires
            old(self).wf(),
            old(self).event_id() < u64::MAX,
        ensures
            final(self).wf(),
            final(self).pending() == old(self).pending(),
            final(self).next_handle() == old(self).next_handle(),
            final(self).suspended() == old(self).suspended(),
            final(self).offset() == old(self).offset(),
            final(self).js() == old(self).js(),
            old(self).suspended() is Some || old(self).pending().len() == 0 ==> {
                &&& request is None
                &&& final(self).event_id() == old(self).event_id()
            },
            old(self).suspended() is None && old(self).pending().len() > 0 ==> {
                &&& final(self).event_id() == old(self).event_id() + 1
                &&& request == Some(WakeRequest {
                    source: old(self).pending().last().source,
                    event_id: (old(self).event_id() + 1) as u64,
                    delay_ms: spec_delay(old(self).pending().last().scheduled_for, now),
                })
            },
    {
        if self.suspended_since.is_some() {
            // The request will be issued when the context is resumed.
            return None;
        }
        if self.timers.len() == 0 {
            return None;
        }
        let soonest_index = self.timers.len() - 1;
        let scheduled_for = self.timers[soonest_index].scheduled_for;
        let source = self.timers[soonest_index].source;
        let expected_event_id = self.invalidate_expected_event_id();
        let delay_ms = if scheduled_for >= now {
            scheduled_for - now
        } else {
            0
        };
        Some(WakeRequest { source, event_id: expected_event_id, delay_ms })
    }

    /// Compares two pending records by firing order; see [`fires_before`].
    fn fires_before_exec(a: &OneshotTimer, b: &OneshotTimer) -> (result: bool)
        ensures
            result == fires_before(*a, *b),
    {
        a.scheduled_for < b.scheduled_for || (a.scheduled_for == b.scheduled_for && a.handle.0
            < b.handle.0)
    }

    /// Adds a callback due `duration` milliseconds from now on the adjusted
    /// clock, under a fresh handle, and returns that handle. If the new
    /// record is now the soonest due — strictly sooner than everything that
    /// was pending — the current wake request is superseded and the request
    /// to send in its place is returned; a record that merely ties the
    /// soonest leaves the existing request in force.
    #[verifier::rlimit(60)]
    pub fn schedule_callback(
        &mut self,
        callback: OneshotTimerCallback,
        duration: u64,
        source: TimerSource,
        now: u64,
    ) -> (result: (OneshotTimerHandle, Option<WakeRequest>))
        requires
            old(self).wf(),
            old(self).next_handle() < i32::MAX,
            old(self).event_id() < u64::MAX,
            old(self).suspended() is None ==> now >= old(self).offset(),
            old(self).base_time_spec(now) + duration <= u64::MAX,
        ensures
            final(self).wf(),
            result.0 == OneshotTimerHandle(old(self).next_handle()),
            final(self).js() == old(self).js(),
            Self::schedule_effect(
                *old(self),
                *final(self),
                OneshotTimer {
                    handle: OneshotTimerHandle(old(self).next_handle()),
                    source,
                    callback,
                    scheduled_for: (old(self).base_time_spec(now) + duration) as u64,
                },
                now,
                result.1,
            ),
    {
        let new_handle = OneshotTimerHandle(self.next_timer_handle);
        self.next_timer_handle = self.next_timer_handle + 1;

        let base = self.base_time(now);
        let scheduled_for = base + duration;

        let timer = OneshotTimer { handle: new_handle, source, callback, scheduled_for };

        let ghost pre = self.timers@;
        let ghost snapshot = timer;

        let mut position: usize = self.timers.len();
        while position > 0 && Self::fires_before_exec(&self.timers[position - 1], &timer)
            invariant
                0 <= position <= self.timers@.len(),
                self.timers@ == pre,
                forall|k: int|
                    position <= k < pre.len() ==> fires_before(#[trigger] pre[k], snapshot),
                timer == snapshot,
            decreases position,
        {
            position = position - 1;
        }
        proof {
            // Every record left of the insertion point fires after the new
            // one: its immediate left neighbour does, and the collection is
            // sorted.
            assert(self.wf());
            if position > 0 {
                assert(!fires_before(pre[position - 1], snapshot));
                assert(pre[position - 1].handle.0 < snapshot.handle.0);
                assert(fires_before(snapshot, pre[position - 1]));
            }
            assert forall|k: int| 0 <= k < position implies fires_before(
                snapshot,
                #[trigger] pre[k],
            ) by {
                if k < position - 1 {
                    assert(fires_before(pre[position - 1], pre[k]));
                }
            }
        }
        let ghost position_ghost = position as int;
        self.timers.insert(position, timer);
        proof {
            assert(self.timers@ == pre.insert(position_ghost, snapshot));
            assert forall|i: int, j: int|
                0 <= i < j < self.timers@.len() implies fires_before(
                #[trigger] self.timers@[j],
                #[trigger] self.timers@[i],
            ) && (self.timers@[i]).handle.0 != (self.timers@[j]).handle.0 by {
                if i < position_ghost && j == position_ghost {
                    assert(self.timers@[i] == pre[i]);
                } else if i == position_ghost && j > position_ghost {
                    assert(self.timers@[j] == pre[j - 1]);
                } else if i < position_ghost && j > position_ghost {
                    assert(self.timers@[i] == pre[i] && self.timers@[j] == pre[j - 1]);
                    assert(fires_before(pre[j - 1], snapshot) && fires_before(snapshot, pre[i]));
                } else if j < position_ghost {
                    assert(self.timers@[i] == pre[i] && self.timers@[j] == pre[j]);
                } else {
                    assert(self.timers@[i] == pre[i - 1] && self.timers@[j] == pre[j - 1]);
                }
            }
            assert(self.timers@[position_ghost].handle.0 == new_handle.0);
            assert(contains_handle(self.timers@, new_handle.0));
            assert forall|h: i32| contains_handle(pre, h) implies contains_handle(
                self.timers@,
                h,
            ) by {
                let w = choose|w: int| 0 <= w < pre.len() && pre[w].handle.0 == h;
                if w < position_ghost {
                    assert(self.timers@[w].handle.0 == h);
                } else {
                    assert(self.timers@[w + 1].handle.0 == h);
                }
            }
            assert forall|h: i32| contains_handle(self.timers@, h) implies contains_handle(pre, h)
                || h == new_handle.0 by {
                let w = choose|w: int|
                    0 <= w < self.timers@.len() && self.timers@[w].handle.0 == h;
                if w < position_ghost {
                    assert(pre[w].handle.0 == h);
                } else if w > position_ghost {
                    assert(pre[w - 1].handle.0 == h);
                }
            }
        }

        let request = if self.is_next_timer(new_handle) {
            proof {
                // The new record sits at the end, so it fires before every
                // record that was already pending.
                assert(position_ghost == pre.len()) by {
                    if position_ghost < pre.len() {
                        assert(self.timers@.last() == pre[pre.len() - 1]);
                        assert(pre[pre.len() - 1].handle.0 < snapshot.handle.0);
                    }
                };
            }
            self.schedule_timer_call(now)
        } else {
            proof {
                if position_ghost == pre.len() {
                    assert(self.timers@.last() == snapshot);
                }
                assert(exists|i: int|
                    0 <= i < pre.len() && !fires_before(snapshot, #[trigger] pre[i])) by {
                    assert(!fires_before(snapshot, pre[pre.len() - 1]));
                }
            }
            None
        };
        (new_handle, request)
    }

    /// Removes the record with the given handle; doing so again, or with a
    /// handle that was never scheduled, is a no-op. If the removed record
    /// was the soonest due, the outstanding wake request is superseded and,
    /// unless the context is suspended or nothing is left pending, the
    /// request to send for the new soonest-due record is returned.
    pub fn unschedule_callback(
        &mut self,
        handle: OneshotTimerHandle,
        now: u64,
    ) -> (request: Option<WakeRequest>)
        requires
            old(self).wf(),
            old(self).event_id() + 2 <= u64::MAX,
        ensures
            final(self).wf(),
            final(self).js() == old(self).js(),
            Self::unschedule_effect(*old(self), *final(self), handle.0, now, request),
    {
        let was_next = self.is_next_timer(handle);

        let ghost pre = self.timers@;
        let mut index: usize = 0;
        while index < self.timers.len() && self.timers[index].handle.0 != handle.0
            invariant
                0 <= index <= self.timers@.len(),
                self.timers@ == pre,
                forall|k: int| 0 <= k < index ==> (#[trigger] pre[k]).handle.0 != handle.0,
            decreases self.timers@.len() - index,
        {
            index = index + 1;
        }

        if index < self.timers.len() {
            let ghost index_ghost = index as int;
            self.timers.remove(index);
            proof {
                assert(contains_handle(pre, handle.0)) by {
                    assert(pre[index_ghost].handle.0 == handle.0);
                }
                assert(self.timers@ == pre.remove(index_ghost));
                assert forall|i: int, j: int|
                    0 <= i < j < self.timers@.len() implies fires_before(
                    #[trigger] self.timers@[j],
                    #[trigger] self.timers@[i],
                ) && (self.timers@[i]).handle.0 != (self.timers@[j]).handle.0 by {
                    let pi = if i < index_ghost {
                        i
                    } else {
                        i + 1
                    };
                    let pj = if j < index_ghost {
                        j
                    } else {
                        j + 1
                    };
                    assert(self.timers@[i] == pre[pi] && self.timers@[j] == pre[pj]);
                }
                assert(!contains_handle(self.timers@, handle.0)) by {
                    if contains_handle(self.timers@, handle.0) {
                        let w = choose|w: int|
                            0 <= w < self.timers@.len() && (#[trigger] self.timers@[w]).handle.0
                                == handle.0;
                        let pw = if w < index_ghost {
                            w
                        } else {
                            w + 1
                        };
                        assert(pre[pw].handle.0 == handle.0);
                    }
                }
                if was_next {
                    // Only one record carries the handle, so the match the
                    // scan found is the last record itself.
                    assert(index_ghost == pre.len() - 1) by {
                        if index_ghost < pre.len() - 1 {
                            assert(pre[index_ghost].handle.0 == pre[pre.len() - 1].handle.0);
                        }
                    }
                    assert(self.timers@ =~= pre.drop_last());
                }
            }
        } else {
            proof {
                assert(!contains_handle(pre, handle.0)) by {
                    if contains_handle(pre, handle.0) {
                        let w = choose|w: int|
                            0 <= w < pre.len() && (#[trigger] pre[w]).handle.0 == handle.0;
                        assert(pre[w].handle.0 != handle.0);
                    }
                }
            }
        }

        if was_next {
            let _superseded = self.invalidate_expected_event_id();
            self.schedule_timer_call(now)
        } else {
            None
        }
    }

    /// Handles a wake notification carrying the token `id`, read against
    /// the unadjusted clock reading `now`. A stale token — anything other
    /// than the expected one — is dropped without touching any state, as is
    /// a notification arriving while suspended. Otherwise every record
    /// whose due time has been reached is removed from the pending
    /// collection and returned in firing order: ascending due time, ties
    /// broken by ascending handle.
    ///
    /// An accepted wake that pops nothing while records remain pending —
    /// it arrived early, as it does whenever the suspension offset has
    /// grown since the request was computed — completes its (empty) batch
    /// on the spot: the token is bumped and the request for the still
    /// soonest-due record is returned, so the wake-request chain re-polls
    /// until the record is really due. With nothing pending, or on a stale
    /// or suspended wake, no request is returned.
    ///
    /// The caller runs the returned batch: callbacks of the interval layer
    /// are bracketed between [`Self::begin_invoke`] and
    /// [`Self::finish_invoke`], and callbacks scheduled while the batch
    /// runs go to the live collection, never into this batch. After a
    /// nonempty batch has been invoked in full the caller must ask for the
    /// next wake via [`Self::schedule_timer_call`] — only the callbacks
    /// know what is soonest-due by then; if the execution environment
    /// signals shutdown mid-batch, the rest of the batch and the new wake
    /// request are abandoned.
    pub fn fire_timer(&mut self, id: u64, now: u64) -> (result: (
        Vec<OneshotTimer>,
        Option<WakeRequest>,
    ))
        requires
            old(self).wf(),
            old(self).event_id() < u64::MAX,
            old(self).suspended() is None ==> now >= old(self).offset(),
        ensures
            final(self).wf(),
            final(self).next_handle() == old(self).next_handle(),
            final(self).suspended() == old(self).suspended(),
            final(self).offset() == old(self).offset(),
            final(self).js() == old(self).js(),
            id != old(self).event_id() ==> {
                &&& final(self).pending() == old(self).pending()
                &&& final(self).event_id() == old(self).event_id()
                &&& result.0@.len() == 0
                &&& result.1 is None
            },
            old(self).suspended() is Some ==> {
                &&& final(self).pending() == old(self).pending()
                &&& final(self).event_id() == old(self).event_id()
                &&& result.0@.len() == 0
                &&& result.1 is None
            },
            id == old(self).event_id() && old(self).suspended() is None ==> {
                let base = old(self).base_time_spec(now);
                let batch = result.0@;
                &&& batch_split(old(self).pending(), final(self).pending(), batch)
                &&& forall|j: int| 0 <= j < batch.len() ==> (#[trigger] batch[j]).scheduled_for <= base
                &&& forall|i: int|
                    0 <= i < final(self).pending().len()
                        ==> (#[trigger] final(self).pending()[i]).scheduled_for > base
                &&& forall|i: int, j: int|
                    0 <= i < j < batch.len() ==> fires_before(
                        #[trigger] batch[i],
                        #[trigger] batch[j],
                    )
                &&& batch.len() == 0 && old(self).pending().len() > 0 ==> {
                    &&& final(self).event_id() == old(self).event_id() + 1
                    &&& result.1 == Some(WakeRequest {
                        source: old(self).pending().last().source,
                        event_id: (old(self).event_id() + 1) as u64,
                        delay_ms: spec_delay(old(self).pending().last().scheduled_for, now),
                    })
                }
                &&& !(batch.len() == 0 && old(self).pending().len() > 0) ==> {
                    &&& final(self).event_id() == old(self).event_id()
                    &&& result.1 is None
                }
            },
    {
        if id != self.expected_event_id {
            // A wake request superseded by a later insert, cancellation or
            // suspension: drop it.
            return (Vec::new(), None);
        }
        if self.suspended_since.is_some() {
            // A wake claiming to be current while suspended: abandon the
            // firing pass, the state stays as it is.
            return (Vec::new(), None);
        }

        let base = self.base_time(now);
        let ghost pre = self.timers@;
        let ghost orig = *self;

        let mut batch: Vec<OneshotTimer> = Vec::new();
        while self.timers.len() > 0 && self.timers[self.timers.len() - 1].scheduled_for <= base
            invariant
                orig.wf(),
                self.next_timer_handle == orig.next_timer_handle,
                self.expected_event_id == orig.expected_event_id,
                self.suspended_since == orig.suspended_since,
                self.suspension_offset == orig.suspension_offset,
                self.js_timers == orig.js_timers,
                pre == orig.timers@,
                pre.len() == self.timers@.len() + batch@.len(),
                forall|i: int| 0 <= i < self.timers@.len() ==> #[trigger] self.timers@[i] == pre[i],
                forall|j: int|
                    0 <= j < batch@.len() ==> #[trigger] batch@[j] == pre[pre.len() - 1 - j]
                        && batch@[j].scheduled_for <= base,
            decreases self.timers@.len(),
        {
            let timer = self.timers.pop().unwrap();
            batch.push(timer);
        }
        proof {
            assert(pending_sorted(pre));
            assert forall|i: int|
                0 <= i < self.timers@.len() implies (#[trigger] self.timers@[i]).scheduled_for
                > base by {
                let n = self.timers@.len();
                if i < n - 1 {
                    assert(fires_before(pre[n - 1], pre[i]));
                }
                assert(self.timers@[n - 1].scheduled_for > base);
            }
            assert forall|i: int, j: int|
                0 <= i < j < batch@.len() implies fires_before(
                #[trigger] batch@[i],
                #[trigger] batch@[j],
            ) by {
                assert(batch@[i] == pre[pre.len() - 1 - i] && batch@[j] == pre[pre.len() - 1 - j]);
                assert(fires_before(pre[pre.len() - 1 - i], pre[pre.len() - 1 - j]));
            }
            assert(self.wf());
        }
        let request = if batch.len() == 0 {
            // The wake was current but arrived before anything was due:
            // complete the (empty) batch by re-requesting for whatever is
            // still soonest-due.
            proof {
                assert(self.timers@ =~= pre);
            }
            self.schedule_timer_call(now)
        } else {
            None
        };
        (batch, request)
    }

    /// Stops the clock: remembers the unadjusted reading `now` and makes
    /// every outstanding wake request stale, so that nothing fires while
    /// suspended. Suspending an already suspended registry is a no-op.
    pub fn suspend(&mut self, now: u64)
        requires
            old(self).wf(),
            old(self).event_id() < u64::MAX,
            now >= old(self).offset(),
        ensures
            final(self).wf(),
            final(self).pending() == old(self).pending(),
            final(self).next_handle() == old(self).next_handle(),
            final(self).offset() == old(self).offset(),
            final(self).js() == old(self).js(),
            old(self).suspended() is Some ==> {
                &&& final(self).suspended() == old(self).suspended()
                &&& final(self).event_id() == old(self).event_id()
            },
            old(self).suspended() is None ==> {
                &&& final(self).suspended() == Some(now)
                &&& final(self).event_id() == old(self).event_id() + 1
            },
    {
        if self.suspended_since.is_some() {
            return;
        }
        self.suspended_since = Some(now);
        let _superseded = self.invalidate_expected_event_id();
    }

    /// Restarts the clock: adds the time spent suspended to the suspension
    /// offset — so every pending due time moves that much further into the
    /// future on the unadjusted clock — and returns the wake request for
    /// the soonest-due record, if any is pending. Resuming a registry that
    /// is not suspended is a no-op.
    pub fn resume(&mut self, now: u64) -> (request: Option<WakeRequest>)
        requires
            old(self).wf(),
            old(self).event_id() < u64::MAX,
            old(self).suspended() matches Some(since) ==> now >= since,
        ensures
            final(self).wf(),
            final(self).pending() == old(self).pending(),
            final(self).next_handle() == old(self).next_handle(),
            final(self).js() == old(self).js(),
            final(self).suspended() is None,
            old(self).suspended() is None ==> {
                &&& final(self).offset() == old(self).offset()
                &&& final(self).event_id() == old(self).event_id()
                &&& request is None
            },
            old(self).suspended() matches Some(since) ==> {
                &&& final(self).offset() == old(self).offset() + (now - since)
                &&& old(self).pending().len() == 0 ==> {
                    &&& final(self).event_id() == old(self).event_id()
                    &&& request is None
                }
                &&& old(self).pending().len() > 0 ==> {
                    &&& final(self).event_id() == old(self).event_id() + 1
                    &&& request == Some(WakeRequest {
                        source: old(self).pending().last().source,
                        event_id: (old(self).event_id() + 1) as u64,
                        delay_ms: spec_delay(old(self).pending().last().scheduled_for, now),
                    })
                }
            },
    {
        let since = match self.suspended_since {
            Some(since) => since,
            None => {
                return None;
            },
        };
        let additional_offset = now - since;
        self.suspension_offset = self.suspension_offset + additional_offset;
        self.suspended_since = None;
        self.schedule_timer_call(now)
    }

    /// The pending record that arming `task` on the registry `pre` creates:
    /// due after the task's effective duration on the adjusted clock, and
    /// carrying the task with its nesting level moved one past the current
    /// one, so that scheduling calls nested inside the coming invocation
    /// count their depth.
    pub open spec fn spec_armed_timer(pre: OneshotTimers, task: JsTimerTask, now: u64) -> OneshotTimer {
        OneshotTimer {
            handle: OneshotTimerHandle(pre.next_handle()),
            source: task.source,
            callback: OneshotTimerCallback::JsTimer(
                JsTimerTask { nesting_level: (pre.js().nesting() + 1) as u32, ..task },
            ),
            scheduled_for: (pre.base_time_spec(now) + spec_effective_duration(
                pre.js().min_dur(),
                task,
            )) as u64,
        }
    }

    /// Arms `task`: applies the nesting clamp and the minimum-duration
    /// throttle to the requested duration, schedules the wrapped task as a
    /// one-shot callback, and points the task's interval entry at the
    /// returned one-shot handle — creating the entry on first arming,
    /// overwriting it on a re-arm.
    fn initialize_and_schedule(&mut self, task: JsTimerTask, now: u64) -> (request: Option<
        WakeRequest,
    >)
        requires
            old(self).wf(),
            old(self).next_handle() < i32::MAX,
            old(self).event_id() < u64::MAX,
            old(self).js().nesting() < u32::MAX,
            old(self).suspended() is None ==> now >= old(self).offset(),
            old(self).base_time_spec(now) + spec_effective_duration(
                old(self).js().min_dur(),
                task,
            ) <= u64::MAX,
        ensures
            final(self).wf(),
            final(self).js().next_handle() == old(self).js().next_handle(),
            final(self).js().nesting() == old(self).js().nesting(),
            final(self).js().min_dur() == old(self).js().min_dur(),
            final(self).js().active() == old(self).js().active().insert(
                task.handle.0,
                JsTimerEntry { oneshot_handle: OneshotTimerHandle(old(self).next_handle()) },
            ),
            Self::schedule_effect(
                *old(self),
                *final(self),
                Self::spec_armed_timer(*old(self), task, now),
                now,
                request,
            ),
    {
        let handle = task.handle;
        let source = task.source;

        let floor: u64 = if task.nesting_level > NESTING_CLAMP_THRESHOLD {
            NESTING_CLAMP_FLOOR_MS
        } else {
            0
        };
        let mut duration = if task.duration >= floor {
            task.duration
        } else {
            floor
        };
        match self.js_timers.min_duration {
            Some(min) => {
                if duration < min {
                    duration = min;
                }
            },
            None => {},
        }
        proof {
            assert(duration == spec_effective_duration(self.js_timers.min_duration, task));
        }

        let mut armed = task;
        armed.nesting_level = self.js_timers.nesting_level + 1;

        let (oneshot_handle, request) = self.schedule_callback(
            OneshotTimerCallback::JsTimer(armed),
            duration,
            source,
            now,
        );

        self.js_timers.active_timers.insert(handle.0, JsTimerEntry { oneshot_handle });
        request
    }

    /// Schedules a timer of the interval layer — the `setTimeout` /
    /// `setInterval` entry point — and returns its fresh, stable handle
    /// together with the wake request to forward, if the new timer is now
    /// the soonest due. A negative timeout counts as zero; the duration
    /// actually armed is the requested one raised to the nesting clamp
    /// floor and the minimum-duration throttle.
    pub fn set_timeout_or_interval(
        &mut self,
        callback: TimerCallback,
        arguments: Vec<u64>,
        timeout: i32,
        is_interval: IsInterval,
        source: TimerSource,
        now: u64,
        is_user_interacting: bool,
    ) -> (result: (i32, Option<WakeRequest>))
        requires
            old(self).wf(),
            old(self).js().next_handle() < i32::MAX,
            old(self).next_handle() < i32::MAX,
            old(self).event_id() < u64::MAX,
            old(self).js().nesting() < u32::MAX,
            old(self).suspended() is None ==> now >= old(self).offset(),
            old(self).base_time_spec(now) + spec_effective_duration(
                old(self).js().min_dur(),
                spec_new_task(
                    old(self).js(),
                    callback,
                    arguments,
                    timeout,
                    is_interval,
                    source,
                    is_user_interacting,
                ),
            ) <= u64::MAX,
        ensures
            final(self).wf(),
            result.0 == old(self).js().next_handle(),
            final(self).js().next_handle() == old(self).js().next_handle() + 1,
            final(self).js().nesting() == old(self).js().nesting(),
            final(self).js().min_dur() == old(self).js().min_dur(),
            final(self).js().active() == old(self).js().active().insert(
                old(self).js().next_handle(),
                JsTimerEntry { oneshot_handle: OneshotTimerHandle(old(self).next_handle()) },
            ),
            Self::schedule_effect(
                *old(self),
                *final(self),
                Self::spec_armed_timer(
                    *old(self),
                    spec_new_task(
                        old(self).js(),
                        callback,
                        arguments,
                        timeout,
                        is_interval,
                        source,
                        is_user_interacting,
                    ),
                    now,
                ),
                now,
                result.1,
            ),
    {
        let internal = match callback {
            TimerCallback::StringTimerCallback(code) => InternalTimerCallback::StringTimerCallback(
                code,
            ),
            TimerCallback::FunctionTimerCallback(function) => InternalTimerCallback::FunctionTimerCallback(
                function,
                arguments,
            ),
        };

        let new_handle = self.js_timers.next_timer_handle;
        self.js_timers.next_timer_handle = new_handle + 1;

        let duration: u64 = if timeout >= 0 {
            timeout as u64
        } else {
            0
        };

        let task = JsTimerTask {
            handle: JsTimerHandle(new_handle),
            source,
            callback: internal,
            is_interval,
            nesting_level: self.js_timers.nesting_level,
            duration,
            is_user_interacting,
        };

        let request = self.initialize_and_schedule(task, now);
        (new_handle, request)
    }

    /// Cancels the interval-layer timer with the given handle: removes its
    /// entry and unschedules the one-shot callback that currently stands
    /// for its next firing. Clearing an unknown or already cleared handle
    /// is a no-op. Once this returns, the timer's callback can never fire
    /// again.
    pub fn clear_timeout_or_interval(&mut self, handle: i32, now: u64) -> (request: Option<
        WakeRequest,
    >)
        requires
            old(self).wf(),
            old(self).event_id() + 2 <= u64::MAX,
        ensures
            final(self).wf(),
            final(self).js().active() == old(self).js().active().remove(handle),
            final(self).js().next_handle() == old(self).js().next_handle(),
            final(self).js().nesting() == old(self).js().nesting(),
            final(self).js().min_dur() == old(self).js().min_dur(),
            !old(self).js().active().contains_key(handle) ==> {
                &&& final(self).pending() == old(self).pending()
                &&& final(self).event_id() == old(self).event_id()
                &&& final(self).next_handle() == old(self).next_handle()
                &&& final(self).suspended() == old(self).suspended()
                &&& final(self).offset() == old(self).offset()
                &&& request is None
            },
            old(self).js().active().contains_key(handle) ==> Self::unschedule_effect(
                *old(self),
                *final(self),
                old(self).js().active()[handle].oneshot_handle.0,
                now,
                request,
            ),
    {
        let entry = self.js_timers.active_timers.remove(&handle);
        match entry {
            Some(entry) => self.unschedule_callback(entry.oneshot_handle, now),
            None => None,
        }
    }

    /// Brackets the start of one interval-layer callback invocation: makes
    /// the task's nesting level current, so that scheduling calls the
    /// callback makes count their depth from there. The execution
    /// environment then runs the callback body, and
    /// [`Self::finish_invoke`] closes the bracket.
    pub fn begin_invoke(&mut self, task: &JsTimerTask)
        requires
            old(self).wf(),
        ensures
            final(self).wf(),
            final(self).js().nesting() == task.nesting_level,
            final(self).js().next_handle() == old(self).js().next_handle(),
            final(self).js().active() == old(self).js().active(),
            final(self).js().min_dur() == old(self).js().min_dur(),
            final(self).pending() == old(self).pending(),
            final(self).next_handle() == old(self).next_handle(),
            final(self).event_id() == old(self).event_id(),
            final(self).suspended() == old(self).suspended(),
            final(self).offset() == old(self).offset(),
    {
        self.js_timers.nesting_level = task.nesting_level;
    }

    /// Brackets the end of one interval-layer callback invocation: resets
    /// the nesting level, and — when the task repeats and its handle is
    /// still live, so its own callback did not clear it — re-arms it with
    /// the originally requested duration, pointing its entry at the fresh
    /// one-shot handle. A task whose handle was cleared, by its own
    /// callback or earlier, is never re-armed.
    pub fn finish_invoke(&mut self, task: JsTimerTask, now: u64) -> (request: Option<WakeRequest>)
        requires
            old(self).wf(),
            spec_rearms(old(self).js().active(), task) ==> {
                &&& old(self).next_handle() < i32::MAX
                &&& old(self).event_id() < u64::MAX
                &&& (old(self).suspended() is None ==> now >= old(self).offset())
                &&& old(self).base_time_spec(now) + spec_effective_duration(
                    old(self).js().min_dur(),
                    task,
                ) <= u64::MAX
            },
        ensures
            final(self).wf(),
            final(self).js().nesting() == 0,
            final(self).js().next_handle() == old(self).js().next_handle(),
            final(self).js().min_dur() == old(self).js().min_dur(),
            !spec_rearms(old(self).js().active(), task) ==> {
                &&& final(self).js().active() == old(self).js().active()
                &&& final(self).pending() == old(self).pending()
                &&& final(self).event_id() == old(self).event_id()
                &&& final(self).next_handle() == old(self).next_handle()
                &&& final(self).suspended() == old(self).suspended()
                &&& final(self).offset() == old(self).offset()
                &&& request is None
            },
            spec_rearms(old(self).js().active(), task) ==> {
                &&& final(self).js().active() == old(self).js().active().insert(
                    task.handle.0,
                    JsTimerEntry { oneshot_handle: OneshotTimerHandle(old(self).next_handle()) },
                )
                &&& Self::schedule_effect(
                    *old(self),
                    *final(self),
                    OneshotTimer {
                        handle: OneshotTimerHandle(old(self).next_handle()),
                        source: task.source,
                        callback: OneshotTimerCallback::JsTimer(
                            JsTimerTask { nesting_level: 1u32, ..task },
                        ),
                        scheduled_for: (old(self).base_time_spec(now) + spec_effective_duration(
                            old(self).js().min_dur(),
                            task,
                        )) as u64,
                    },
                    now,
                    request,
                )
            },
    {
        self.js_timers.nesting_level = 0;

        let repeats = match task.is_interval {
            IsInterval::Interval => true,
            IsInterval::NonInterval => false,
        };
        if repeats && self.js_timers.active_timers.contains_key(&task.handle.0) {
            self.initialize_and_schedule(task, now)
        } else {
            None
        }
    }

    /// Installs the interval layer's minimum-duration throttle, applied to
    /// every arming from now on.
    pub fn slow_down(&mut self, minimum_duration_ms: u64)
        requires
            old(self).wf(),
        ensures
            final(self).wf(),
            final(self).js().min_dur() == Some(minimum_duration_ms),
            final(self).js().next_handle() == old(self).js().next_handle(),
            final(self).js().active() == old(self).js().active(),
            final(self).js().nesting() == old(self).js().nesting(),
            final(self).pending() == old(self).pending(),
            final(self).next_handle() == old(self).next_handle(),
            final(self).event_id() == old(self).event_id(),
            final(self).suspended() == old(self).suspended(),
            final(self).offset() == old(self).offset(),
    {
        self.js_timers.set_min_duration(minimum_duration_ms);
    }

    /// Removes the interval layer's minimum-duration throttle.
    pub fn speed_up(&mut self)
        requires
            old(self).wf(),
        ensures
            final(self).wf(),
            final(self).js().min_dur() is None,
            final(self).js().next_handle() == old(self).js().next_handle(),
            final(self).js().active() == old(self).js().active(),
            final(self).js().nesting() == old(self).js().nesting(),
            final(self).pending() == old(self).pending(),
            final(self).next_handle() == old(self).next_handle(),
            final(self).event_id() == old(self).event_id(),
            final(self).suspended() == old(self).suspended(),
            final(self).offset() == old(self).offset(),
    {
        self.js_timers.remove_min_duration();
    }

    /// How many one-shot records are pending.
    pub fn pending_count(&self) -> (count: usize)
        ensures
            count == self.pending().len(),
    {
        self.timers.len()
    }

    /// The token the next accepted wake notification must carry.
    pub fn expected_event_id_value(&self) -> (id: u64)
        ensures
            id == self.event_id(),
    {
        self.expected_event_id
    }

    /// The handle the next one-shot callback will get.
    pub fn next_oneshot_handle_value(&self) -> (handle: i32)
        ensures
            handle == self.next_handle(),
    {
        self.next_timer_handle
    }

    /// The handle the next interval-layer timer will get.
    pub fn next_interval_handle_value(&self) -> (handle: i32)
        ensures
            handle == self.js().next_handle(),
    {
        self.js_timers.next_timer_handle
    }

    /// The nesting level of the interval-layer callback currently running.
    pub fn nesting_level_value(&self) -> (level: u32)
        ensures
            level == self.js().nesting(),
    {
        self.js_timers.nesting_level
    }

    /// Accumulated milliseconds the context has spent suspended.
    pub fn suspension_offset_value(&self) -> (offset: u64)
        ensures
            offset == self.offset(),
    {
        self.suspension_offset
    }

    /// The unadjusted reading at which the context was suspended, if it
    /// currently is.
    pub fn suspended_since_value(&self) -> (since: Option<u64>)
        ensures
            since == self.suspended(),
    {
        self.suspended_since
    }

    /// The interval layer's minimum-duration throttle, if one is set.
    pub fn min_duration_value(&self) -> (duration: Option<u64>)
        ensures
            duration == self.js().min_dur(),
    {
        self.js_timers.min_duration
    }
}

/// Law: suspending and later resuming shifts every subsequent firing later
/// by exactly the elapsed suspension. Suspending at `t0` and resuming at
/// `t0 + d` grows the suspension offset by exactly `d` — that is what
/// [`OneshotTimers::suspend`] and [`OneshotTimers::resume`] ensure — and
/// leaves the pending records untouched. This lemma closes the argument:
/// against the grown offset, the adjusted clock at reading `now + d` is
/// the adjusted clock the old offset gave at reading `now`, so the batch a
/// matching wake pops ([`OneshotTimers::fire_timer`] compares each due
/// time against `base_time_spec`) is the same, exactly `d` later.
pub proof fn lemma_time_warp(pre: OneshotTimers, post: OneshotTimers, d: u64, now: u64)
    requires
        pre.suspended() is None,
        post.suspended() is None,
        post.pending() == pre.pending(),
        post.offset() == pre.offset() + d,
        now + d <= u64::MAX,
    ensures
        post.base_time_spec((now + d) as u64) == pre.base_time_spec(now),
        forall|i: int|
            0 <= i < pre.pending().len() ==> ((#[trigger] pre.pending()[i]).scheduled_for
                <= pre.base_time_spec(now) <==> post.pending()[i].scheduled_for
                <= post.base_time_spec((now + d) as u64)),
{
}

/// Law: a cancelled callback can never fire. Once no pending record
/// carries the handle — which [`OneshotTimers::unschedule_callback`]
/// ensures, and which holds in particular while a wake request dispatched
/// for exactly that record is still in flight — no firing batch can
/// contain it, because a batch is drawn entirely from the pending records
/// the pass starts from.
pub proof fn lemma_cancelled_never_fires(
    pending_before: Seq<OneshotTimer>,
    pending_after: Seq<OneshotTimer>,
    batch: Seq<OneshotTimer>,
    handle: i32,
)
    requires
        !contains_handle(pending_before, handle),
        batch_split(pending_before, pending_after, batch),
    ensures
        forall|j: int| 0 <= j < batch.len() ==> (#[trigger] batch[j]).handle.0 != handle,
{
    assert forall|j: int| 0 <= j < batch.len() implies (#[trigger] batch[j]).handle.0
        != handle by {
        assert(batch[j] == pending_before[pending_before.len() - 1 - j]);
    }
}

/// Law: handles are never reused. In a well-formed registry every live
/// record's handle lies strictly below the allocation counter, so the
/// fresh handle the next schedule hands out is live nowhere — and since
/// every operation only moves the counter up, a handle that was ever
/// handed out can never come back.
pub proof fn lemma_fresh_handle_not_live(registry: OneshotTimers)
    requires
        registry.wf(),
    ensures
        !contains_handle(registry.pending(), registry.next_handle()),
{
}

/// Law: a repeating timer re-armed from inside its own callbacks at a
/// nesting depth beyond [`NESTING_CLAMP_THRESHOLD`] is always armed with
/// an effective duration of at least [`NESTING_CLAMP_FLOOR_MS`], however
/// small the duration it requested. Every arming schedules exactly the
/// effective duration (see [`OneshotTimers::spec_armed_timer`]), so this
/// bounds each of any number of re-armings, with or without a
/// minimum-duration throttle.
pub proof fn lemma_nesting_clamp(min_duration: Option<u64>, task: JsTimerTask)
    requires
        task.nesting_level > NESTING_CLAMP_THRESHOLD,
    ensures
        spec_effective_duration(min_duration, task) >= NESTING_CLAMP_FLOOR_MS,
        spec_effective_duration(min_duration, task) >= task.duration,
{
}

} // verus!
