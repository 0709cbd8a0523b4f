//! The session manager: backend lifecycle and the per-tick protocol.
//!
//! The manager never touches hardware itself. Each tick the surrounding
//! worker reads one settings snapshot and asks [`Session::plan`] what to do;
//! the answer is a [`Directive`] naming the one outside action owed: sleep,
//! release handles, try to acquire devices, or poll the held handles. The
//! worker performs the action and reports the outcome back through
//! [`Session::acquired`], [`Session::sample_ok`], [`Session::sample_failed`],
//! [`Session::device_lost`] or [`Session::init_failed`], each of which moves
//! the state machine and — for a successful sample — computes the pointer
//! delta to inject. Device handles are opaque tokens chosen by the worker;
//! the manager owns their lifecycle: it decides when they are acquired,
//! polled and released, and `released_total` counts every release it ever
//! ordered.

use crate::pipeline::{emit_spec, emit_view, raw_in_range, raw_view, tick_emit};
use crate::settings::{InputType, Settings};
use vstd::prelude::*;

verus! {

/// Pause while the pipeline is disabled.
pub const IDLE_BACKOFF_MS: u64 = 100;

/// Pause after a discovery attempt that found no usable device.
pub const DISCOVER_BACKOFF_MS: u64 = 250;

/// Pause after a failed read before the next retry.
pub const DEGRADED_BACKOFF_MS: u64 = 100;

/// Pause after the platform input subsystem failed to initialize.
pub const INIT_FAILURE_BACKOFF_MS: u64 = 1000;

/// Pause between two normal active ticks, bounding the polling rate.
pub const ACTIVE_TICK_PAUSE_MS: u64 = 1;

/// Where the session stands in the device lifecycle.
#[derive(Clone, Copy, Debug, PartialEq, Eq, Structural)]
pub enum SessionState {
    /// Disabled by settings; nothing is held.
    Idle,
    /// No usable device acquired yet for the configured source.
    Discovering,
    /// Device(s) acquired, sampling normally.
    Active,
    /// The last read failed; retry next tick without teardown.
    Degraded,
    /// The input source changed; handles were just torn down.
    Reconfiguring,
}

/// The one outside action the worker owes this tick.
#[derive(Debug)]
pub enum Directive {
    /// Do nothing but wait before the next tick.
    Sleep { backoff_ms: u64 },
    /// Release every listed handle, then wait before the next tick.
    ReleaseAll { handles: Vec<u64>, backoff_ms: u64 },
    /// Try to discover and acquire up to `count` devices for the
    /// configured source, then report them through [`Session::acquired`].
    Acquire { count: usize },
    /// Poll each handle the session holds and report through
    /// [`Session::sample_ok`], [`Session::sample_failed`] or
    /// [`Session::device_lost`].
    Sample,
}

/// How many devices the configured source wants: one for the single-device
/// modes, two for the dual mode (which degrades to one when only one
/// answers).
pub open spec fn required_devices_spec(it: InputType) -> int {
    match it {
        InputType::XInput => 1,
        InputType::DirectInputSingle => 1,
        InputType::DirectInputDual => 2,
    }
}

/// Exact elapsed time one tick integrates over: the distance to the
/// previous tick's timestamp, and zero when the reference was reset or the
/// clock reports no progress.
pub open spec fn elapsed_spec(last_tick_us: Option<u64>, now_us: u64) -> int {
    match last_tick_us {
        Some(t) => if now_us >= t {
            now_us - t
        } else {
            0
        },
        None => 0,
    }
}

/// The session manager's whole mutable state.
pub struct Session {
    /// Lifecycle position.
    pub state: SessionState,
    /// The input source the held handles were acquired for.
    pub source: Option<InputType>,
    /// Opaque tokens of the currently acquired devices, in acquisition
    /// order.
    pub handles: Vec<u64>,
    /// Running count of release orders ever issued, one per handle.
    pub released_total: u64,
    /// Timestamp of the previous emitting tick; `None` after any reset, so
    /// the next tick integrates over zero elapsed time.
    pub last_tick_us: Option<u64>,
}

impl Session {
    /// A fresh session: idle, holding nothing.
    pub fn new() -> (r: Session)
        ensures
            r.state is Idle,
            r.source is None,
            r.handles@ =~= Seq::<u64>::empty(),
            r.released_total == 0,
            r.last_tick_us is None,
    {
        Session {
            state: SessionState::Idle,
            source: None,
            handles: Vec::new(),
            released_total: 0,
            last_tick_us: None,
        }
    }

    /// Decide the tick's action from the fresh settings snapshot.
    ///
    /// Disabling releases everything and idles. A changed input source
    /// tears every handle down — the directive lists exactly the handles
    /// the worker must release, none is retained, and no acquisition or
    /// sampling is ordered until a later tick. Otherwise the session
    /// acquires when it holds nothing and samples what it holds.
    pub fn plan(&mut self, s: &Settings) -> (d: Directive)
        requires
            old(self).released_total + old(self).handles@.len() <= u64::MAX,
        ensures
            !s.enabled ==> {
                &&& final(self).state is Idle
                &&& final(self).handles@.len() == 0
                &&& final(self).released_total == old(self).released_total + old(
                    self,
                ).handles@.len()
                &&& final(self).last_tick_us is None
                &&& final(self).source == old(self).source
                &&& d matches Directive::ReleaseAll { handles, backoff_ms } && handles@ == old(
                    self,
                ).handles@ && backoff_ms == IDLE_BACKOFF_MS
            },
            s.enabled && old(self).source != Some(s.input_type) ==> {
                &&& final(self).state is Reconfiguring
                &&& final(self).handles@.len() == 0
                &&& final(self).released_total == old(self).released_total + old(
                    self,
                ).handles@.len()
                &&& final(self).last_tick_us is None
                &&& final(self).source == Some(s.input_type)
                &&& d matches Directive::ReleaseAll { handles, backoff_ms } && handles@ == old(
                    self,
                ).handles@ && backoff_ms == 0
                &&& !(d is Acquire) && !(d is Sample)
            },
            s.enabled && old(self).source == Some(s.input_type) && old(self).handles@.len() == 0
                ==> {
                &&& final(self).state is Discovering
                &&& final(self).handles@ == old(self).handles@
                &&& final(self).released_total == old(self).released_total
                &&& final(self).last_tick_us is None
                &&& final(self).source == old(self).source
                &&& d matches Directive::Acquire { count } && count == required_devices_spec(
                    s.input_type,
                )
            },
            s.enabled && old(self).source == Some(s.input_type) && old(self).handles@.len() > 0
                ==> {
                &&& *final(self) == *old(self)
                &&& d is Sample
            },
    {
        if !s.enabled {
            self.state = SessionState::Idle;
            self.last_tick_us = None;
            let mut dropped: Vec<u64> = Vec::new();
            core::mem::swap(&mut self.handles, &mut dropped);
            self.released_total = self.released_total + dropped.len() as u64;
            return Directive::ReleaseAll { handles: dropped, backoff_ms: IDLE_BACKOFF_MS };
        }
        let source_changed = match self.source {
            Some(cur) => cur != s.input_type,
            None => true,
        };
        if source_changed {
            self.state = SessionState::Reconfiguring;
            self.source = Some(s.input_type);
            self.last_tick_us = None;
            let mut dropped: Vec<u64> = Vec::new();
            core::mem::swap(&mut self.handles, &mut dropped);
            self.released_total = self.released_total + dropped.len() as u64;
            return Directive::ReleaseAll { handles: dropped, backoff_ms: 0 };
        }
        if self.handles.len() == 0 {
            self.state = SessionState::Discovering;
            self.last_tick_us = None;
            return Directive::Acquire { count: required_devices(s.input_type) };
        }
        Directive::Sample
    }

    /// Report the outcome of an acquisition attempt.
    ///
    /// Any device at all puts the session in `Active` — the dual mode
    /// degrades to one device transparently — and sampling starts at once;
    /// the timing reference stays reset, so the first active tick
    /// integrates over zero elapsed time. An empty attempt keeps
    /// discovering after a backoff.
    pub fn acquired(&mut self, ids: Vec<u64>) -> (d: Directive)
        requires
            old(self).state is Discovering,
        ensures
            final(self).handles@ == old(self).handles@ + ids@,
            final(self).source == old(self).source,
            final(self).released_total == old(self).released_total,
            final(self).last_tick_us is None,
            ids@.len() > 0 ==> {
                &&& final(self).state is Active
                &&& d is Sample
            },
            ids@.len() == 0 ==> {
                &&& final(self).state is Discovering
                &&& d matches Directive::Sleep { backoff_ms } && backoff_ms == DISCOVER_BACKOFF_MS
            },
    {
        let got = ids.len();
        let mut ids = ids;
        self.handles.append(&mut ids);
        self.last_tick_us = None;
        if got > 0 {
            self.state = SessionState::Active;
            Directive::Sample
        } else {
            Directive::Sleep { backoff_ms: DISCOVER_BACKOFF_MS }
        }
    }

    /// Report that the platform input subsystem could not be initialized.
    /// Recoverable: discovery is retried after a long backoff.
    pub fn init_failed(&mut self) -> (d: Directive)
        requires
            old(self).state is Discovering,
        ensures
            final(self).state is Discovering,
            final(self).handles@ == old(self).handles@,
            final(self).source == old(self).source,
            final(self).released_total == old(self).released_total,
            final(self).last_tick_us is None,
            d matches Directive::Sleep { backoff_ms } && backoff_ms == INIT_FAILURE_BACKOFF_MS,
    {
        self.last_tick_us = None;
        Directive::Sleep { backoff_ms: INIT_FAILURE_BACKOFF_MS }
    }

    /// Report one failed read. No handle is torn down; the session turns
    /// `Degraded`, resets the timing reference so the backoff is not
    /// integrated later, and retries next tick.
    pub fn sample_failed(&mut self) -> (d: Directive)
        ensures
            final(self).state is Degraded,
            final(self).handles@ == old(self).handles@,
            final(self).source == old(self).source,
            final(self).released_total == old(self).released_total,
            final(self).last_tick_us is None,
            d matches Directive::Sleep { backoff_ms } && backoff_ms == DEGRADED_BACKOFF_MS,
    {
        self.state = SessionState::Degraded;
        self.last_tick_us = None;
        Directive::Sleep { backoff_ms: DEGRADED_BACKOFF_MS }
    }

    /// Report that an acquired device vanished for good (the indexed
    /// backend forgets its slot and searches again). Every handle is
    /// ordered released and discovery starts over.
    pub fn device_lost(&mut self) -> (d: Directive)
        requires
            old(self).released_total + old(self).handles@.len() <= u64::MAX,
        ensures
            final(self).state is Discovering,
            final(self).handles@.len() == 0,
            final(self).released_total == old(self).released_total + old(self).handles@.len(),
            final(self).source == old(self).source,
            final(self).last_tick_us is None,
            d matches Directive::ReleaseAll { handles, backoff_ms } && handles@ == old(
                self,
            ).handles@ && backoff_ms == DEGRADED_BACKOFF_MS,
    {
        self.state = SessionState::Discovering;
        self.last_tick_us = None;
        let mut dropped: Vec<u64> = Vec::new();
        core::mem::swap(&mut self.handles, &mut dropped);
        self.released_total = self.released_total + dropped.len() as u64;
        Directive::ReleaseAll { handles: dropped, backoff_ms: DEGRADED_BACKOFF_MS }
    }

    /// Report a successful sample and compute what to emit.
    ///
    /// Runs the whole pipeline over the reading(s) and the time elapsed
    /// since the previous emitting tick, records the new timestamp, and
    /// returns the pointer delta — or `None` when both components truncate
    /// to zero and no injection is owed.
    pub fn sample_ok(
        &mut self,
        s: &Settings,
        raw_a: (i32, i32),
        raw_b: Option<(i32, i32)>,
        now_us: u64,
    ) -> (r: Option<(i32, i32)>)
        requires
            s.well_formed(),
            raw_in_range((raw_a.0 as int, raw_a.1 as int)),
            raw_b matches Some(p) ==> raw_in_range((p.0 as int, p.1 as int)),
        ensures
            final(self).state is Active,
            final(self).handles@ == old(self).handles@,
            final(self).source == old(self).source,
            final(self).released_total == old(self).released_total,
            final(self).last_tick_us == Some(now_us),
            r == emit_view(
                emit_spec(
                    *s,
                    (raw_a.0 as int, raw_a.1 as int),
                    raw_view(raw_b),
                    elapsed_spec(old(self).last_tick_us, now_us),
                ),
            ),
    {
        let elapsed_us: u64 = match self.last_tick_us {
            Some(t) => if now_us >= t {
                now_us - t
            } else {
                0
            },
            None => 0,
        };
        self.state = SessionState::Active;
        self.last_tick_us = Some(now_us);
        tick_emit(s, raw_a, raw_b, elapsed_us)
    }
}

/// How many devices the configured source wants.
pub fn required_devices(it: InputType) -> (r: usize)
    ensures
        r == required_devices_spec(it),
{
    match it {
        InputType::XInput => 1,
        InputType::DirectInputSingle => 1,
        InputType::DirectInputDual => 2,
    }
}

} // verus!
