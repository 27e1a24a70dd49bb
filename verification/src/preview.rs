//! The decisions of the interactive front-end: when a debounced preview
//! render starts, at which size, and the one-render-at-a-time rule.
//! Times are milliseconds on a clock that the caller keeps.

use vstd::prelude::*;

verus! {

/// How long parameters must stay unchanged before an automatic preview starts.
pub const DEBOUNCE_MS: u64 = 420;

/// Bounds of the automatic preview's size.
pub const PREVIEW_MIN_W: u32 = 64;
pub const PREVIEW_MAX_W: u32 = 800;
pub const PREVIEW_MIN_H: u32 = 48;
pub const PREVIEW_MAX_H: u32 = 600;

/// What the front-end learns when it polls a running render.
#[derive(Clone, Copy, Debug, PartialEq, Eq, Structural)]
pub enum JobPoll {
    /// The render finished with an image.
    Finished,
    /// The render reported an error.
    Failed,
    /// The render is still running.
    Pending,
    /// The render thread went away without an answer.
    Disconnected,
}

/// The scheduling state of the front-end.
#[derive(Clone, Copy, Debug, PartialEq, Eq, Structural)]
pub struct PreviewScheduler {
    /// Automatic preview after parameter changes is on.
    pub auto_preview: bool,
    /// A render is running.
    pub job_running: bool,
    /// When a scheduled automatic preview may start.
    pub preview_after_ms: Option<u64>,
}

/// The state after the parameters were looked at, at time `now`:
/// with automatic preview on and changed parameters, a preview is scheduled
/// `DEBOUNCE_MS` later (any earlier schedule is replaced).
pub open spec fn spec_params_changed(s: PreviewScheduler, differs: bool, now: u64) -> PreviewScheduler {
    if s.auto_preview && differs {
        PreviewScheduler { preview_after_ms: Some((now + DEBOUNCE_MS) as u64), ..s }
    } else {
        s
    }
}

/// A scheduled automatic preview may start at `now`.
pub open spec fn spec_preview_due(s: PreviewScheduler, now: u64) -> bool {
    &&& s.auto_preview
    &&& !s.job_running
    &&& s.preview_after_ms matches Some(t) && now >= t
}

/// `v` clamped to `lo..=hi`.
pub open spec fn clamp_u32(v: u32, lo: u32, hi: u32) -> u32 {
    if v < lo {
        lo
    } else if v > hi {
        hi
    } else {
        v
    }
}

/// The size of an automatic preview for the requested preview size.
pub open spec fn spec_preview_size(w: u32, h: u32) -> (u32, u32) {
    (clamp_u32(w, PREVIEW_MIN_W, PREVIEW_MAX_W), clamp_u32(h, PREVIEW_MIN_H, PREVIEW_MAX_H))
}

/// The state after a due preview was taken: nothing is scheduled any more.
pub open spec fn spec_take_due(s: PreviewScheduler, now: u64) -> PreviewScheduler {
    if spec_preview_due(s, now) {
        PreviewScheduler { preview_after_ms: None, ..s }
    } else {
        s
    }
}

/// The state after the automatic-preview switch was set to `s.auto_preview`:
/// switched on, a preview is scheduled; switched off, any schedule is dropped.
pub open spec fn spec_auto_toggled(s: PreviewScheduler, now: u64) -> PreviewScheduler {
    if s.auto_preview {
        PreviewScheduler { preview_after_ms: Some((now + DEBOUNCE_MS) as u64), ..s }
    } else {
        PreviewScheduler { preview_after_ms: None, ..s }
    }
}

/// The state after a poll of the running render.
pub open spec fn spec_job_polled(s: PreviewScheduler, ev: JobPoll) -> PreviewScheduler {
    if s.job_running && ev != JobPoll::Pending {
        PreviewScheduler { job_running: false, ..s }
    } else {
        s
    }
}

impl PreviewScheduler {
    /// Automatic preview off, no render, nothing scheduled.
    pub fn new() -> (s: PreviewScheduler)
        ensures
            !s.auto_preview,
            !s.job_running,
            s.preview_after_ms is None,
    {
        PreviewScheduler { auto_preview: false, job_running: false, preview_after_ms: None }
    }

    /// Records that the parameters were looked at, at time `now_ms`;
    /// `differs` tells whether they differ from the ones last recorded.
    /// Returns whether the caller is to record the current parameters.
    pub fn params_changed(&mut self, differs: bool, now_ms: u64) -> (record: bool)
        requires
            now_ms + DEBOUNCE_MS <= u64::MAX,
        ensures
            *final(self) == spec_params_changed(*old(self), differs, now_ms),
            record == (old(self).auto_preview && differs),
            final(self).job_running == old(self).job_running,
            final(self).auto_preview == old(self).auto_preview,
            final(self).preview_after_ms == if old(self).auto_preview && differs {
                Some((now_ms + DEBOUNCE_MS) as u64)
            } else {
                old(self).preview_after_ms
            },
    {
        if !self.auto_preview {
            return false;
        }
        if differs {
            self.preview_after_ms = Some(now_ms + DEBOUNCE_MS);
            true
        } else {
            false
        }
    }

    /// Reacts to the automatic-preview switch having been set to
    /// `self.auto_preview`. Switched on, the caller forgets the recorded
    /// parameters and records the current ones, and a preview is scheduled.
    pub fn auto_preview_toggled(&mut self, now_ms: u64)
        requires
            now_ms + DEBOUNCE_MS <= u64::MAX,
        ensures
            *final(self) == spec_auto_toggled(*old(self), now_ms),
            final(self).job_running == old(self).job_running,
            final(self).auto_preview == old(self).auto_preview,
    {
        if self.auto_preview {
            self.preview_after_ms = Some(now_ms + DEBOUNCE_MS);
        } else {
            self.preview_after_ms = None;
        }
    }

    /// If a scheduled automatic preview is due at `now_ms`, drops the
    /// schedule and returns the size to render it at: the requested preview
    /// size, clamped to the preview bounds.
    pub fn take_due_preview(&mut self, now_ms: u64, preview_w: u32, preview_h: u32) -> (size:
        Option<(u32, u32)>)
        ensures
            *final(self) == spec_take_due(*old(self), now_ms),
            size is Some <==> spec_preview_due(*old(self), now_ms),
            size matches Some(wh) ==> wh == spec_preview_size(preview_w, preview_h),
            final(self).job_running == old(self).job_running,
            final(self).auto_preview == old(self).auto_preview,
            size is Some ==> final(self).preview_after_ms is None,
            size is None ==> final(self).preview_after_ms == old(self).preview_after_ms,
    {
        if !self.auto_preview || self.job_running {
            return None;
        }
        let t = match self.preview_after_ms {
            None => {
                return None;
            },
            Some(t) => t,
        };
        if now_ms < t {
            return None;
        }
        self.preview_after_ms = None;
        let w = if preview_w < PREVIEW_MIN_W {
            PREVIEW_MIN_W
        } else if preview_w > PREVIEW_MAX_W {
            PREVIEW_MAX_W
        } else {
            preview_w
        };
        let h = if preview_h < PREVIEW_MIN_H {
            PREVIEW_MIN_H
        } else if preview_h > PREVIEW_MAX_H {
            PREVIEW_MAX_H
        } else {
            preview_h
        };
        Some((w, h))
    }

    /// Starts a render unless one is running; returns whether it started.
    pub fn begin_job(&mut self) -> (started: bool)
        ensures
            started == !old(self).job_running,
            *final(self) == (PreviewScheduler { job_running: true, ..*old(self) }),
    {
        if self.job_running {
            false
        } else {
            self.job_running = true;
            true
        }
    }

    /// Records what a poll of the running render gave. Returns whether the
    /// front-end is to poll again soon (the render is still running).
    pub fn job_polled(&mut self, ev: JobPoll) -> (poll_again: bool)
        ensures
            *final(self) == spec_job_polled(*old(self), ev),
            poll_again == (old(self).job_running && ev == JobPoll::Pending),
            final(self).job_running == (old(self).job_running && ev == JobPoll::Pending),
            final(self).auto_preview == old(self).auto_preview,
            final(self).preview_after_ms == old(self).preview_after_ms,
    {
        if !self.job_running {
            return false;
        }
        match ev {
            JobPoll::Pending => true,
            _ => {
                self.job_running = false;
                false
            },
        }
    }

    /// The front-end is to repaint soon: automatic preview is on and a
    /// render runs or a preview is scheduled.
    pub fn needs_repaint(&self) -> (r: bool)
        ensures
            r == (self.auto_preview && (self.job_running || self.preview_after_ms is Some)),
    {
        self.auto_preview && (self.job_running || self.preview_after_ms.is_some())
    }
}


/// Looking at the parameters again with nothing changed leaves the state as
/// it is; in particular a second look right after a recorded change keeps
/// the schedule that the change set.
pub proof fn lemma_unchanged_params_change_nothing(s: PreviewScheduler, t: u64, now: u64)
    requires
        t + DEBOUNCE_MS <= u64::MAX,
    ensures
        spec_params_changed(s, false, now) == s,
        spec_params_changed(spec_params_changed(s, true, t), false, now) == spec_params_changed(s, true, t),
{
}

/// No automatic preview starts while a render is running.
pub proof fn lemma_no_preview_while_rendering(s: PreviewScheduler, now: u64)
    requires
        s.job_running,
    ensures
        !spec_preview_due(s, now),
        spec_take_due(s, now) == s,
{
}

/// After parameters change at `t`, no automatic preview starts before they
/// have stayed unchanged for `DEBOUNCE_MS`.
pub proof fn lemma_preview_waits_for_quiet(s: PreviewScheduler, t: u64, now: u64)
    requires
        s.auto_preview,
        t + DEBOUNCE_MS <= u64::MAX,
        spec_preview_due(spec_params_changed(s, true, t), now),
    ensures
        now >= t + DEBOUNCE_MS,
{
}

/// Each further change restarts the wait: after changes at `t1` and then at
/// `t2`, the preview is scheduled `DEBOUNCE_MS` after `t2`.
pub proof fn lemma_change_restarts_wait(s: PreviewScheduler, t1: u64, t2: u64)
    requires
        s.auto_preview,
        t1 <= t2,
        t2 + DEBOUNCE_MS <= u64::MAX,
    ensures
        spec_params_changed(spec_params_changed(s, true, t1), true, t2).preview_after_ms == Some(
            (t2 + DEBOUNCE_MS) as u64,
        ),
{
}

/// Once the wait is over and no render runs, the scheduled preview is due.
pub proof fn lemma_scheduled_preview_becomes_due(s: PreviewScheduler, t: u64, now: u64)
    requires
        s.auto_preview,
        !s.job_running,
        t + DEBOUNCE_MS <= now,
    ensures
        spec_preview_due(spec_params_changed(s, true, t), now),
{
}

/// A due preview is taken once: right after it was taken nothing is due,
/// whenever the next look comes, until the parameters change again.
pub proof fn lemma_preview_taken_once(s: PreviewScheduler, now: u64, later: u64)
    requires
        spec_preview_due(s, now),
    ensures
        !spec_preview_due(spec_take_due(s, now), later),
{
}

/// With automatic preview off, changing parameters schedules nothing, and
/// switching it off drops what was scheduled.
pub proof fn lemma_auto_off_schedules_nothing(s: PreviewScheduler, differs: bool, now: u64, later: u64)
    requires
        !s.auto_preview,
    ensures
        spec_params_changed(s, differs, now) == s,
        !spec_preview_due(spec_auto_toggled(s, now), later),
        spec_auto_toggled(s, now).preview_after_ms is None,
{
}

/// The automatic preview size lies within the preview bounds, and a
/// requested size within them is kept.
pub proof fn lemma_preview_size_bounds(w: u32, h: u32)
    ensures
        PREVIEW_MIN_W <= spec_preview_size(w, h).0 <= PREVIEW_MAX_W,
        PREVIEW_MIN_H <= spec_preview_size(w, h).1 <= PREVIEW_MAX_H,
        PREVIEW_MIN_W <= w <= PREVIEW_MAX_W ==> spec_preview_size(w, h).0 == w,
        PREVIEW_MIN_H <= h <= PREVIEW_MAX_H ==> spec_preview_size(w, h).1 == h,
{
}

/// Only a poll that finds the render still running keeps it running; any
/// other answer frees the front-end for the next render.
pub proof fn lemma_poll_ends_render(s: PreviewScheduler, ev: JobPoll)
    requires
        s.job_running,
    ensures
        spec_job_polled(s, ev).job_running <==> ev == JobPoll::Pending,
        spec_job_polled(s, ev).auto_preview == s.auto_preview,
        spec_job_polled(s, ev).preview_after_ms == s.preview_after_ms,
{
}


/// A running render ends only through a poll that does not find it still
/// running: looking at the parameters, switching automatic preview, and
/// taking a due preview never change whether a render is running, and a
/// render, once begun, keeps blocking every other until such a poll.
pub proof fn lemma_only_a_poll_ends_a_render(s: PreviewScheduler, differs: bool, now: u64, ev: JobPoll)
    requires
        now + DEBOUNCE_MS <= u64::MAX,
    ensures
        spec_params_changed(s, differs, now).job_running == s.job_running,
        spec_auto_toggled(s, now).job_running == s.job_running,
        spec_take_due(s, now).job_running == s.job_running,
        spec_job_polled(s, ev).job_running == (s.job_running && ev == JobPoll::Pending),
        s.job_running ==> !spec_preview_due(spec_params_changed(s, differs, now), now),
        s.job_running ==> !spec_preview_due(spec_auto_toggled(s, now), now),
{
}

} // verus!
