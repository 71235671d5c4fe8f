use vstd::prelude::*;

verus! {

/// Pull-based render scheduler: the presentation layer asks whether a render
/// is due and when the next one comes; the scheduler never blocks. Times are
/// wall-clock milliseconds.
pub struct Scheduler {
    pub running: bool,
    pub refresh_ms: u64,
    pub next_due_ms: Option<u64>,
    pub last_render_ms: Option<u64>,
}

impl Scheduler {
    /// A deadline is armed exactly while the scheduler runs.
    pub open spec fn wf(self) -> bool {
        self.running <==> self.next_due_ms is Some
    }

    /// A render is due while running once the clock has reached the deadline.
    pub open spec fn is_due_spec(self, now: u64) -> bool {
        self.running && match self.next_due_ms {
            Some(t) => now >= t,
            None => false,
        }
    }

    /// A stopped scheduler with the given refresh period and no render yet.
    pub fn new(refresh_ms: u64) -> (s: Self)
        ensures
            s.wf(),
            !s.running,
            s.refresh_ms == refresh_ms,
            s.next_due_ms is None,
            s.last_render_ms is None,
    {
        Scheduler { running: false, refresh_ms, next_due_ms: None, last_render_ms: None }
    }

    /// Changes the refresh period; nothing else moves.
    pub fn set_refresh_ms(&mut self, refresh_ms: u64)
        ensures
            final(self).refresh_ms == refresh_ms,
            final(self).running == old(self).running,
            final(self).next_due_ms == old(self).next_due_ms,
            final(self).last_render_ms == old(self).last_render_ms,
    {
        self.refresh_ms = refresh_ms;
    }

    /// Starts the cycle: a render is immediately due at the start instant.
    pub fn start(&mut self, now: u64)
        ensures
            final(self).wf(),
            final(self).running,
            final(self).next_due_ms == Some(now),
            final(self).refresh_ms == old(self).refresh_ms,
            final(self).last_render_ms == old(self).last_render_ms,
            final(self).is_due_spec(now),
    {
        self.running = true;
        self.next_due_ms = Some(now);
    }

    /// Stops the cycle and disarms the pending deadline; no render is forced.
    pub fn stop(&mut self)
        ensures
            final(self).wf(),
            !final(self).running,
            final(self).next_due_ms is None,
            final(self).refresh_ms == old(self).refresh_ms,
            final(self).last_render_ms == old(self).last_render_ms,
    {
        self.running = false;
        self.next_due_ms = None;
    }

    /// Is a render due at instant `now`?
    pub fn is_due(&self, now: u64) -> (r: bool)
        ensures
            r == self.is_due_spec(now),
    {
        if !self.running {
            return false;
        }
        match self.next_due_ms {
            Some(t) => now >= t,
            None => false,
        }
    }

    /// The armed deadline, if any.
    pub fn next_due_at(&self) -> (r: Option<u64>)
        ensures
            r == self.next_due_ms,
    {
        self.next_due_ms
    }

    /// Wall-clock duration of the last completed render, if any.
    pub fn last_render_duration_ms(&self) -> (r: Option<u64>)
        ensures
            r == self.last_render_ms,
    {
        self.last_render_ms
    }

    /// Records a completed render: the next deadline is the instant the
    /// render started plus the refresh period, and its duration is kept.
    pub fn mark_rendered(&mut self, started_at: u64, duration_ms: u64)
        requires
            old(self).running,
            started_at + old(self).refresh_ms <= u64::MAX,
        ensures
            final(self).wf(),
            final(self).running,
            final(self).refresh_ms == old(self).refresh_ms,
            final(self).next_due_ms == Some((started_at + old(self).refresh_ms) as u64),
            final(self).last_render_ms == Some(duration_ms),
    {
        self.next_due_ms = Some(started_at + self.refresh_ms);
        self.last_render_ms = Some(duration_ms);
    }

    /// How long until the next render is due: zero once due, the remaining
    /// wait otherwise, and nothing while stopped.
    pub fn millis_until_due(&self, now: u64) -> (r: Option<u64>)
        ensures
            match self.next_due_ms {
                Some(t) => r == Some(if now >= t { 0u64 } else { (t - now) as u64 }),
                None => r is None,
            },
    {
        match self.next_due_ms {
            Some(t) => if now >= t {
                Some(0)
            } else {
                Some(t - now)
            },
            None => None,
        }
    }
}

} // verus!
