//! Driving the engine's message loop from a host event loop.
//!
//! The engine asks, from any thread, for its message loop work to run at some
//! time; the host's event loop collects those times and, each time it is about to
//! wait, runs the work once if any of them has come. Times are milliseconds on the
//! event loop's monotonic clock.
use vstd::prelude::*;

verus! {

/// Messages that other threads send to the event loop.
#[derive(Debug, Clone, Copy, PartialEq, Eq, Structural)]
pub enum MessageLoopEvent {
    /// The engine's work should run at this time.
    ScheduleCefWork(u64),
    /// A new frame is ready to be shown.
    NewCefFrameReady,
}

/// An event of the host's event loop, as far as the engine is concerned.
#[derive(Debug, Clone, Copy, PartialEq, Eq, Structural)]
pub enum LoopEvent {
    /// The window was resized.
    Resized,
    /// The event loop is about to wait for new events.
    AboutToWait,
    /// A message from another thread.
    User(MessageLoopEvent),
    /// Anything else.
    Other,
}

/// What the event loop does in response to an event.
#[derive(Debug, Clone, Copy, PartialEq, Eq, Structural)]
pub enum LoopAction {
    /// Nothing.
    Idle,
    /// Run the engine's message loop work once.
    DoWork,
    /// Tell the browser about its new size, then run the engine's work once.
    ResizeAndDoWork,
    /// Show the frame that the render handler stored.
    ShowFrame,
}

/// The times that are still to come after `now`.
pub open spec fn after(now: u64) -> spec_fn(u64) -> bool {
    |t: u64| t > now
}

/// The time `delay_ms` after `now`, as the engine asks for work: a delay of zero or
/// less means as soon as possible, and a time past the clock's range is its end.
pub open spec fn deadline_of(now: u64, delay_ms: i64) -> u64 {
    if delay_ms <= 0 {
        now
    } else if now + delay_ms > u64::MAX {
        u64::MAX
    } else {
        (now + delay_ms) as u64
    }
}

/// The time at which the engine's work should run when it asks for it `delay_ms`
/// after `now`.
pub fn deadline(now: u64, delay_ms: i64) -> (r: u64)
    ensures
        r == deadline_of(now, delay_ms),
{
    if delay_ms <= 0 {
        now
    } else {
        now.saturating_add(delay_ms as u64)
    }
}

/// The times at which the engine asked for its work to run, in the order asked.
pub struct MessagePump {
    scheduled: Vec<u64>,
}

impl MessagePump {
    pub closed spec fn scheduled(&self) -> Seq<u64> {
        self.scheduled@
    }

    /// A pump with nothing scheduled.
    pub fn new() -> (r: Self)
        ensures
            r.scheduled() == Seq::<u64>::empty(),
    {
        MessagePump { scheduled: Vec::new() }
    }

    /// Handles one event of the event loop at time `now` and says what to do.
    ///
    /// A requested time is kept until the loop is about to wait at or after it;
    /// then it is dropped, and the work runs once however many times have come.
    pub fn update(&mut self, event: LoopEvent, now: u64) -> (action: LoopAction)
        ensures
            match event {
                LoopEvent::Resized => action == LoopAction::ResizeAndDoWork
                    && final(self).scheduled() == old(self).scheduled(),
                LoopEvent::AboutToWait => {
                    &&& final(self).scheduled() == old(self).scheduled().filter(after(now))
                    &&& action == if exists|i: int|
                        0 <= i < old(self).scheduled().len() && #[trigger] old(
                            self,
                        ).scheduled()[i] <= now {
                        LoopAction::DoWork
                    } else {
                        LoopAction::Idle
                    }
                },
                LoopEvent::User(MessageLoopEvent::ScheduleCefWork(t)) => action == LoopAction::Idle
                    && final(self).scheduled() == old(self).scheduled().push(t),
                LoopEvent::User(MessageLoopEvent::NewCefFrameReady) => action
                    == LoopAction::ShowFrame && final(self).scheduled() == old(self).scheduled(),
                LoopEvent::Other => action == LoopAction::Idle && final(self).scheduled() == old(
                    self,
                ).scheduled(),
            },
    {
        match event {
            LoopEvent::Resized => LoopAction::ResizeAndDoWork,
            LoopEvent::AboutToWait => {
                if self.run_due(now) {
                    LoopAction::DoWork
                } else {
                    LoopAction::Idle
                }
            },
            LoopEvent::User(MessageLoopEvent::ScheduleCefWork(t)) => {
                self.scheduled.push(t);
                LoopAction::Idle
            },
            LoopEvent::User(MessageLoopEvent::NewCefFrameReady) => LoopAction::ShowFrame,
            LoopEvent::Other => LoopAction::Idle,
        }
    }

    /// Drops the times that have come by `now` and says whether there were any.
    fn run_due(&mut self, now: u64) -> (due: bool)
        ensures
            final(self).scheduled() == old(self).scheduled().filter(after(now)),
            due == exists|i: int|
                0 <= i < old(self).scheduled().len() && #[trigger] old(self).scheduled()[i] <= now,
    {
        let mut future: Vec<u64> = Vec::new();
        let mut due = false;
        let n = self.scheduled.len();
        let mut i: usize = 0;
        assert(self.scheduled@.take(0) =~= Seq::<u64>::empty());
        proof {
            reveal(Seq::filter);
        }
        while i < n
            invariant
                n == self.scheduled@.len(),
                i <= n,
                future@ == self.scheduled@.take(i as int).filter(after(now)),
                due == exists|j: int| 0 <= j < i && #[trigger] self.scheduled@[j] <= now,
            decreases n - i,
        {
            let t = self.scheduled[i];
            proof {
                self.scheduled@.take(i as int).lemma_filter_push(t, after(now));
                assert(self.scheduled@.take(i + 1) =~= self.scheduled@.take(i as int).push(t));
            }
            if t > now {
                future.push(t);
            } else {
                due = true;
            }
            i = i + 1;
        }
        assert(self.scheduled@.take(n as int) =~= self.scheduled@);
        self.scheduled = future;
        due
    }
}

} // verus!
