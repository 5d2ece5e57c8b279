use vstd::prelude::*;

verus! {

/// The timers a session can have pending, one of each at most.
#[derive(Clone, Copy, Debug, PartialEq, Eq, Structural)]
pub enum TimerSlot {
    /// Tells observers about a track shortly after it starts playing.
    AnnounceStart,
    /// One-shot idle check, armed when the queue drains.
    IdleGrace,
    /// Repeating idle check that runs while the session is connected.
    IdleSweep,
}

/// The two kinds of scheduled work; both idle slots run the same check.
#[derive(Clone, Copy, Debug, PartialEq, Eq, Structural)]
pub enum EventKind {
    AnnounceStart,
    IdleDisconnectCheck,
}

pub open spec fn kind_of(slot: TimerSlot) -> EventKind {
    match slot {
        TimerSlot::AnnounceStart => EventKind::AnnounceStart,
        _ => EventKind::IdleDisconnectCheck,
    }
}

/// The kind of work a slot runs.
pub fn slot_kind(slot: TimerSlot) -> (r: EventKind)
    ensures
        r == kind_of(slot),
{
    match slot {
        TimerSlot::AnnounceStart => EventKind::AnnounceStart,
        _ => EventKind::IdleDisconnectCheck,
    }
}

/// A pending timer. `token` tells this arming apart from earlier ones of the
/// same slot; `every` is the period of a repeating timer.
#[derive(Clone, Copy, Debug, PartialEq, Eq, Structural)]
pub struct ScheduledEvent {
    pub token: u64,
    pub due_at: u64,
    pub every: Option<u64>,
}

/// `a + b`, held at `u64::MAX`.
pub open spec fn sat_add(a: u64, b: u64) -> u64 {
    if a + b <= u64::MAX {
        (a + b) as u64
    } else {
        u64::MAX
    }
}

pub open spec fn next_of(token: u64) -> u64 {
    if token == u64::MAX {
        0
    } else {
        (token + 1) as u64
    }
}

/// Abstract state of a scheduler: what each slot holds, and the token the
/// next arming gets.
pub struct SchedulerModel {
    pub announce: Option<ScheduledEvent>,
    pub grace: Option<ScheduledEvent>,
    pub sweep: Option<ScheduledEvent>,
    pub next_token: u64,
}

impl SchedulerModel {
    pub open spec fn slot(self, s: TimerSlot) -> Option<ScheduledEvent> {
        match s {
            TimerSlot::AnnounceStart => self.announce,
            TimerSlot::IdleGrace => self.grace,
            TimerSlot::IdleSweep => self.sweep,
        }
    }

    pub open spec fn with_slot(self, s: TimerSlot, e: Option<ScheduledEvent>) -> SchedulerModel {
        match s {
            TimerSlot::AnnounceStart => SchedulerModel { announce: e, ..self },
            TimerSlot::IdleGrace => SchedulerModel { grace: e, ..self },
            TimerSlot::IdleSweep => SchedulerModel { sweep: e, ..self },
        }
    }

    /// The event that arming `s` at `now` puts in place.
    pub open spec fn arming(self, now: u64, delay: u64, every: Option<u64>) -> ScheduledEvent {
        ScheduledEvent { token: self.next_token, due_at: sat_add(now, delay), every }
    }

    pub open spec fn armed(self, s: TimerSlot, now: u64, delay: u64, every: Option<u64>) -> SchedulerModel {
        SchedulerModel {
            next_token: next_of(self.next_token),
            ..self.with_slot(s, Some(self.arming(now, delay, every)))
        }
    }

    pub open spec fn cancelled(self, s: TimerSlot) -> SchedulerModel {
        self.with_slot(s, None)
    }

    pub open spec fn all_cancelled(self) -> SchedulerModel {
        SchedulerModel { announce: None, grace: None, sweep: None, next_token: self.next_token }
    }

    pub open spec fn is_idle(self) -> bool {
        &&& self.announce is None
        &&& self.grace is None
        &&& self.sweep is None
    }

    /// Slot `s` holds the arming that got `token`.
    pub open spec fn holds(self, s: TimerSlot, token: u64) -> bool {
        self.slot(s) matches Some(e) && e.token == token
    }

    /// A delivery of `token` for slot `s` at `now` is live: that very arming
    /// is still pending and its time has come.
    pub open spec fn is_due(self, s: TimerSlot, token: u64, now: u64) -> bool {
        self.slot(s) matches Some(e) && e.token == token && e.due_at <= now
    }

    /// After slot `s` fired at `now`: a one-shot timer is gone, a repeating
    /// one is due again one period later.
    pub open spec fn fired(self, s: TimerSlot, now: u64) -> SchedulerModel {
        match self.slot(s) {
            Some(e) => match e.every {
                Some(p) => self.with_slot(s, Some(ScheduledEvent { due_at: sat_add(now, p), ..e })),
                None => self.with_slot(s, None),
            },
            None => self,
        }
    }
}

/// Delayed and repeating timers of one guild, cancelled by slot or by token.
/// Cancelling a timer that already fired does nothing, and a timer that was
/// cancelled never fires: a delivery is live only while its own arming is
/// pending.
pub struct EventScheduler {
    announce: Option<ScheduledEvent>,
    grace: Option<ScheduledEvent>,
    sweep: Option<ScheduledEvent>,
    next_token: u64,
}

impl View for EventScheduler {
    type V = SchedulerModel;

    closed spec fn view(&self) -> SchedulerModel {
        SchedulerModel {
            announce: self.announce,
            grace: self.grace,
            sweep: self.sweep,
            next_token: self.next_token,
        }
    }
}

fn saturating_sum(a: u64, b: u64) -> (r: u64)
    ensures
        r == sat_add(a, b),
{
    if a <= u64::MAX - b {
        a + b
    } else {
        u64::MAX
    }
}

impl EventScheduler {
    pub fn new() -> (r: EventScheduler)
        ensures
            r@.is_idle(),
            r@.next_token == 0,
    {
        EventScheduler { announce: None, grace: None, sweep: None, next_token: 0 }
    }

    /// What slot `s` holds.
    pub fn pending(&self, s: TimerSlot) -> (r: Option<ScheduledEvent>)
        ensures
            r == self@.slot(s),
    {
        match s {
            TimerSlot::AnnounceStart => self.announce,
            TimerSlot::IdleGrace => self.grace,
            TimerSlot::IdleSweep => self.sweep,
        }
    }

    fn set(&mut self, s: TimerSlot, e: Option<ScheduledEvent>)
        ensures
            final(self)@ == old(self)@.with_slot(s, e),
    {
        match s {
            TimerSlot::AnnounceStart => self.announce = e,
            TimerSlot::IdleGrace => self.grace = e,
            TimerSlot::IdleSweep => self.sweep = e,
        }
    }

    /// Arms slot `s` to come due `delay` ms after `now`, repeating every
    /// `every` ms if given; whatever the slot held before is cancelled.
    pub fn arm(&mut self, s: TimerSlot, now: u64, delay: u64, every: Option<u64>) -> (r:
        ScheduledEvent)
        ensures
            final(self)@ == old(self)@.armed(s, now, delay, every),
            r == old(self)@.arming(now, delay, every),
    {
        let e = ScheduledEvent { token: self.next_token, due_at: saturating_sum(now, delay), every };
        self.set(s, Some(e));
        self.next_token = if self.next_token == u64::MAX {
            0
        } else {
            self.next_token + 1
        };
        e
    }

    /// Cancels whatever slot `s` holds; a no-op when it holds nothing.
    pub fn cancel(&mut self, s: TimerSlot)
        ensures
            final(self)@ == old(self)@.cancelled(s),
    {
        self.set(s, None);
    }

    /// Cancels every pending timer armed with `token`; true when there was one.
    pub fn cancel_token(&mut self, token: u64) -> (r: bool)
        ensures
            r == (old(self)@.holds(TimerSlot::AnnounceStart, token) || old(self)@.holds(
                TimerSlot::IdleGrace,
                token,
            ) || old(self)@.holds(TimerSlot::IdleSweep, token)),
            final(self)@.next_token == old(self)@.next_token,
            forall|s: TimerSlot|
                #![auto]
                final(self)@.slot(s) == (if old(self)@.holds(s, token) {
                    None
                } else {
                    old(self)@.slot(s)
                }),
    {
        let mut found = false;
        if let Some(e) = self.announce {
            if e.token == token {
                self.announce = None;
                found = true;
            }
        }
        if let Some(e) = self.grace {
            if e.token == token {
                self.grace = None;
                found = true;
            }
        }
        if let Some(e) = self.sweep {
            if e.token == token {
                self.sweep = None;
                found = true;
            }
        }
        found
    }

    pub fn cancel_all(&mut self)
        ensures
            final(self)@ == old(self)@.all_cancelled(),
    {
        self.announce = None;
        self.grace = None;
        self.sweep = None;
    }

    /// Delivers `token` for slot `s` at `now`. Returns whether the delivery
    /// is live; only then does the slot fire (see `SchedulerModel::fired`).
    pub fn fire(&mut self, s: TimerSlot, token: u64, now: u64) -> (r: bool)
        ensures
            r == old(self)@.is_due(s, token, now),
            r ==> final(self)@ == old(self)@.fired(s, now),
            !r ==> final(self)@ == old(self)@,
    {
        match self.pending(s) {
            Some(e) => {
                if e.token != token || e.due_at > now {
                    return false;
                }
                match e.every {
                    Some(p) => {
                        let due = saturating_sum(now, p);
                        self.set(s, Some(ScheduledEvent { due_at: due, ..e }));
                    },
                    None => self.set(s, None),
                }
                true
            },
            None => false,
        }
    }
}

} // verus!
