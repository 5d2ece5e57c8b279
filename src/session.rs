use vstd::prelude::*;
use crate::bitrate::{negotiate_bitrate, negotiated, ChannelLookup, DEFAULT_BITRATE};
use crate::queue::{flip, PlayState, PlaybackQueue, QueueError, QueueEvent, QueueModel};
use crate::scheduler::{EventScheduler, ScheduledEvent, SchedulerModel, TimerSlot};
use crate::track::Track;

verus! {

/// Delay between a track starting and its announcement, in milliseconds.
pub const ANNOUNCE_DELAY_MS: u64 = 20;

/// How long a drained queue may stay empty before the session disconnects.
pub const IDLE_GRACE_MS: u64 = 300_000;

/// Period of the repeating idle check that runs while connected.
pub const IDLE_SWEEP_MS: u64 = 900_000;

#[derive(Clone, Copy, Debug, PartialEq, Eq, Structural)]
pub enum ConnectionState {
    Disconnected,
    Connected { channel: u64 },
}

#[derive(Clone, Copy, Debug, PartialEq, Eq, Structural)]
pub enum DisconnectReason {
    /// A caller asked the session to leave.
    Left,
    /// The queue stayed empty past the idle grace period.
    Idle,
}

/// Failures handed back to the caller, each with the ids that explain it.
#[derive(Clone, Copy, Debug, PartialEq, Eq, Structural)]
pub enum SessionError {
    /// The operation needs an active connection and there is none.
    NotConnected { guild: u64 },
    /// The operation needs a current track and the queue is empty.
    NothingPlaying { guild: u64 },
    /// The transport failed to join the channel.
    Connect { guild: u64, channel: u64 },
    /// The transport rejected a mute, deafen, pause or play.
    Adapter { guild: u64 },
}

/// A timer the caller must start: after `delay_ms`, deliver `token` for
/// `slot` through `Session::on_timer`.
#[derive(Clone, Copy, Debug, PartialEq, Eq, Structural)]
pub struct TimerRequest {
    pub slot: TimerSlot,
    pub token: u64,
    pub delay_ms: u64,
}

/// What the notification sink is to receive.
#[derive(Debug)]
pub enum Notice {
    /// The queue moved.
    Transition(QueueEvent),
    /// The announcement of a track that started a moment ago.
    Announce { track: Track },
    /// The session left its channel.
    Disconnected { guild: u64, reason: DisconnectReason },
}

/// What an operation asks of its caller besides its result.
#[derive(Debug)]
pub struct Outcome {
    pub notice: Option<Notice>,
    pub timer: Option<TimerRequest>,
}

pub open spec fn quiet() -> Outcome {
    Outcome { notice: None, timer: None }
}

/// Abstract state of a session.
pub struct SessionModel {
    pub guild: u64,
    pub connection: ConnectionState,
    pub bitrate: i32,
    pub muted: bool,
    pub deafened: bool,
    pub queue: QueueModel,
    pub timers: SchedulerModel,
}

impl SessionModel {
    pub open spec fn is_connected(self) -> bool {
        self.connection is Connected
    }

    /// Track `id` is the current one.
    pub open spec fn plays(self, id: u64) -> bool {
        self.queue.current() matches Some(t) && t.id == id
    }

    /// The request that goes with arming `slot` next.
    pub open spec fn request(self, slot: TimerSlot, delay: u64) -> TimerRequest {
        TimerRequest { slot, token: self.timers.next_token, delay_ms: delay }
    }

    pub open spec fn not_connected(self) -> SessionError {
        SessionError::NotConnected { guild: self.guild }
    }

    pub open spec fn join(self, channel: u64, connected: bool, lookup: ChannelLookup, now: u64) -> (
        SessionModel,
        Result<Outcome, SessionError>,
    ) {
        if self.connection == (ConnectionState::Connected { channel }) {
            (self, Ok(quiet()))
        } else if !connected {
            (self, Err(SessionError::Connect { guild: self.guild, channel }))
        } else {
            let base = SessionModel {
                connection: ConnectionState::Connected { channel },
                bitrate: negotiated(lookup),
                ..self
            };
            if self.timers.sweep is None {
                (
                    SessionModel {
                        timers: self.timers.armed(
                            TimerSlot::IdleSweep,
                            now,
                            IDLE_SWEEP_MS,
                            Some(IDLE_SWEEP_MS),
                        ),
                        ..base
                    },
                    Ok(
                        Outcome {
                            notice: None,
                            timer: Some(self.request(TimerSlot::IdleSweep, IDLE_SWEEP_MS)),
                        },
                    ),
                )
            } else {
                (base, Ok(quiet()))
            }
        }
    }

    /// Connection torn down: queue cleared, every timer cancelled.
    pub open spec fn disconnected(self) -> SessionModel {
        SessionModel {
            connection: ConnectionState::Disconnected,
            queue: self.queue.cleared(),
            timers: self.timers.all_cancelled(),
            ..self
        }
    }

    pub open spec fn leave(self) -> (SessionModel, Result<Outcome, SessionError>) {
        if !self.is_connected() {
            (self, Err(self.not_connected()))
        } else {
            (
                self.disconnected(),
                Ok(
                    Outcome {
                        notice: Some(
                            Notice::Disconnected { guild: self.guild, reason: DisconnectReason::Left },
                        ),
                        timer: None,
                    },
                ),
            )
        }
    }

    pub open spec fn enqueue(self, t: Track, now: u64) -> (
        SessionModel,
        Result<(usize, Outcome), SessionError>,
    ) {
        let position = (self.queue.tracks.len() + 1) as usize;
        if !self.is_connected() {
            (self, Err(self.not_connected()))
        } else if self.queue.is_empty() {
            (
                SessionModel {
                    queue: self.queue.enqueued(t),
                    timers: self.timers.cancelled(TimerSlot::IdleGrace).armed(
                        TimerSlot::AnnounceStart,
                        now,
                        ANNOUNCE_DELAY_MS,
                        None,
                    ),
                    ..self
                },
                Ok(
                    (
                        position,
                        Outcome {
                            notice: Some(
                                Notice::Transition(
                                    QueueEvent::PlaybackStarted { track: t, previous: None },
                                ),
                            ),
                            timer: Some(self.request(TimerSlot::AnnounceStart, ANNOUNCE_DELAY_MS)),
                        },
                    ),
                ),
            )
        } else {
            (SessionModel { queue: self.queue.enqueued(t), ..self }, Ok((position, quiet())))
        }
    }

    /// After the current track leaves a non-empty queue at `now`: the next one
    /// gets its announcement, or the drained queue gets its idle grace timer.
    pub open spec fn advanced(self, now: u64) -> SessionModel {
        if self.queue.tracks.len() > 1 {
            SessionModel {
                queue: self.queue.advanced(),
                timers: self.timers.armed(TimerSlot::AnnounceStart, now, ANNOUNCE_DELAY_MS, None),
                ..self
            }
        } else {
            SessionModel {
                queue: self.queue.advanced(),
                timers: self.timers.cancelled(TimerSlot::AnnounceStart).armed(
                    TimerSlot::IdleGrace,
                    now,
                    IDLE_GRACE_MS,
                    None,
                ),
                ..self
            }
        }
    }

    pub open spec fn advance_outcome(self) -> Outcome {
        Outcome {
            notice: Some(Notice::Transition(self.queue.advance_event())),
            timer: Some(
                if self.queue.tracks.len() > 1 {
                    self.request(TimerSlot::AnnounceStart, ANNOUNCE_DELAY_MS)
                } else {
                    self.request(TimerSlot::IdleGrace, IDLE_GRACE_MS)
                },
            ),
        }
    }

    pub open spec fn skip(self, now: u64) -> (SessionModel, Result<Outcome, SessionError>) {
        if !self.is_connected() {
            (self, Err(self.not_connected()))
        } else if self.queue.is_empty() {
            (self, Err(SessionError::NothingPlaying { guild: self.guild }))
        } else {
            (self.advanced(now), Ok(self.advance_outcome()))
        }
    }

    pub open spec fn track_ended(self, id: u64, now: u64) -> (SessionModel, Outcome) {
        if self.is_connected() && self.plays(id) {
            (self.advanced(now), self.advance_outcome())
        } else {
            (self, quiet())
        }
    }

    pub open spec fn stop(self, now: u64) -> (SessionModel, Result<Outcome, SessionError>) {
        if !self.is_connected() {
            (self, Err(self.not_connected()))
        } else if self.queue.is_empty() {
            (SessionModel { queue: self.queue.cleared(), ..self }, Ok(quiet()))
        } else {
            (
                SessionModel {
                    queue: self.queue.cleared(),
                    timers: self.timers.cancelled(TimerSlot::AnnounceStart).armed(
                        TimerSlot::IdleGrace,
                        now,
                        IDLE_GRACE_MS,
                        None,
                    ),
                    ..self
                },
                Ok(
                    Outcome {
                        notice: Some(
                            Notice::Transition(
                                QueueEvent::QueueDrained { last: self.queue.tracks[0] },
                            ),
                        ),
                        timer: Some(self.request(TimerSlot::IdleGrace, IDLE_GRACE_MS)),
                    },
                ),
            )
        }
    }

    /// The sub-state a pause/resume toggle would produce.
    pub open spec fn pause_target(self) -> Result<PlayState, SessionError> {
        if !self.is_connected() {
            Err(self.not_connected())
        } else if self.queue.is_empty() {
            Err(SessionError::NothingPlaying { guild: self.guild })
        } else {
            Ok(flip(self.queue.state))
        }
    }

    pub open spec fn play_pause(self, accepted: bool) -> (
        SessionModel,
        Result<PlayState, SessionError>,
    ) {
        match self.pause_target() {
            Err(e) => (self, Err(e)),
            Ok(p) => if accepted {
                (SessionModel { queue: self.queue.toggled(), ..self }, Ok(p))
            } else {
                (self, Err(SessionError::Adapter { guild: self.guild }))
            },
        }
    }

    pub open spec fn mute(self, accepted: bool) -> (SessionModel, Result<bool, SessionError>) {
        if !self.is_connected() {
            (self, Err(self.not_connected()))
        } else if !accepted {
            (self, Err(SessionError::Adapter { guild: self.guild }))
        } else {
            (SessionModel { muted: !self.muted, ..self }, Ok(!self.muted))
        }
    }

    pub open spec fn deafen(self, accepted: bool) -> (
        SessionModel,
        Result<bool, SessionError>,
    ) {
        if !self.is_connected() {
            (self, Err(self.not_connected()))
        } else if !accepted {
            (self, Err(SessionError::Adapter { guild: self.guild }))
        } else {
            (SessionModel { deafened: !self.deafened, ..self }, Ok(!self.deafened))
        }
    }

    /// The follow-up delivery a repeating timer asks for after firing.
    pub open spec fn repeat_request(self, slot: TimerSlot, token: u64) -> Option<TimerRequest> {
        match self.timers.slot(slot) {
            Some(e) => match e.every {
                Some(p) => Some(TimerRequest { slot, token, delay_ms: p }),
                None => None,
            },
            None => None,
        }
    }

    /// A delivery of `token` for `slot` at `now`. Only a live delivery acts.
    /// The announcement names the current track. The idle check disconnects
    /// a connected session whose queue is empty, and otherwise does nothing.
    pub open spec fn on_timer(self, slot: TimerSlot, token: u64, now: u64) -> (
        SessionModel,
        Outcome,
    ) {
        if !self.timers.is_due(slot, token, now) {
            (self, quiet())
        } else {
            let fired = SessionModel { timers: self.timers.fired(slot, now), ..self };
            let again = Outcome { notice: None, timer: self.repeat_request(slot, token) };
            if slot == TimerSlot::AnnounceStart {
                match self.queue.current() {
                    Some(t) => (
                        fired,
                        Outcome {
                            notice: Some(Notice::Announce { track: t }),
                            timer: self.repeat_request(slot, token),
                        },
                    ),
                    None => (fired, again),
                }
            } else if self.is_connected() && self.queue.is_empty() {
                (
                    SessionModel {
                        connection: ConnectionState::Disconnected,
                        timers: self.timers.all_cancelled(),
                        ..self
                    },
                    Outcome {
                        notice: Some(
                            Notice::Disconnected { guild: self.guild, reason: DisconnectReason::Idle },
                        ),
                        timer: None,
                    },
                )
            } else {
                (fired, again)
            }
        }
    }
}

/// Connection, queue, mute/deafen state and timers of one guild. Every
/// mutation goes through `&mut self`, so one guard around a session
/// serialises all of them.
pub struct Session {
    guild: u64,
    connection: ConnectionState,
    bitrate: i32,
    muted: bool,
    deafened: bool,
    queue: PlaybackQueue,
    timers: EventScheduler,
}

impl View for Session {
    type V = SessionModel;

    closed spec fn view(&self) -> SessionModel {
        SessionModel {
            guild: self.guild,
            connection: self.connection,
            bitrate: self.bitrate,
            muted: self.muted,
            deafened: self.deafened,
            queue: self.queue@,
            timers: self.timers@,
        }
    }
}

fn quiet_outcome() -> (r: Outcome)
    ensures
        r == quiet(),
{
    Outcome { notice: None, timer: None }
}

fn request_for(slot: TimerSlot, e: ScheduledEvent, delay: u64) -> (r: TimerRequest)
    ensures
        r == (TimerRequest { slot, token: e.token, delay_ms: delay }),
{
    TimerRequest { slot, token: e.token, delay_ms: delay }
}

impl Session {
    /// A fresh, disconnected session for `guild`.
    pub fn new(guild: u64) -> (r: Session)
        ensures
            r@.guild == guild,
            r@.connection == ConnectionState::Disconnected,
            r@.bitrate == DEFAULT_BITRATE,
            !r@.muted,
            !r@.deafened,
            r@.queue.tracks.len() == 0,
            r@.timers.is_idle(),
    {
        Session {
            guild,
            connection: ConnectionState::Disconnected,
            bitrate: DEFAULT_BITRATE,
            muted: false,
            deafened: false,
            queue: PlaybackQueue::new(),
            timers: EventScheduler::new(),
        }
    }

    pub fn guild_id(&self) -> (r: u64)
        ensures
            r == self@.guild,
    {
        self.guild
    }

    pub fn connection(&self) -> (r: ConnectionState)
        ensures
            r == self@.connection,
    {
        self.connection
    }

    pub fn is_connected(&self) -> (r: bool)
        ensures
            r == self@.is_connected(),
    {
        match self.connection {
            ConnectionState::Connected { .. } => true,
            ConnectionState::Disconnected => false,
        }
    }

    /// The operating bitrate, in bits per second.
    pub fn bitrate(&self) -> (r: i32)
        ensures
            r == self@.bitrate,
    {
        self.bitrate
    }

    pub fn is_muted(&self) -> (r: bool)
        ensures
            r == self@.muted,
    {
        self.muted
    }

    pub fn is_deafened(&self) -> (r: bool)
        ensures
            r == self@.deafened,
    {
        self.deafened
    }

    pub fn queue(&self) -> (r: &PlaybackQueue)
        ensures
            r@ == self@.queue,
    {
        &self.queue
    }

    pub fn timers(&self) -> (r: &EventScheduler)
        ensures
            r@ == self@.timers,
    {
        &self.timers
    }

    fn not_connected(&self) -> (r: SessionError)
        ensures
            r == self@.not_connected(),
    {
        SessionError::NotConnected { guild: self.guild }
    }

    /// Whether joining `channel` needs the transport to connect: false only
    /// when the session is already connected there.
    pub fn needs_connect(&self, channel: u64) -> (r: bool)
        ensures
            r == (self@.connection != (ConnectionState::Connected { channel })),
    {
        match self.connection {
            ConnectionState::Connected { channel: c } => c != channel,
            ConnectionState::Disconnected => true,
        }
    }

    /// Joins `channel`. Already being there is a no-op success. Otherwise
    /// `connected` is what the transport answered, and `lookup` what the
    /// channel reported about its bitrate. Joining another channel while
    /// connected switches over and keeps the queue.
    pub fn join(&mut self, channel: u64, connected: bool, lookup: ChannelLookup, now: u64) -> (r:
        Result<Outcome, SessionError>)
        ensures
            (final(self)@, r) == old(self)@.join(channel, connected, lookup, now),
    {
        if !self.needs_connect(channel) {
            return Ok(quiet_outcome());
        }
        if !connected {
            return Err(SessionError::Connect { guild: self.guild, channel });
        }
        self.connection = ConnectionState::Connected { channel };
        self.bitrate = negotiate_bitrate(lookup);
        if self.timers.pending(TimerSlot::IdleSweep).is_none() {
            let e = self.timers.arm(TimerSlot::IdleSweep, now, IDLE_SWEEP_MS, Some(IDLE_SWEEP_MS));
            Ok(
                Outcome {
                    notice: None,
                    timer: Some(request_for(TimerSlot::IdleSweep, e, IDLE_SWEEP_MS)),
                },
            )
        } else {
            Ok(quiet_outcome())
        }
    }

    /// Leaves the channel: the queue is cleared and every timer cancelled.
    pub fn leave(&mut self) -> (r: Result<Outcome, SessionError>)
        ensures
            (final(self)@, r) == old(self)@.leave(),
    {
        if !self.is_connected() {
            return Err(self.not_connected());
        }
        self.connection = ConnectionState::Disconnected;
        let _ = self.queue.stop();
        self.timers.cancel_all();
        Ok(
            Outcome {
                notice: Some(
                    Notice::Disconnected { guild: self.guild, reason: DisconnectReason::Left },
                ),
                timer: None,
            },
        )
    }

    /// Queues `track` and returns its 1-based position. A track that lands
    /// in an empty queue starts playing: its announcement is scheduled and
    /// the idle grace timer cancelled.
    pub fn enqueue(&mut self, track: Track, now: u64) -> (r: Result<(usize, Outcome), SessionError>)
        requires
            old(self)@.queue.tracks.len() < usize::MAX,
        ensures
            (final(self)@, r) == old(self)@.enqueue(track, now),
    {
        if !self.is_connected() {
            return Err(self.not_connected());
        }
        let was_empty = self.queue.is_empty();
        let (position, event) = self.queue.enqueue(track);
        if was_empty {
            self.timers.cancel(TimerSlot::IdleGrace);
            let e = self.timers.arm(TimerSlot::AnnounceStart, now, ANNOUNCE_DELAY_MS, None);
            let notice = match event {
                Some(ev) => Some(Notice::Transition(ev)),
                None => None,
            };
            Ok(
                (
                    position,
                    Outcome {
                        notice,
                        timer: Some(request_for(TimerSlot::AnnounceStart, e, ANNOUNCE_DELAY_MS)),
                    },
                ),
            )
        } else {
            Ok((position, quiet_outcome()))
        }
    }

    fn advance(&mut self, now: u64) -> (r: Outcome)
        requires
            old(self)@.queue.tracks.len() > 0,
        ensures
            final(self)@ == old(self)@.advanced(now),
            r == old(self)@.advance_outcome(),
    {
        let more = self.queue.len() > 1;
        let event = self.queue.skip();
        let notice = match event {
            Ok(ev) => Some(Notice::Transition(ev)),
            Err(_) => None,
        };
        if more {
            let e = self.timers.arm(TimerSlot::AnnounceStart, now, ANNOUNCE_DELAY_MS, None);
            Outcome { notice, timer: Some(request_for(TimerSlot::AnnounceStart, e, ANNOUNCE_DELAY_MS)) }
        } else {
            self.timers.cancel(TimerSlot::AnnounceStart);
            let e = self.timers.arm(TimerSlot::IdleGrace, now, IDLE_GRACE_MS, None);
            Outcome { notice, timer: Some(request_for(TimerSlot::IdleGrace, e, IDLE_GRACE_MS)) }
        }
    }

    /// Skips the current track; see `SessionModel::advanced`.
    pub fn skip(&mut self, now: u64) -> (r: Result<Outcome, SessionError>)
        ensures
            (final(self)@, r) == old(self)@.skip(now),
    {
        if !self.is_connected() {
            return Err(self.not_connected());
        }
        if self.queue.is_empty() {
            return Err(SessionError::NothingPlaying { guild: self.guild });
        }
        Ok(self.advance(now))
    }

    /// The transport reports that track `id` played to its end. A report
    /// about a track that is no longer current changes nothing.
    pub fn track_ended(&mut self, id: u64, now: u64) -> (r: Outcome)
        ensures
            (final(self)@, r) == old(self)@.track_ended(id, now),
    {
        let current = match self.queue.current() {
            Some(t) => t.id == id,
            None => false,
        };
        if self.is_connected() && current {
            self.advance(now)
        } else {
            quiet_outcome()
        }
    }

    /// Clears the queue. If something was playing the queue has drained and
    /// the idle grace timer starts.
    pub fn stop(&mut self, now: u64) -> (r: Result<Outcome, SessionError>)
        ensures
            (final(self)@, r) == old(self)@.stop(now),
    {
        if !self.is_connected() {
            return Err(self.not_connected());
        }
        let drained = self.queue.stop();
        match drained {
            Some(ev) => {
                self.timers.cancel(TimerSlot::AnnounceStart);
                let e = self.timers.arm(TimerSlot::IdleGrace, now, IDLE_GRACE_MS, None);
                Ok(
                    Outcome {
                        notice: Some(Notice::Transition(ev)),
                        timer: Some(request_for(TimerSlot::IdleGrace, e, IDLE_GRACE_MS)),
                    },
                )
            },
            None => Ok(quiet_outcome()),
        }
    }

    /// The current track.
    pub fn now_playing(&self) -> (r: Result<&Track, SessionError>)
        ensures
            !self@.is_connected() ==> r is Err && r->Err_0 == self@.not_connected(),
            self@.is_connected() && self@.queue.is_empty() ==> r is Err && r->Err_0
                == (SessionError::NothingPlaying { guild: self@.guild }),
            self@.is_connected() && !self@.queue.is_empty() ==> r is Ok && self@.queue.current()
                == Some(*r->Ok_0),
    {
        if !self.is_connected() {
            return Err(self.not_connected());
        }
        match self.queue.current() {
            Some(t) => Ok(t),
            None => Err(SessionError::NothingPlaying { guild: self.guild }),
        }
    }

    /// The sub-state that `play_pause` would produce: the transport is to
    /// be asked for it first.
    pub fn pause_target(&self) -> (r: Result<PlayState, SessionError>)
        ensures
            r == self@.pause_target(),
    {
        if !self.is_connected() {
            return Err(self.not_connected());
        }
        if self.queue.is_empty() {
            return Err(SessionError::NothingPlaying { guild: self.guild });
        }
        match self.queue.play_state() {
            PlayState::Playing => Ok(PlayState::Paused),
            PlayState::Paused => Ok(PlayState::Playing),
        }
    }

    /// Toggles the current track between playing and paused; `accepted` is
    /// whether the transport carried out `pause_target`.
    pub fn play_pause(&mut self, accepted: bool) -> (r: Result<PlayState, SessionError>)
        ensures
            (final(self)@, r) == old(self)@.play_pause(accepted),
    {
        let target = self.pause_target();
        match target {
            Err(e) => Err(e),
            Ok(_) => {
                if !accepted {
                    return Err(SessionError::Adapter { guild: self.guild });
                }
                match self.queue.pause_resume() {
                    Ok(p) => Ok(p),
                    Err(_) => Err(SessionError::NothingPlaying { guild: self.guild }),
                }
            },
        }
    }

    /// The mute flag a toggle would set: the transport is to be asked first.
    pub fn mute_target(&self) -> (r: Result<bool, SessionError>)
        ensures
            !self@.is_connected() ==> r == Err::<bool, SessionError>(self@.not_connected()),
            self@.is_connected() ==> r == Ok::<bool, SessionError>(!self@.muted),
    {
        if !self.is_connected() {
            return Err(self.not_connected());
        }
        Ok(!self.muted)
    }

    /// Inverts the mute flag; `accepted` is whether the transport applied
    /// `mute_target`. Returns the new flag.
    pub fn mute(&mut self, accepted: bool) -> (r: Result<bool, SessionError>)
        ensures
            (final(self)@, r) == old(self)@.mute(accepted),
    {
        if !self.is_connected() {
            return Err(self.not_connected());
        }
        if !accepted {
            return Err(SessionError::Adapter { guild: self.guild });
        }
        self.muted = !self.muted;
        Ok(self.muted)
    }

    /// The deafen flag a toggle would set: the transport is to be asked first.
    pub fn deafen_target(&self) -> (r: Result<bool, SessionError>)
        ensures
            !self@.is_connected() ==> r == Err::<bool, SessionError>(self@.not_connected()),
            self@.is_connected() ==> r == Ok::<bool, SessionError>(!self@.deafened),
    {
        if !self.is_connected() {
            return Err(self.not_connected());
        }
        Ok(!self.deafened)
    }

    /// Inverts the deafen flag; `accepted` is whether the transport applied
    /// `deafen_target`. Returns the new flag.
    pub fn deafen(&mut self, accepted: bool) -> (r: Result<bool, SessionError>)
        ensures
            (final(self)@, r) == old(self)@.deafen(accepted),
    {
        if !self.is_connected() {
            return Err(self.not_connected());
        }
        if !accepted {
            return Err(SessionError::Adapter { guild: self.guild });
        }
        self.deafened = !self.deafened;
        Ok(self.deafened)
    }

    fn repeat_request(&self, slot: TimerSlot, token: u64) -> (r: Option<TimerRequest>)
        ensures
            r == self@.repeat_request(slot, token),
    {
        match self.timers.pending(slot) {
            Some(e) => match e.every {
                Some(p) => Some(TimerRequest { slot, token, delay_ms: p }),
                None => None,
            },
            None => None,
        }
    }

    /// Delivers a timer that the caller started for a `TimerRequest`; see
    /// `SessionModel::on_timer`. A `Disconnected` notice means the session
    /// has left its channel and is to be dropped from the registry.
    pub fn on_timer(&mut self, slot: TimerSlot, token: u64, now: u64) -> (r: Outcome)
        ensures
            (final(self)@, r) == old(self)@.on_timer(slot, token, now),
    {
        let again = self.repeat_request(slot, token);
        let empty = self.queue.is_empty();
        if !self.timers.fire(slot, token, now) {
            return quiet_outcome();
        }
        match slot {
            TimerSlot::AnnounceStart => {
                let notice = match self.queue.current() {
                    Some(t) => Some(Notice::Announce { track: t.duplicate() }),
                    None => None,
                };
                Outcome { notice, timer: again }
            },
            _ => {
                if self.is_connected() && empty {
                    self.connection = ConnectionState::Disconnected;
                    self.timers.cancel_all();
                    Outcome {
                        notice: Some(
                            Notice::Disconnected { guild: self.guild, reason: DisconnectReason::Idle },
                        ),
                        timer: None,
                    }
                } else {
                    Outcome { notice: None, timer: again }
                }
            },
        }
    }
}

/// Enqueueing into an empty queue makes the track current and schedules
/// exactly one announcement (the idle grace timer is cancelled, the idle
/// sweep left alone); enqueueing into a non-empty queue returns the previous
/// length plus one and schedules nothing.
pub proof fn lemma_enqueue_schedules(s: SessionModel, t: Track, now: u64)
    requires
        s.is_connected(),
        s.queue.tracks.len() < usize::MAX,
    ensures
        s.enqueue(t, now).1 is Ok,
        s.enqueue(t, now).1->Ok_0.0 == s.queue.tracks.len() + 1,
        s.queue.is_empty() ==> {
            &&& s.enqueue(t, now).0.queue.current() == Some(t)
            &&& s.enqueue(t, now).1->Ok_0.1.timer == Some(
                s.request(TimerSlot::AnnounceStart, ANNOUNCE_DELAY_MS),
            )
            &&& s.enqueue(t, now).0.timers.announce == Some(
                s.timers.arming(now, ANNOUNCE_DELAY_MS, None),
            )
            &&& s.enqueue(t, now).0.timers.grace is None
            &&& s.enqueue(t, now).0.timers.sweep == s.timers.sweep
        },
        !s.queue.is_empty() ==> {
            &&& s.enqueue(t, now).0.queue.current() == s.queue.current()
            &&& s.enqueue(t, now).1->Ok_0.1.timer is None
            &&& s.enqueue(t, now).0.timers == s.timers
        },
{
    if !s.queue.is_empty() {
        assert(s.queue.enqueued(t).tracks[0] == s.queue.tracks[0]);
    }
}

/// Skipping on an empty queue fails and changes nothing; on a connected
/// session the failure is `NothingPlaying`.
pub proof fn lemma_skip_empty_fails(s: SessionModel, now: u64)
    requires
        s.queue.is_empty(),
    ensures
        s.skip(now).0 == s,
        s.skip(now).1 is Err,
        s.is_connected() ==> s.skip(now).1 == Err::<Outcome, SessionError>(
            SessionError::NothingPlaying { guild: s.guild },
        ),
{
}

/// Skipping the only track drains the queue and arms the idle grace timer;
/// an enqueue that follows, at any time before that check runs, cancels it,
/// and no timer delivered afterwards disconnects the session.
pub proof fn lemma_enqueue_cancels_idle_grace(
    s: SessionModel,
    now1: u64,
    t: Track,
    now2: u64,
    slot: TimerSlot,
    token: u64,
    now3: u64,
)
    requires
        s.is_connected(),
        s.queue.tracks.len() == 1,
    ensures
        s.skip(now1).1 == Ok::<Outcome, SessionError>(
            Outcome {
                notice: Some(
                    Notice::Transition(QueueEvent::QueueDrained { last: s.queue.tracks[0] }),
                ),
                timer: Some(s.request(TimerSlot::IdleGrace, IDLE_GRACE_MS)),
            },
        ),
        s.skip(now1).0.queue.is_empty(),
        s.skip(now1).0.timers.grace == Some(s.timers.arming(now1, IDLE_GRACE_MS, None)),
        s.skip(now1).0.enqueue(t, now2).0.timers.grace is None,
        s.skip(now1).0.enqueue(t, now2).0.on_timer(slot, token, now3).0.is_connected(),
        !(s.skip(now1).0.enqueue(t, now2).0.on_timer(
            slot,
            token,
            now3,
        ).1.notice matches Some(Notice::Disconnected { .. })),
{
    let s1 = s.skip(now1).0;
    assert(s1.queue.tracks.len() == 0);
    let s2 = s1.enqueue(t, now2).0;
    assert(s2.queue.tracks.len() == 1);
}

/// An idle check that runs on a connected session whose queue is empty
/// disconnects it, and does so once: afterwards no timer acts any more, and
/// leaving fails with `NotConnected`.
pub proof fn lemma_idle_disconnects_once(
    s: SessionModel,
    slot: TimerSlot,
    token: u64,
    now: u64,
    slot2: TimerSlot,
    token2: u64,
    now2: u64,
)
    requires
        s.is_connected(),
        s.queue.is_empty(),
        slot != TimerSlot::AnnounceStart,
        s.timers.is_due(slot, token, now),
    ensures
        s.on_timer(slot, token, now).1 == (Outcome {
            notice: Some(Notice::Disconnected { guild: s.guild, reason: DisconnectReason::Idle }),
            timer: None,
        }),
        !s.on_timer(slot, token, now).0.is_connected(),
        s.on_timer(slot, token, now).0.timers.is_idle(),
        s.on_timer(slot, token, now).0.on_timer(slot2, token2, now2) == (
            s.on_timer(slot, token, now).0,
            quiet(),
        ),
        s.on_timer(slot, token, now).0.leave() == (
            s.on_timer(slot, token, now).0,
            Err::<Outcome, SessionError>(SessionError::NotConnected { guild: s.guild }),
        ),
{
}

/// Toggling pause twice on a current track that nothing else touched
/// returns it to the sub-state it started in.
pub proof fn lemma_pause_resume_twice(s: SessionModel)
    requires
        s.is_connected(),
        !s.queue.is_empty(),
    ensures
        s.play_pause(true).0.play_pause(true).0 == s,
        s.play_pause(true).0.play_pause(true).1 == Ok::<PlayState, SessionError>(
            s.queue.state,
        ),
{
    let s1 = s.play_pause(true).0;
    assert(s1.queue.toggled() == s.queue);
}

} // verus!
