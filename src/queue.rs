use vstd::prelude::*;
use crate::track::Track;

verus! {

/// Playback sub-state of the current track.
#[derive(Clone, Copy, Debug, PartialEq, Eq, Structural)]
pub enum PlayState {
    Playing,
    Paused,
}

/// A transition of the queue that its observers are told about.
#[derive(Debug)]
pub enum QueueEvent {
    /// `track` became current; `previous` is the track it replaced, if any.
    PlaybackStarted { track: Track, previous: Option<Track> },
    /// The queue ran empty; `last` is the track that was current.
    QueueDrained { last: Track },
}

/// Why a queue operation was refused.
#[derive(Clone, Copy, Debug, PartialEq, Eq, Structural)]
pub enum QueueError {
    /// The operation needs a current track and the queue is empty.
    NothingPlaying,
}

/// Abstract contents of a queue: the tracks in order, head first, and the
/// sub-state of the head.
pub struct QueueModel {
    pub tracks: Seq<Track>,
    pub state: PlayState,
}

pub open spec fn flip(s: PlayState) -> PlayState {
    match s {
        PlayState::Playing => PlayState::Paused,
        PlayState::Paused => PlayState::Playing,
    }
}

impl QueueModel {
    pub open spec fn is_empty(self) -> bool {
        self.tracks.len() == 0
    }

    /// The head of the queue, which is the track playing (or paused).
    pub open spec fn current(self) -> Option<Track> {
        if self.tracks.len() > 0 {
            Some(self.tracks[0])
        } else {
            None
        }
    }

    /// After appending `t`; a track that lands in an empty queue starts playing.
    pub open spec fn enqueued(self, t: Track) -> QueueModel {
        QueueModel {
            tracks: self.tracks.push(t),
            state: if self.tracks.len() == 0 {
                PlayState::Playing
            } else {
                self.state
            },
        }
    }

    /// After the head leaves; the new head, if any, starts playing.
    pub open spec fn advanced(self) -> QueueModel {
        QueueModel { tracks: self.tracks.drop_first(), state: PlayState::Playing }
    }

    /// The transition that the head leaving a non-empty queue fires.
    pub open spec fn advance_event(self) -> QueueEvent {
        if self.tracks.len() > 1 {
            QueueEvent::PlaybackStarted { track: self.tracks[1], previous: Some(self.tracks[0]) }
        } else {
            QueueEvent::QueueDrained { last: self.tracks[0] }
        }
    }

    pub open spec fn cleared(self) -> QueueModel {
        QueueModel { tracks: Seq::empty(), state: PlayState::Playing }
    }

    pub open spec fn toggled(self) -> QueueModel {
        QueueModel { tracks: self.tracks, state: flip(self.state) }
    }
}

/// Ordered tracks of one guild; the head is current.
pub struct PlaybackQueue {
    tracks: Vec<Track>,
    state: PlayState,
}

impl View for PlaybackQueue {
    type V = QueueModel;

    closed spec fn view(&self) -> QueueModel {
        QueueModel { tracks: self.tracks@, state: self.state }
    }
}

impl PlaybackQueue {
    pub fn new() -> (r: PlaybackQueue)
        ensures
            r@.tracks == Seq::<Track>::empty(),
            r@.state == PlayState::Playing,
    {
        PlaybackQueue { tracks: Vec::new(), state: PlayState::Playing }
    }

    pub fn len(&self) -> (r: usize)
        ensures
            r == self@.tracks.len(),
    {
        self.tracks.len()
    }

    pub fn is_empty(&self) -> (r: bool)
        ensures
            r == self@.is_empty(),
    {
        self.tracks.len() == 0
    }

    /// The current track, or none when the queue is empty.
    pub fn current(&self) -> (r: Option<&Track>)
        ensures
            match r {
                Some(t) => self@.current() == Some(*t),
                None => self@.current() is None,
            },
    {
        if self.tracks.len() > 0 {
            Some(&self.tracks[0])
        } else {
            None
        }
    }

    /// The sub-state of the current track (meaningful while one exists).
    pub fn play_state(&self) -> (r: PlayState)
        ensures
            r == self@.state,
    {
        self.state
    }

    /// Appends `track` and returns its 1-based position. A track put into an
    /// empty queue becomes current at once and `PlaybackStarted` is returned.
    pub fn enqueue(&mut self, track: Track) -> (r: (usize, Option<QueueEvent>))
        requires
            old(self)@.tracks.len() < usize::MAX,
        ensures
            final(self)@ == old(self)@.enqueued(track),
            r.0 == old(self)@.tracks.len() + 1,
            r.1 == (if old(self)@.is_empty() {
                Some(QueueEvent::PlaybackStarted { track, previous: None })
            } else {
                None
            }),
    {
        let was_empty = self.tracks.len() == 0;
        let event = if was_empty {
            Some(QueueEvent::PlaybackStarted { track: track.duplicate(), previous: None })
        } else {
            None
        };
        self.tracks.push(track);
        if was_empty {
            self.state = PlayState::Playing;
        }
        (self.tracks.len(), event)
    }

    fn advance(&mut self) -> (r: QueueEvent)
        requires
            old(self)@.tracks.len() > 0,
        ensures
            final(self)@ == old(self)@.advanced(),
            r == old(self)@.advance_event(),
    {
        let previous = self.tracks.remove(0);
        assert(self.tracks@ =~= old(self)@.tracks.drop_first());
        self.state = PlayState::Playing;
        if self.tracks.len() > 0 {
            QueueEvent::PlaybackStarted { track: self.tracks[0].duplicate(), previous: Some(previous) }
        } else {
            QueueEvent::QueueDrained { last: previous }
        }
    }

    /// Removes the current track. The next one, if any, starts playing;
    /// otherwise the queue has drained.
    pub fn skip(&mut self) -> (r: Result<QueueEvent, QueueError>)
        ensures
            old(self)@.is_empty() ==> r == Err::<QueueEvent, QueueError>(QueueError::NothingPlaying)
                && final(self)@ == old(self)@,
            !old(self)@.is_empty() ==> r == Ok::<QueueEvent, QueueError>(old(self)@.advance_event())
                && final(self)@ == old(self)@.advanced(),
    {
        if self.tracks.len() == 0 {
            Err(QueueError::NothingPlaying)
        } else {
            Ok(self.advance())
        }
    }

    /// The transport reports that track `id` finished. If it is the current
    /// track the queue moves on; a report about any other track is stale and
    /// changes nothing.
    pub fn track_ended(&mut self, id: u64) -> (r: Option<QueueEvent>)
        ensures
            (old(self)@.current() matches Some(t) && t.id == id) ==> r == Some(
                old(self)@.advance_event(),
            ) && final(self)@ == old(self)@.advanced(),
            !(old(self)@.current() matches Some(t) && t.id == id) ==> r is None && final(self)@
                == old(self)@,
    {
        if self.tracks.len() > 0 && self.tracks[0].id == id {
            Some(self.advance())
        } else {
            None
        }
    }

    /// Clears the queue; `QueueDrained` comes back when something was playing.
    pub fn stop(&mut self) -> (r: Option<QueueEvent>)
        ensures
            final(self)@ == old(self)@.cleared(),
            r == (if old(self)@.is_empty() {
                None
            } else {
                Some(QueueEvent::QueueDrained { last: old(self)@.tracks[0] })
            }),
    {
        let r = if self.tracks.len() == 0 {
            None
        } else {
            Some(QueueEvent::QueueDrained { last: self.tracks.remove(0) })
        };
        self.tracks.clear();
        self.state = PlayState::Playing;
        r
    }

    /// Toggles the current track between playing and paused and returns the
    /// resulting sub-state.
    pub fn pause_resume(&mut self) -> (r: Result<PlayState, QueueError>)
        ensures
            old(self)@.is_empty() ==> r == Err::<PlayState, QueueError>(QueueError::NothingPlaying)
                && final(self)@ == old(self)@,
            !old(self)@.is_empty() ==> r == Ok::<PlayState, QueueError>(flip(old(self)@.state))
                && final(self)@ == old(self)@.toggled(),
    {
        if self.tracks.len() == 0 {
            return Err(QueueError::NothingPlaying);
        }
        self.state = match self.state {
            PlayState::Playing => PlayState::Paused,
            PlayState::Paused => PlayState::Playing,
        };
        Ok(self.state)
    }
}

/// Toggling pause twice returns the queue to the state it started in.
pub proof fn lemma_toggle_twice(q: QueueModel)
    ensures
        q.toggled().toggled() == q,
        flip(flip(q.state)) == q.state,
{
}


} // verus!
