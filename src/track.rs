use vstd::prelude::*;

verus! {

/// Length of a piece of media: whole seconds plus a sub-second part.
#[derive(Clone, Copy, Debug, PartialEq, Eq, Structural)]
pub struct MediaDuration {
    pub secs: u64,
    pub nanos: u32,
}

impl MediaDuration {
    /// The sub-second part stays below one second.
    pub open spec fn wf(self) -> bool {
        self.nanos < 1_000_000_000
    }

    pub fn new(secs: u64, nanos: u32) -> (r: MediaDuration)
        requires
            nanos < 1_000_000_000,
        ensures
            r.secs == secs,
            r.nanos == nanos,
            r.wf(),
    {
        MediaDuration { secs, nanos }
    }

    pub fn from_secs(secs: u64) -> (r: MediaDuration)
        ensures
            r.secs == secs,
            r.nanos == 0,
            r.wf(),
    {
        MediaDuration { secs, nanos: 0 }
    }
}

/// What is known about a track's content. An absent or zero duration marks a
/// live stream.
#[derive(Debug)]
pub struct TrackMetadata {
    pub title: Option<String>,
    pub artist: Option<String>,
    pub duration: Option<MediaDuration>,
    pub thumbnail_url: Option<String>,
    pub source_url: Option<String>,
}

/// One queued unit of playable media. Immutable once created.
#[derive(Debug)]
pub struct Track {
    /// Opaque handle that identifies the track.
    pub id: u64,
    /// Where the media comes from (a URL or a resolved stream reference).
    pub source: String,
    pub metadata: TrackMetadata,
    /// The user who queued the track.
    pub queued_by: u64,
    /// When the track was queued, in milliseconds since the Unix epoch.
    pub queued_at: i64,
}

fn copy_text(o: &Option<String>) -> (r: Option<String>)
    ensures
        r == *o,
{
    match o {
        Some(s) => Some(s.clone()),
        None => None,
    }
}

impl TrackMetadata {
    pub open spec fn wf(&self) -> bool {
        match self.duration {
            Some(d) => d.wf(),
            None => true,
        }
    }

    /// An equal, independent copy.
    pub fn duplicate(&self) -> (r: TrackMetadata)
        ensures
            r == *self,
    {
        TrackMetadata {
            title: copy_text(&self.title),
            artist: copy_text(&self.artist),
            duration: self.duration,
            thumbnail_url: copy_text(&self.thumbnail_url),
            source_url: copy_text(&self.source_url),
        }
    }
}

impl Track {
    /// An equal, independent copy, so that every observer of a track sees the
    /// same metadata.
    pub fn duplicate(&self) -> (r: Track)
        ensures
            r == *self,
    {
        Track {
            id: self.id,
            source: self.source.clone(),
            metadata: self.metadata.duplicate(),
            queued_by: self.queued_by,
            queued_at: self.queued_at,
        }
    }
}

} // verus!
