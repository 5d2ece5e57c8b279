use voice_session::bitrate::{negotiate_bitrate, ChannelLookup, DEFAULT_BITRATE};
use voice_session::queue::{PlayState, PlaybackQueue, QueueError, QueueEvent};
use voice_session::scheduler::{slot_kind, EventKind, EventScheduler, TimerSlot};
use voice_session::text::{accepts_source_url, duration_format, hyperlink_song};
use voice_session::track::{MediaDuration, Track, TrackMetadata};

fn meta() -> TrackMetadata {
    TrackMetadata {
        title: None,
        artist: None,
        duration: None,
        thumbnail_url: None,
        source_url: None,
    }
}

fn track(id: u64) -> Track {
    Track { id, source: String::new(), metadata: meta(), queued_by: 0, queued_at: 0 }
}

#[test]
fn negotiate_falls_back_to_default() {
    assert_eq!(negotiate_bitrate(ChannelLookup::Guild { ceiling: None }), 128_000);
    assert_eq!(negotiate_bitrate(ChannelLookup::Failed), DEFAULT_BITRATE);
    assert_eq!(negotiate_bitrate(ChannelLookup::NotVoice), DEFAULT_BITRATE);
    assert_eq!(negotiate_bitrate(ChannelLookup::Guild { ceiling: Some(384_000) }), 384_000);
    assert_eq!(negotiate_bitrate(ChannelLookup::Guild { ceiling: Some(u64::MAX) }), i32::MAX);
}

#[test]
fn queue_transitions() {
    let mut q = PlaybackQueue::new();
    assert_eq!(q.skip().unwrap_err(), QueueError::NothingPlaying);
    assert_eq!(q.pause_resume().unwrap_err(), QueueError::NothingPlaying);
    assert!(q.stop().is_none());
    let (p, ev) = q.enqueue(track(1));
    assert_eq!(p, 1);
    assert!(matches!(ev, Some(QueueEvent::PlaybackStarted { previous: None, .. })));
    let (p, ev) = q.enqueue(track(2));
    assert_eq!(p, 2);
    assert!(ev.is_none());
    assert_eq!(q.pause_resume().unwrap(), PlayState::Paused);
    assert!(q.track_ended(2).is_none());
    let ev = q.track_ended(1).unwrap();
    assert!(matches!(ev, QueueEvent::PlaybackStarted { .. }));
    assert_eq!(q.play_state(), PlayState::Playing);
    match q.stop() {
        Some(QueueEvent::QueueDrained { last }) => assert_eq!(last.id, 2),
        _ => panic!("expected the queue to drain"),
    }
    assert_eq!(q.len(), 0);
}

#[test]
fn scheduler_cancel_and_fire() {
    let mut s = EventScheduler::new();
    let a = s.arm(TimerSlot::AnnounceStart, 100, 20, None);
    let g = s.arm(TimerSlot::IdleGrace, 100, 50, None);
    assert_ne!(a.token, g.token);
    assert_eq!(a.due_at, 120);
    assert!(!s.fire(TimerSlot::AnnounceStart, a.token, 119));
    assert!(s.fire(TimerSlot::AnnounceStart, a.token, 120));
    assert!(!s.fire(TimerSlot::AnnounceStart, a.token, 121));
    assert!(!s.cancel_token(a.token));
    assert!(s.cancel_token(g.token));
    assert!(!s.fire(TimerSlot::IdleGrace, g.token, 1_000));
    let w = s.arm(TimerSlot::IdleSweep, 0, u64::MAX, Some(10));
    assert_eq!(w.due_at, u64::MAX);
    s.cancel_all();
    assert!(s.pending(TimerSlot::IdleSweep).is_none());
    assert_eq!(slot_kind(TimerSlot::IdleGrace), EventKind::IdleDisconnectCheck);
    assert_eq!(slot_kind(TimerSlot::AnnounceStart), EventKind::AnnounceStart);
}

#[test]
fn hyperlink_of_song() {
    let mut m = meta();
    assert_eq!(hyperlink_song(&m), "[ - ]()");
    m.title = Some("Song".to_string());
    m.artist = Some("Band".to_string());
    m.source_url = Some("https://x.test/a".to_string());
    assert_eq!(hyperlink_song(&m), "[Song - Band](https://x.test/a)");
    let copy = m.duplicate();
    assert_eq!(hyperlink_song(&copy), hyperlink_song(&m));
}

#[test]
fn duration_text() {
    assert_eq!(duration_format(None), "Live");
    assert_eq!(duration_format(Some(MediaDuration::from_secs(0))), "Live");
    assert_eq!(duration_format(Some(MediaDuration::from_secs(90))), "1m 30s");
    assert_eq!(duration_format(Some(MediaDuration::new(3725, 500_000_000))), "1h 2m 5s");
    assert_eq!(duration_format(Some(MediaDuration::new(5, 1_234_567))), "5s 234us 567ns");
}

#[test]
fn source_urls() {
    assert!(accepts_source_url("https://example.org/watch"));
    assert!(accepts_source_url("http"));
    assert!(!accepts_source_url("htt"));
    assert!(!accepts_source_url("ftp://example.org"));
    assert!(!accepts_source_url("never gonna"));
}
