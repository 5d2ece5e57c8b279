use voice_session::bitrate::{ChannelLookup, DEFAULT_BITRATE};
use voice_session::queue::{PlayState, QueueEvent};
use voice_session::registry::SessionRegistry;
use voice_session::scheduler::TimerSlot;
use voice_session::session::{
    ConnectionState, DisconnectReason, Notice, Session, SessionError, ANNOUNCE_DELAY_MS,
    IDLE_GRACE_MS, IDLE_SWEEP_MS,
};
use voice_session::track::{Track, TrackMetadata};

const GUILD: u64 = 7;
const CHANNEL: u64 = 70;

fn track(id: u64) -> Track {
    Track {
        id,
        source: format!("https://example.org/{}", id),
        metadata: TrackMetadata {
            title: Some(format!("song {}", id)),
            artist: None,
            duration: None,
            thumbnail_url: None,
            source_url: None,
        },
        queued_by: 1,
        queued_at: 0,
    }
}

fn joined() -> Session {
    let mut s = Session::new(GUILD);
    s.join(CHANNEL, true, ChannelLookup::Guild { ceiling: None }, 0).unwrap();
    s
}

fn current_id(s: &Session) -> Option<u64> {
    s.queue().current().map(|t| t.id)
}

#[test]
fn scenario_enqueue_skip_drain() {
    let mut s = joined();
    let (pos, out) = s.enqueue(track(1), 10).unwrap();
    assert_eq!(pos, 1);
    assert_eq!(current_id(&s), Some(1));
    assert!(matches!(out.notice, Some(Notice::Transition(QueueEvent::PlaybackStarted { .. }))));
    let (pos, _) = s.enqueue(track(2), 20).unwrap();
    assert_eq!(pos, 2);
    assert_eq!(current_id(&s), Some(1));
    let out = s.skip(30).unwrap();
    assert_eq!(current_id(&s), Some(2));
    match out.notice {
        Some(Notice::Transition(QueueEvent::PlaybackStarted { track, previous })) => {
            assert_eq!(track.id, 2);
            assert_eq!(previous.map(|t| t.id), Some(1));
        }
        _ => panic!("expected playback to start"),
    }
    let out = s.skip(40).unwrap();
    assert!(s.queue().is_empty());
    match out.notice {
        Some(Notice::Transition(QueueEvent::QueueDrained { last })) => assert_eq!(last.id, 2),
        _ => panic!("expected the queue to drain"),
    }
    let timer = out.timer.unwrap();
    assert_eq!(timer.slot, TimerSlot::IdleGrace);
    assert_eq!(timer.delay_ms, IDLE_GRACE_MS);
    assert!(s.timers().pending(TimerSlot::IdleGrace).is_some());
}

#[test]
fn enqueue_on_empty_schedules_one_announcement() {
    let mut s = joined();
    let sweep = s.timers().pending(TimerSlot::IdleSweep);
    let (_, out) = s.enqueue(track(1), 100).unwrap();
    let timer = out.timer.unwrap();
    assert_eq!(timer.slot, TimerSlot::AnnounceStart);
    assert_eq!(timer.delay_ms, ANNOUNCE_DELAY_MS);
    let e = s.timers().pending(TimerSlot::AnnounceStart).unwrap();
    assert_eq!(e.token, timer.token);
    assert_eq!(e.due_at, 100 + ANNOUNCE_DELAY_MS);
    assert_eq!(s.timers().pending(TimerSlot::IdleSweep), sweep);
    let before = s.timers().pending(TimerSlot::AnnounceStart);
    let (pos, out) = s.enqueue(track(2), 200).unwrap();
    assert_eq!(pos, 2);
    assert!(out.timer.is_none());
    assert!(out.notice.is_none());
    assert_eq!(s.timers().pending(TimerSlot::AnnounceStart), before);
}

#[test]
fn skip_on_empty_queue_fails() {
    let mut s = joined();
    let err = s.skip(5).unwrap_err();
    assert_eq!(err, SessionError::NothingPlaying { guild: GUILD });
    assert!(s.queue().is_empty());
    assert!(s.is_connected());
    assert!(s.timers().pending(TimerSlot::IdleGrace).is_none());
}

#[test]
fn enqueue_during_grace_prevents_disconnect() {
    let mut s = joined();
    s.enqueue(track(1), 0).unwrap();
    let out = s.skip(1_000).unwrap();
    let grace = out.timer.unwrap();
    assert_eq!(grace.slot, TimerSlot::IdleGrace);
    s.enqueue(track(2), 2_000).unwrap();
    assert!(s.timers().pending(TimerSlot::IdleGrace).is_none());
    let out = s.on_timer(TimerSlot::IdleGrace, grace.token, 1_000 + IDLE_GRACE_MS);
    assert!(out.notice.is_none());
    assert!(s.is_connected());
    assert_eq!(current_id(&s), Some(2));
}

#[test]
fn idle_grace_disconnects_once() {
    let mut registry: SessionRegistry<Session> = SessionRegistry::new();
    registry.get_or_create(GUILD, joined());
    let mut s = joined();
    s.enqueue(track(1), 0).unwrap();
    let grace = s.stop(10).unwrap().timer.unwrap();
    // not yet due
    let early = s.on_timer(TimerSlot::IdleGrace, grace.token, 10 + IDLE_GRACE_MS - 1);
    assert!(early.notice.is_none());
    assert!(s.is_connected());
    let out = s.on_timer(TimerSlot::IdleGrace, grace.token, 10 + IDLE_GRACE_MS);
    match out.notice {
        Some(Notice::Disconnected { guild, reason }) => {
            assert_eq!(guild, GUILD);
            assert_eq!(reason, DisconnectReason::Idle);
        }
        _ => panic!("expected a disconnect"),
    }
    assert_eq!(s.connection(), ConnectionState::Disconnected);
    assert!(registry.remove(GUILD));
    let again = s.on_timer(TimerSlot::IdleGrace, grace.token, 20 + IDLE_GRACE_MS);
    assert!(again.notice.is_none());
    assert_eq!(s.leave().unwrap_err(), SessionError::NotConnected { guild: GUILD });
    assert!(!registry.remove(GUILD));
    assert!(registry.get_or_none(GUILD).is_none());
}

#[test]
fn idle_sweep_waits_while_playing() {
    let mut s = joined();
    let sweep = s.timers().pending(TimerSlot::IdleSweep).unwrap();
    assert_eq!(sweep.every, Some(IDLE_SWEEP_MS));
    s.enqueue(track(1), 0).unwrap();
    let out = s.on_timer(TimerSlot::IdleSweep, sweep.token, sweep.due_at);
    assert!(out.notice.is_none());
    let again = out.timer.unwrap();
    assert_eq!(again.token, sweep.token);
    assert_eq!(again.delay_ms, IDLE_SWEEP_MS);
    assert!(s.is_connected());
    s.stop(0).unwrap();
    let out = s.on_timer(TimerSlot::IdleSweep, sweep.token, sweep.due_at + IDLE_SWEEP_MS);
    assert!(matches!(out.notice, Some(Notice::Disconnected { reason: DisconnectReason::Idle, .. })));
    assert!(!s.is_connected());
}

#[test]
fn play_pause_twice_restores_state() {
    let mut s = joined();
    s.enqueue(track(1), 0).unwrap();
    assert_eq!(s.pause_target().unwrap(), PlayState::Paused);
    assert_eq!(s.play_pause(true).unwrap(), PlayState::Paused);
    assert_eq!(s.play_pause(true).unwrap(), PlayState::Playing);
    assert_eq!(s.queue().play_state(), PlayState::Playing);
}

#[test]
fn play_pause_errors() {
    let mut s = Session::new(GUILD);
    assert_eq!(s.play_pause(true).unwrap_err(), SessionError::NotConnected { guild: GUILD });
    let mut s = joined();
    assert_eq!(s.play_pause(true).unwrap_err(), SessionError::NothingPlaying { guild: GUILD });
    s.enqueue(track(1), 0).unwrap();
    assert_eq!(s.play_pause(false).unwrap_err(), SessionError::Adapter { guild: GUILD });
    assert_eq!(s.queue().play_state(), PlayState::Playing);
}

#[test]
fn announce_names_current_track() {
    let mut s = joined();
    let (_, out) = s.enqueue(track(4), 0).unwrap();
    let t = out.timer.unwrap();
    let out = s.on_timer(t.slot, t.token, ANNOUNCE_DELAY_MS);
    match out.notice {
        Some(Notice::Announce { track }) => assert_eq!(track.id, 4),
        _ => panic!("expected an announcement"),
    }
    let out = s.on_timer(t.slot, t.token, ANNOUNCE_DELAY_MS + 1);
    assert!(out.notice.is_none());
}

#[test]
fn announce_cancelled_when_track_ends_early() {
    let mut s = joined();
    s.enqueue(track(1), 0).unwrap();
    let first = s.timers().pending(TimerSlot::AnnounceStart).unwrap();
    s.enqueue(track(2), 1).unwrap();
    let out = s.track_ended(1, 5);
    assert!(matches!(out.notice, Some(Notice::Transition(QueueEvent::PlaybackStarted { .. }))));
    let stale = s.on_timer(TimerSlot::AnnounceStart, first.token, 100);
    assert!(stale.notice.is_none());
}

#[test]
fn stale_track_end_is_ignored() {
    let mut s = joined();
    s.enqueue(track(1), 0).unwrap();
    let out = s.track_ended(9, 5);
    assert!(out.notice.is_none());
    assert_eq!(current_id(&s), Some(1));
}

#[test]
fn bitrate_defaults_without_ceiling() {
    let mut s = Session::new(GUILD);
    s.join(CHANNEL, true, ChannelLookup::Guild { ceiling: None }, 0).unwrap();
    assert_eq!(s.bitrate(), 128_000);
    assert_eq!(DEFAULT_BITRATE, 128_000);
    let mut s = Session::new(GUILD);
    s.join(CHANNEL, true, ChannelLookup::Guild { ceiling: Some(64_000) }, 0).unwrap();
    assert_eq!(s.bitrate(), 64_000);
}

#[test]
fn join_errors_and_switch() {
    let mut s = Session::new(GUILD);
    assert!(s.needs_connect(CHANNEL));
    let err = s.join(CHANNEL, false, ChannelLookup::Failed, 0).unwrap_err();
    assert_eq!(err, SessionError::Connect { guild: GUILD, channel: CHANNEL });
    assert!(!s.is_connected());
    s.join(CHANNEL, true, ChannelLookup::Failed, 0).unwrap();
    assert!(!s.needs_connect(CHANNEL));
    s.enqueue(track(1), 0).unwrap();
    let out = s.join(CHANNEL, false, ChannelLookup::Failed, 0).unwrap();
    assert!(out.timer.is_none());
    s.join(71, true, ChannelLookup::Guild { ceiling: Some(96_000) }, 0).unwrap();
    assert_eq!(s.connection(), ConnectionState::Connected { channel: 71 });
    assert_eq!(s.bitrate(), 96_000);
    assert_eq!(current_id(&s), Some(1));
}

#[test]
fn mute_and_deafen_toggle() {
    let mut s = Session::new(GUILD);
    assert_eq!(s.mute(true).unwrap_err(), SessionError::NotConnected { guild: GUILD });
    let mut s = joined();
    assert_eq!(s.mute_target().unwrap(), true);
    assert_eq!(s.mute(true).unwrap(), true);
    assert!(s.is_muted());
    assert_eq!(s.mute(false).unwrap_err(), SessionError::Adapter { guild: GUILD });
    assert!(s.is_muted());
    assert_eq!(s.mute(true).unwrap(), false);
    assert_eq!(s.deafen_target().unwrap(), true);
    assert_eq!(s.deafen(true).unwrap(), true);
    assert_eq!(s.deafen(true).unwrap(), false);
    assert!(!s.is_deafened());
}

#[test]
fn leave_clears_everything() {
    let mut s = joined();
    s.enqueue(track(1), 0).unwrap();
    let out = s.leave().unwrap();
    assert!(matches!(out.notice, Some(Notice::Disconnected { reason: DisconnectReason::Left, .. })));
    assert!(s.queue().is_empty());
    assert!(s.timers().pending(TimerSlot::IdleSweep).is_none());
    assert!(s.timers().pending(TimerSlot::AnnounceStart).is_none());
    assert_eq!(s.enqueue(track(2), 0).unwrap_err(), SessionError::NotConnected { guild: GUILD });
    assert_eq!(s.stop(0).unwrap_err(), SessionError::NotConnected { guild: GUILD });
    assert_eq!(s.now_playing().unwrap_err(), SessionError::NotConnected { guild: GUILD });
}

#[test]
fn now_playing_reports_current() {
    let mut s = joined();
    assert_eq!(s.now_playing().unwrap_err(), SessionError::NothingPlaying { guild: GUILD });
    s.enqueue(track(3), 0).unwrap();
    assert_eq!(s.now_playing().unwrap().id, 3);
}

#[test]
fn stop_on_empty_queue_is_quiet() {
    let mut s = joined();
    let out = s.stop(0).unwrap();
    assert!(out.notice.is_none());
    assert!(out.timer.is_none());
}

#[test]
fn registry_guilds_are_independent() {
    let mut r: SessionRegistry<Session> = SessionRegistry::new();
    assert!(r.get_or_create(1, Session::new(1)));
    assert!(!r.get_or_create(1, Session::new(99)));
    assert_eq!(r.get_or_none(1).unwrap().guild_id(), 1);
    assert!(r.get_or_create(2, Session::new(2)));
    assert!(r.remove(1));
    assert!(r.contains(2));
    assert_eq!(r.get_or_none(2).unwrap().guild_id(), 2);
    assert_eq!(r.len(), 1);
}
