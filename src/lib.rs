//! Playback-session core of a voice-channel media bot: per-guild sessions,
//! their track queues, the timers that drive them, and bitrate negotiation.

pub mod bitrate;
pub mod queue;
pub mod registry;
pub mod scheduler;
pub mod session;
pub mod text;
pub mod track;
