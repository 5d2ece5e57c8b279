use vstd::prelude::*;

verus! {

/// Bitrate used when a channel reports no usable ceiling, in bits per second.
pub const DEFAULT_BITRATE: i32 = 128_000;

/// What the channel capability lookup reported for a channel.
#[derive(Clone, Copy, Debug, PartialEq, Eq, Structural)]
pub enum ChannelLookup {
    /// The lookup itself failed.
    Failed,
    /// The channel exists but is not a guild channel that can carry voice.
    NotVoice,
    /// A guild channel, with the bitrate ceiling it reports, if any.
    Guild { ceiling: Option<u64> },
}

/// The bitrate to run a connection at, given what the lookup reported: the
/// reported ceiling (capped at what the transport accepts), else the default.
pub open spec fn negotiated(lookup: ChannelLookup) -> i32 {
    match lookup {
        ChannelLookup::Guild { ceiling: Some(c) } => if c <= i32::MAX as u64 {
            c as i32
        } else {
            i32::MAX
        },
        _ => DEFAULT_BITRATE,
    }
}

/// Whether the lookup reported an explicit ceiling.
pub open spec fn has_ceiling(lookup: ChannelLookup) -> bool {
    lookup matches ChannelLookup::Guild { ceiling: Some(_) }
}

/// Picks the operating bitrate for a channel. Never fails: every failure of
/// the lookup falls back to `DEFAULT_BITRATE`.
pub fn negotiate_bitrate(lookup: ChannelLookup) -> (r: i32)
    ensures
        r == negotiated(lookup),
        !has_ceiling(lookup) ==> r == DEFAULT_BITRATE,
        r > 0 || has_ceiling(lookup),
{
    match lookup {
        ChannelLookup::Guild { ceiling: Some(c) } => {
            if c <= i32::MAX as u64 {
                c as i32
            } else {
                i32::MAX
            }
        },
        _ => DEFAULT_BITRATE,
    }
}

} // verus!
