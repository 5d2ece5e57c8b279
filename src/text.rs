use vstd::prelude::*;
use crate::track::{MediaDuration, TrackMetadata};

verus! {

/// What humantime writes for a duration of `secs` seconds and `nanos`
/// nanoseconds.
pub uninterp spec fn humantime_text(secs: u64, nanos: u32) -> Seq<char>;

/// Relies on humantime::format_duration, rendered through `Display`: the text
/// is a function of the duration alone.
#[verifier::external_body]
fn format_span(secs: u64, nanos: u32) -> (r: String)
    requires
        nanos < 1_000_000_000,
    ensures
        r@ == humantime_text(secs, nanos),
{
    humantime::format_duration(std::time::Duration::new(secs, nanos)).to_string()
}

/// The text of an optional field; absent reads as empty.
pub open spec fn text_or_empty(o: Option<String>) -> Seq<char> {
    match o {
        Some(s) => s@,
        None => Seq::empty(),
    }
}

/// `[title - artist](source_url)`, each absent part left empty.
pub open spec fn song_link(m: TrackMetadata) -> Seq<char> {
    "["@ + text_or_empty(m.title) + " - "@ + text_or_empty(m.artist) + "]("@ + text_or_empty(
        m.source_url,
    ) + ")"@
}

/// A duration that is absent or zero stands for a live stream.
pub open spec fn is_live(d: Option<MediaDuration>) -> bool {
    match d {
        Some(d) => d.secs == 0 && d.nanos == 0,
        None => true,
    }
}

fn push_opt(s: &mut String, o: &Option<String>)
    ensures
        final(s)@ == old(s)@ + text_or_empty(*o),
{
    match o {
        Some(t) => s.append(t.as_str()),
        None => {
            assert(old(s)@ + Seq::<char>::empty() =~= old(s)@);
        },
    }
}

/// A play request must name its source by a URL of the http or https scheme.
pub open spec fn is_source_url(url: Seq<char>) -> bool {
    url.len() >= 4 && url.subrange(0, 4) == "http"@
}

/// Whether `url` may be handed to the source resolver.
pub fn accepts_source_url(url: &str) -> (r: bool)
    ensures
        r == is_source_url(url@),
{
    proof {
        reveal_strlit("http");
    }
    let n = url.unicode_len();
    if n < 4 {
        return false;
    }
    let r = url.get_char(0) == 'h' && url.get_char(1) == 't' && url.get_char(2) == 't'
        && url.get_char(3) == 'p';
    let ghost h = "http"@;
    let ghost p = url@.subrange(0, 4);
    assert(h.len() == 4 && h[0] == 'h' && h[1] == 't' && h[2] == 't' && h[3] == 'p');
    if r {
        assert(p =~= h);
    } else {
        assert(p[0] != h[0] || p[1] != h[1] || p[2] != h[2] || p[3] != h[3]);
    }
    r
}

/// Markdown hyperlink naming a song and pointing at its source.
pub fn hyperlink_song(m: &TrackMetadata) -> (r: String)
    ensures
        r@ == song_link(*m),
{
    let mut s = String::from_str("[");
    push_opt(&mut s, &m.title);
    s.append(" - ");
    push_opt(&mut s, &m.artist);
    s.append("](");
    push_opt(&mut s, &m.source_url);
    s.append(")");
    s
}

/// Human-readable length of a track, without its milliseconds; `Live` for a
/// live stream.
pub fn duration_format(d: Option<MediaDuration>) -> (r: String)
    requires
        d matches Some(x) ==> x.wf(),
    ensures
        is_live(d) ==> r@ == "Live"@,
        !is_live(d) ==> r@ == humantime_text(d->0.secs, (d->0.nanos % 1_000_000) as u32),
{
    match d {
        Some(x) => {
            if x.secs != 0 || x.nanos != 0 {
                return format_span(x.secs, x.nanos % 1_000_000);
            }
        },
        None => {},
    }
    String::from_str("Live")
}

} // verus!
