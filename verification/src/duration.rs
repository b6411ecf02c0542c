//! Flight durations: ISO-8601 in, a humanized form out.

use vstd::prelude::*;

verus! {

/// The span of time that an ISO-8601 duration denotes, as whole seconds and
/// the nanoseconds beyond them: what `iso8601_duration::Duration::parse`
/// reads, counted in seconds by `Duration::num_seconds` and turned into a
/// `std::time::Duration` by `try_from_secs_f32`. `None` where the text does
/// not parse, where it counts years or months, and where the count is
/// negative, not finite or too large.
pub uninterp spec fn iso8601_span(text: Seq<char>) -> Option<(u64, u32)>;

/// The text that `humantime::format_duration` writes for a span of time,
/// such as `2h 15m`.
pub uninterp spec fn humanized_text(secs: u64, nanos: u32) -> Seq<char>;

/// One second in nanoseconds.
pub const NANOS_PER_SEC: u32 = 1_000_000_000;

/// Calls `iso8601_duration::Duration::parse`, then `Duration::num_seconds`
/// and `std::time::Duration::try_from_secs_f32`. The contract claims that
/// the outcome depends on the text alone, and, as `subsec_nanos` documents,
/// that the nanoseconds stay below one second.
#[verifier::external_body]
pub(crate) fn parse_span(text: &str) -> (r: Option<(u64, u32)>)
    ensures
        r == iso8601_span(text@),
        r matches Some(span) ==> span.1 < NANOS_PER_SEC,
{
    let parsed = iso8601_duration::Duration::parse(text).ok()?;
    let span = std::time::Duration::try_from_secs_f32(parsed.num_seconds()?).ok()?;
    Some((span.as_secs(), span.subsec_nanos()))
}

/// Calls `humantime::format_duration` on `std::time::Duration::new(secs,
/// nanos)` and takes the text it displays.
#[verifier::external_body]
pub(crate) fn humanize(secs: u64, nanos: u32) -> (r: String)
    requires
        nanos < NANOS_PER_SEC,
    ensures
        r@ == humanized_text(secs, nanos),
{
    humantime::format_duration(std::time::Duration::new(secs, nanos)).to_string()
}

/// The humanized form of a parsed duration; of zero seconds where there is
/// none.
pub open spec fn pretty_span(span: Option<(u64, u32)>) -> Seq<char> {
    match span {
        Some((secs, nanos)) => humanized_text(secs, nanos),
        None => humanized_text(0, 0),
    }
}

/// The humanized form of an ISO-8601 duration; of zero seconds where the
/// text denotes no span of time.
pub open spec fn pretty_duration_text(duration: Seq<char>) -> Seq<char> {
    pretty_span(iso8601_span(duration))
}

/// A duration that does not parse renders as zero seconds do.
pub proof fn unparseable_duration_renders_as_zero(duration: Seq<char>)
    requires
        iso8601_span(duration) is None,
    ensures
        pretty_duration_text(duration) == humanized_text(0, 0),
{
}

/// Humanizes a parsed duration, falling back to zero seconds.
pub fn pretty_parsed_duration(span: Option<(u64, u32)>) -> (r: String)
    requires
        span matches Some(s) ==> s.1 < NANOS_PER_SEC,
    ensures
        r@ == pretty_span(span),
{
    match span {
        Some((secs, nanos)) => humanize(secs, nanos),
        None => humanize(0, 0),
    }
}

/// Humanizes an ISO-8601 duration, falling back to zero seconds.
pub fn pretty_duration(duration: &str) -> (r: String)
    ensures
        r@ == pretty_duration_text(duration@),
{
    pretty_parsed_duration(parse_span(duration))
}

} // verus!
