//! Human-readable rendering of the liveness timeout, used in the message of
//! the timeout error that a failed activation reports.

use vstd::prelude::*;

verus! {

/// The human-readable text for a duration of `ms` milliseconds.  The text is
/// a function of the duration alone; its exact composition is the formatting
/// library's.
pub uninterp spec fn duration_text(ms: u64) -> Seq<char>;

/// Renders a duration of `ms` milliseconds as human-readable text.
///
/// Relies on `humantime::format_duration`, whose result depends on the
/// duration alone and is never empty: a zero duration renders as `0s`, and a
/// nonzero one writes at least one unit.
#[verifier::external_body]
fn format_duration_text(ms: u64) -> (r: String)
    ensures
        r@ == duration_text(ms),
        r@.len() > 0,
{
    humantime::format_duration(std::time::Duration::from_millis(ms)).to_string()
}

/// The fixed opening of the liveness-timeout message.
pub open spec fn timeout_message_prefix() -> Seq<char> {
    "Timed out waiting for service to become live after "@
}

/// Builds the message of the timeout error that a liveness wait reports: the
/// fixed opening followed by the human-readable form of the configured
/// timeout.
pub fn liveness_timeout_message(timeout_ms: u64) -> (r: String)
    ensures
        r@ == timeout_message_prefix() + duration_text(timeout_ms),
        r@.len() > timeout_message_prefix().len(),
{
    let mut r = String::from_str("Timed out waiting for service to become live after ");
    let rendered = format_duration_text(timeout_ms);
    r.append(rendered.as_str());
    r
}

} // verus!
