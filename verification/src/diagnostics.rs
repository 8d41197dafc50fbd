//! Slow-update diagnostics.
//!
//! The dispatch loop may time each update call. An update that takes at
//! least [`SLOW_UPDATE_THRESHOLD_MS`] milliseconds yields exactly one
//! [`SlowUpdateReport`] carrying the message's diagnostic label, truncated
//! to at most [`LABEL_LIMIT`] characters plus an ellipsis so a single report
//! stays small. This is pure observability: it never changes what the
//! dispatch loop does with the message.

use vstd::prelude::*;

verus! {

use vstd::string::StrSliceExecFns;
use vstd::string::StringExecFns;

/// An update call taking at least this many milliseconds is reported.
pub const SLOW_UPDATE_THRESHOLD_MS: u64 = 200;

/// A reported label keeps at most this many characters of the original.
pub const LABEL_LIMIT: usize = 100;

/// One slow update call: the (possibly truncated) diagnostic label of the
/// message it processed, and how long the call took.
pub struct SlowUpdateReport {
    /// The message's diagnostic label, truncated to at most
    /// [`LABEL_LIMIT`] characters plus an ellipsis.
    pub label: String,
    /// How many milliseconds the update call took.
    pub elapsed_ms: u64,
}

/// The label as a report carries it: unchanged when it has at most
/// [`LABEL_LIMIT`] characters, otherwise its first [`LABEL_LIMIT`]
/// characters followed by an ellipsis.
pub open spec fn truncated_label(s: Seq<char>) -> Seq<char> {
    if s.len() <= LABEL_LIMIT {
        s
    } else {
        s.subrange(0, LABEL_LIMIT as int).push('\u{2026}')
    }
}

/// A truncated label never exceeds [`LABEL_LIMIT`] characters plus the
/// one-character ellipsis, and is only ever shortened, never altered:
/// what it keeps is a prefix of the original.
pub proof fn lemma_truncated_label_bound(s: Seq<char>)
    ensures
        truncated_label(s).len() <= LABEL_LIMIT + 1,
        s.len() <= LABEL_LIMIT ==> truncated_label(s) == s,
        s.len() > LABEL_LIMIT ==> truncated_label(s).take(LABEL_LIMIT as int) == s.take(LABEL_LIMIT as int),
{
    if s.len() > LABEL_LIMIT {
        assert(truncated_label(s).take(LABEL_LIMIT as int) =~= s.take(LABEL_LIMIT as int));
    }
}

/// Truncates a diagnostic label for reporting.
pub fn truncate_label(label: &str) -> (r: String)
    ensures
        r@ == truncated_label(label@),
{
    let n = label.unicode_len();
    if n <= LABEL_LIMIT {
        String::from_str(label)
    } else {
        let head = label.substring_char(0, LABEL_LIMIT);
        let mut out = String::from_str(head);
        out.append("\u{2026}");
        proof {
            reveal_strlit("\u{2026}");
            assert(out@ =~= truncated_label(label@));
        }
        out
    }
}

/// Decides whether one update call is reported as slow: a report comes back
/// exactly when the call took at least [`SLOW_UPDATE_THRESHOLD_MS`]
/// milliseconds, and then exactly one, carrying the truncated label and the
/// elapsed time.
pub fn slow_update_warning(label: &str, elapsed_ms: u64) -> (r: Option<SlowUpdateReport>)
    ensures
        r is Some <==> elapsed_ms >= SLOW_UPDATE_THRESHOLD_MS,
        r is Some ==> r->0.label@ == truncated_label(label@) && r->0.elapsed_ms == elapsed_ms,
{
    if elapsed_ms >= SLOW_UPDATE_THRESHOLD_MS {
        Some(SlowUpdateReport { label: truncate_label(label), elapsed_ms })
    } else {
        None
    }
}

} // verus!
