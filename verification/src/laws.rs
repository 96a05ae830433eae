//! The laws of the cache, stated over the mathematical state and its
//! transitions and proved once and for all.

use vstd::prelude::*;
use crate::cache::{CacheView, json_wf, needs_reload, probe_step, reload_step, reported};

verus! {

/// Law: a snapshot of a present document is consistent — it reports exactly
/// the stored time, which is the time recorded when that document was
/// installed.
pub proof fn lemma_present_reports_install_time(v: CacheView)
    requires
        v.present,
    ensures
        reported(v) == (true, v.mtime),
{
}

/// Law: a successful reload installs the document, the text it was parsed
/// from, and the probed modification time together, and a snapshot of that
/// state reports exactly that time.
pub proof fn lemma_reload_pairs_time_with_content(v: CacheView, s: Seq<char>, probed: u64)
    requires
        json_wf(s),
    ensures
        ({
            let v2 = reload_step(v, Some(s), probed);
            v2.present && v2.mtime == probed && v2.source == s && reported(v2) == (true, probed)
        }),
{
}

/// Law: whenever the document is absent, the reported time is exactly zero,
/// whatever stale time the state still holds internally.
pub proof fn lemma_absent_reports_zero(v: CacheView)
    requires
        !v.present,
    ensures
        reported(v) == (false, 0u64),
{
}

/// Law: a reload is due if and only if the probed modification time is
/// strictly greater than the stored one; an equal or smaller time, or a
/// failed probe, never triggers one.
pub proof fn lemma_reload_iff_strictly_newer(v: CacheView, probe: Option<u64>)
    ensures
        needs_reload(v, probe) <==> (probe matches Some(m) && m > v.mtime),
{
}

/// Law: after a successful reload at some probed time, probing that same
/// time again asks for no reload, so the file is not read or parsed again
/// while its modification time is unchanged.
pub proof fn lemma_no_redundant_reload(v: CacheView, s: Seq<char>, probed: u64)
    requires
        json_wf(s),
    ensures
        !needs_reload(reload_step(v, Some(s), probed), Some(probed)),
{
}

/// Law: a failed probe (the backing file is missing or unreadable) degrades
/// the state to absent, reported as `(absent, 0)`, and never surfaces an
/// error.
pub proof fn lemma_missing_file_fail_soft(v: CacheView)
    ensures
        reported(probe_step(v, Option::None)) == (false, 0u64),
{
}

/// Law: a reload that finds malformed content degrades the state to absent,
/// reported as `(absent, 0)`, and discards any previously cached document.
pub proof fn lemma_malformed_content_fail_soft(v: CacheView, s: Seq<char>, probed: u64)
    requires
        !json_wf(s),
    ensures
        reported(reload_step(v, Some(s), probed)) == (false, 0u64),
        !reload_step(v, Some(s), probed).present,
{
}

/// Law: no transition changes the stored modification time except a reload
/// that installs a new document at its probed time.
pub proof fn lemma_mtime_changes_only_on_install(v: CacheView, probe: Option<u64>, content: Option<Seq<char>>, probed: u64)
    ensures
        probe_step(v, probe).mtime == v.mtime,
        ({
            let v2 = reload_step(v, content, probed);
            v2.mtime == v.mtime || (v2.present && v2.mtime == probed && content == Some(v2.source))
        }),
{
}

} // verus!
