//! The profile cache: state, transitions, and the operations that request
//! handlers drive.
//!
//! A caller serves one request by probing the backing file's modification
//! time, handing the outcome to [`ProfileCache::step_probe`], performing the
//! read that a [`ProbeStep::Reload`] answer asks for and handing its outcome
//! to [`ProfileCache::finish_reload`], and finally taking the consistent
//! `(document, timestamp)` pair from [`ProfileCache::snapshot`].

use vstd::prelude::*;

verus! {

/// The serde_json value type, held opaquely as the parsed profile document.
#[verifier::external_type_specification]
#[verifier::external_body]
pub struct ExValue(serde_json::Value);

/// Whether a text is well-formed JSON; decided by the text alone.
pub uninterp spec fn json_wf(s: Seq<char>) -> bool;

/// Relies on serde_json::from_str::<Value>: parsing never panics, and whether
/// it succeeds depends on the characters of the text alone.
#[verifier::external_body]
fn parse_document(s: &str) -> (r: Option<serde_json::Value>)
    ensures
        r is Some <==> json_wf(s@),
{
    serde_json::from_str::<serde_json::Value>(s).ok()
}

/// Relies on serde_json::Value's Clone implementation: the clone equals the
/// original value.
#[verifier::external_body]
fn clone_document(v: &serde_json::Value) -> (r: serde_json::Value)
    ensures
        r == *v,
{
    v.clone()
}

/// The mathematical state of the cache: whether a document is present, the
/// stored modification time, and the text the present document was parsed
/// from.
pub ghost struct CacheView {
    pub present: bool,
    pub mtime: u64,
    pub source: Seq<char>,
}

/// The state after a probe of the backing file's modification time: a failed
/// probe clears the document and leaves the stored time untouched; a
/// successful probe changes nothing by itself.
pub open spec fn probe_step(v: CacheView, probe: Option<u64>) -> CacheView {
    match probe {
        Option::None => CacheView { present: false, mtime: v.mtime, source: v.source },
        Option::Some(_) => v,
    }
}

/// Whether a probe outcome calls for a reload: only a probed time strictly
/// greater than the stored one does.
pub open spec fn needs_reload(v: CacheView, probe: Option<u64>) -> bool {
    match probe {
        Option::Some(m) => m > v.mtime,
        Option::None => false,
    }
}

/// The state after a reload attempt with the given file content (`None` when
/// the read failed) probed at time `probed`: well-formed content installs the
/// document and the probed time together; a failed read or a parse failure
/// clears the document and leaves the stored time untouched.
pub open spec fn reload_step(v: CacheView, content: Option<Seq<char>>, probed: u64) -> CacheView {
    match content {
        Option::Some(s) => if json_wf(s) {
            CacheView { present: true, mtime: probed, source: s }
        } else {
            CacheView { present: false, mtime: v.mtime, source: v.source }
        },
        Option::None => CacheView { present: false, mtime: v.mtime, source: v.source },
    }
}

/// What a snapshot reports to callers: whether a document is present, and the
/// stored time when one is, or exactly zero when none is, whatever stale time
/// the state still holds internally.
pub open spec fn reported(v: CacheView) -> (bool, u64) {
    (v.present, if v.present { v.mtime } else { 0u64 })
}

/// The view of a read file content, `None` when the read failed.
pub open spec fn content_view(content: Option<String>) -> Option<Seq<char>> {
    match content {
        Option::Some(s) => Option::Some(s@),
        Option::None => Option::None,
    }
}

/// The answer of a probe step: either the cached state may be served as it
/// stands, or the backing file must be read and the outcome handed to
/// [`ProfileCache::finish_reload`] together with the probed time.
#[derive(Clone, Copy, Debug, PartialEq, Eq, Structural)]
pub enum ProbeStep {
    /// No reload is needed (or possible): serve the cached state.
    Serve,
    /// The file is strictly newer than the cached state: read it and apply
    /// `finish_reload` with this probed modification time.
    Reload { probed: u64 },
}

/// The cache entry: the last successfully parsed document, the modification
/// time of the content that produced it (zero before any successful load),
/// and, as ghost state, that content itself.
pub struct ProfileCache {
    document: Option<serde_json::Value>,
    last_mtime: u64,
    source: Ghost<Seq<char>>,
}

impl View for ProfileCache {
    type V = CacheView;

    closed spec fn view(&self) -> CacheView {
        CacheView {
            present: self.document is Some,
            mtime: self.last_mtime,
            source: self.source@,
        }
    }
}

impl ProfileCache {
    /// The cached document itself, to state that snapshots hand out exactly
    /// the value that the last successful reload installed.
    pub closed spec fn spec_document(self) -> Option<serde_json::Value> {
        self.document
    }

    /// The cache invariant: a present document was parsed from well-formed
    /// text, recorded in the view's `source`.
    pub open spec fn inv(self) -> bool {
        self@.present ==> json_wf(self@.source)
    }

    /// A fresh cache: absent document, stored time zero.
    pub fn new() -> (c: ProfileCache)
        ensures
            c@ == (CacheView { present: false, mtime: 0u64, source: Seq::<char>::empty() }),
            c.spec_document() is None,
            c.inv(),
    {
        ProfileCache { document: None, last_mtime: 0, source: Ghost(Seq::empty()) }
    }

    /// Apply the outcome of a modification-time probe (`None` when the probe
    /// failed) and decide whether a reload is due: exactly when the probed
    /// time is strictly greater than the stored one. A failed probe clears
    /// the document; a successful probe changes nothing by itself.
    pub fn step_probe(&mut self, probe: Option<u64>) -> (r: ProbeStep)
        ensures
            final(self)@ == probe_step(old(self)@, probe),
            (r matches ProbeStep::Reload { .. }) <==> needs_reload(old(self)@, probe),
            r matches ProbeStep::Reload { probed } ==> probe == Some(probed),
            probe is Some ==> *final(self) == *old(self),
            probe is None ==> final(self).spec_document() is None,
            old(self).inv() ==> final(self).inv(),
    {
        match probe {
            Option::None => {
                self.document = None;
                ProbeStep::Serve
            },
            Option::Some(m) => {
                if m > self.last_mtime {
                    ProbeStep::Reload { probed: m }
                } else {
                    ProbeStep::Serve
                }
            },
        }
    }

    /// Apply the outcome of the read that a [`ProbeStep::Reload`] answer
    /// asked for (`None` when the read failed). Well-formed content installs
    /// the parsed document and the probed time atomically, as one update;
    /// a read or parse failure clears the document and leaves the stored
    /// time untouched.
    pub fn finish_reload(&mut self, content: Option<String>, probed: u64)
        ensures
            final(self)@ == reload_step(old(self)@, content_view(content), probed),
            final(self)@.present <==> final(self).spec_document() is Some,
            final(self).inv(),
    {
        match content {
            Option::None => {
                self.document = None;
            },
            Option::Some(s) => {
                match parse_document(s.as_str()) {
                    Option::Some(v) => {
                        self.document = Some(v);
                        self.last_mtime = probed;
                        self.source = Ghost(s@);
                    },
                    Option::None => {
                        self.document = None;
                    },
                }
            },
        }
    }

    /// The consistent snapshot handed to callers: the cached document (a
    /// clone, so callers cannot mutate the shared state) paired with the
    /// stored time when the document is present, and `(None, 0)` when it is
    /// absent, whatever stale time the state still holds internally.
    pub fn snapshot(&self) -> (r: (Option<serde_json::Value>, u64))
        ensures
            (r.0 is Some, r.1) == reported(self@),
            r.0 == self.spec_document(),
    {
        match &self.document {
            Option::Some(v) => (Some(clone_document(v)), self.last_mtime),
            Option::None => (None, 0),
        }
    }
}

} // verus!
