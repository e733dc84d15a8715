//! Resolving a shortcut file to the entry it points at.
//!
//! Only the platform can read a shortcut file, and only the file system knows
//! whether a path names a directory. Between those two questions stands what
//! is decided here: where the link's path ends in the buffer that the platform
//! filled, what text it holds, and what is reported when there is none.

use vstd::prelude::*;
use vstd::slice::slice_subrange;

verus! {

/// What is reported for a shortcut file.
#[derive(Debug, Clone, PartialEq, Eq)]
pub struct ShortcutInfo {
    /// The entry the shortcut points at; `None` where it could not be resolved.
    pub target_path: Option<String>,
    /// Whether that entry is a directory.
    pub is_directory: bool,
}

/// What the platform's shell link gave for a shortcut file.
#[derive(Debug, Clone, PartialEq, Eq)]
pub enum LinkQuery {
    /// The platform has no shell links.
    Unsupported,
    /// A step of the query failed: the link could not be made, loaded or read.
    Failed,
    /// The link's path as UTF-16 code units, closed by a zero unit unless it
    /// fills the whole buffer.
    Path(Vec<u16>),
}

/// Where a resolution stands once the link has been read.
#[derive(Debug, Clone, PartialEq, Eq)]
pub enum Resolution {
    /// Nothing is left to ask.
    Done(ShortcutInfo),
    /// The link names this target; whether it is a directory is still open.
    Probe(String),
}

/// The number of code units that stand before the first zero unit of `units`,
/// which is all of them where none is zero.
pub open spec fn terminated_len(units: Seq<u16>) -> nat
    decreases units.len(),
{
    if units.len() == 0 || units[0] == 0 {
        0
    } else {
        1 + terminated_len(units.skip(1))
    }
}

/// The text that `String::from_utf16_lossy` decodes from `units`.
pub uninterp spec fn utf16_lossy(units: Seq<u16>) -> Seq<char>;

/// The target that a link's path buffer holds: its code units up to the first
/// zero unit, decoded.
pub open spec fn link_text(buffer: Seq<u16>) -> Seq<char> {
    utf16_lossy(buffer.take(terminated_len(buffer) as int))
}

/// `String::from_utf16_lossy` of std decodes UTF-16 and puts U+FFFD in place of
/// what is no valid UTF-16. Two things are claimed of it here, neither proved:
/// that its result is a function of the code units it is given, which is named
/// `utf16_lossy`, and that no code units decode to no text.
pub assume_specification[ String::from_utf16_lossy ](v: &[u16]) -> (text: String)
    ensures
        text@ == utf16_lossy(v@),
        v@.len() == 0 ==> text@.len() == 0,
;

impl ShortcutInfo {
    /// No target, and so no directory.
    pub open spec fn is_unresolved(&self) -> bool {
        self.target_path is None && !self.is_directory
    }

    /// A report names a directory only together with a target, and a target
    /// is never the empty text.
    pub open spec fn well_formed(&self) -> bool {
        match self.target_path {
            Some(target) => target@.len() > 0,
            None => !self.is_directory,
        }
    }

    /// The report for a shortcut that could not be resolved.
    pub fn unresolved() -> (info: ShortcutInfo)
        ensures
            info.is_unresolved(),
            info.well_formed(),
    {
        ShortcutInfo { target_path: None, is_directory: false }
    }
}

impl Resolution {
    /// A target that is still to be probed is never the empty text, and a
    /// finished report is well formed.
    pub open spec fn well_formed(&self) -> bool {
        match *self {
            Resolution::Done(info) => info.well_formed(),
            Resolution::Probe(target) => target@.len() > 0,
        }
    }

    /// The resolution has ended without a target.
    pub open spec fn is_unresolved(&self) -> bool {
        match *self {
            Resolution::Done(info) => info.is_unresolved(),
            Resolution::Probe(_) => false,
        }
    }

    /// The resolution waits for a probe of exactly this target.
    pub open spec fn probes(&self, target: Seq<char>) -> bool {
        match *self {
            Resolution::Done(_) => false,
            Resolution::Probe(text) => text@ == target,
        }
    }

    /// `info` is the report that closes this resolution when its probe was
    /// answered with `is_directory`.
    ///
    /// A finished resolution keeps its report, whatever `is_directory` says.
    /// An open one reports its target together with `is_directory`.
    pub open spec fn completes_to(&self, is_directory: bool, info: ShortcutInfo) -> bool {
        match *self {
            Resolution::Done(done) => info == done,
            Resolution::Probe(target) => {
                &&& info.target_path == Some(target)
                &&& info.is_directory == is_directory
            },
        }
    }

    /// Closes a resolution with the answer to its probe.
    pub fn complete(self, is_directory: bool) -> (info: ShortcutInfo)
        ensures
            self.completes_to(is_directory, info),
            self.well_formed() ==> info.well_formed(),
    {
        match self {
            Resolution::Done(done) => done,
            Resolution::Probe(target) => ShortcutInfo {
                target_path: Some(target),
                is_directory,
            },
        }
    }
}

/// `terminated_len` is the one position up to which no unit is zero and at
/// which the units end or a zero unit stands.
pub proof fn lemma_terminated_len_unique(units: Seq<u16>, n: int)
    requires
        0 <= n <= units.len(),
        forall|i: int| 0 <= i < n ==> units[i] != 0,
        n < units.len() ==> units[n] == 0,
    ensures
        terminated_len(units) == n,
    decreases n,
{
    if n > 0 {
        let rest = units.skip(1);
        assert(units[0] != 0);
        assert forall|i: int| 0 <= i < n - 1 implies rest[i] != 0 by {
            assert(rest[i] == units[i + 1]);
        }
        lemma_terminated_len_unique(rest, n - 1);
    }
}

/// What is reported for a shortcut, end to end: from the shell link's answer
/// `query` and the answer `is_directory` to the probe, if one was made.
///
/// The report is well formed. Without an answer from the shell link it names
/// no target and no directory, whatever the probe says. A target, where one is
/// reported, is the text of the link's path, and comes with the probe's
/// answer.
pub proof fn lemma_report_of_query(
    query: LinkQuery,
    next: Resolution,
    is_directory: bool,
    info: ShortcutInfo,
)
    requires
        resolves_to(query, next),
        next.completes_to(is_directory, info),
    ensures
        info.well_formed(),
        query is Unsupported || query is Failed ==> info.is_unresolved(),
        info.target_path is None ==> info.is_unresolved(),
        info.target_path is Some ==> {
            &&& query is Path
            &&& info.target_path->0@ == link_text(query->0@)
            &&& info.is_directory == is_directory
        },
{
}

/// Where the path ends in `buffer`: the index of its first zero unit, or its
/// length where no unit is zero.
pub fn terminator_position(buffer: &[u16]) -> (n: usize)
    ensures
        n == terminated_len(buffer@),
        n <= buffer@.len(),
        forall|i: int| 0 <= i < n ==> buffer@[i] != 0,
        n < buffer@.len() ==> buffer@[n as int] == 0,
{
    let mut n: usize = 0;
    while n < buffer.len() && buffer[n] != 0
        invariant
            n <= buffer@.len(),
            forall|i: int| 0 <= i < n ==> buffer@[i] != 0,
        decreases buffer@.len() - n,
    {
        n += 1;
    }
    proof {
        lemma_terminated_len_unique(buffer@, n as int);
    }
    n
}

/// What follows from the text that a link's path decoded to: an empty text is
/// no target and ends the resolution; any other is the target to probe.
pub fn resolution_of_target(text: String) -> (next: Resolution)
    ensures
        text@.len() == 0 ==> next.is_unresolved(),
        text@.len() > 0 ==> next == Resolution::Probe(text),
        next.well_formed(),
{
    if text.as_str().is_empty() {
        Resolution::Done(ShortcutInfo::unresolved())
    } else {
        Resolution::Probe(text)
    }
}

/// `next` is what the answer `query` of the shell link amounts to.
///
/// No answer, for whichever reason, ends the resolution without a target. So
/// does a path buffer that is empty or begins with the zero unit, and one
/// whose path decodes to no text. Any other path is the target to probe.
pub open spec fn resolves_to(query: LinkQuery, next: Resolution) -> bool {
    match query {
        LinkQuery::Unsupported | LinkQuery::Failed => next.is_unresolved(),
        LinkQuery::Path(buffer) => {
            let text = link_text(buffer@);
            if terminated_len(buffer@) == 0 || text.len() == 0 {
                next.is_unresolved()
            } else {
                next.probes(text)
            }
        },
    }
}

/// Decides what a shell-link query amounts to.
///
/// Without shell links, or after a failed query, the shortcut is reported as
/// unresolved; no failure is told from another. A path buffer is read up to
/// its first zero unit and decoded: an empty path is reported as unresolved
/// too, any other is the target, of which the caller finds out whether it is a
/// directory and then calls [`Resolution::complete`].
pub fn resolve_shortcut(query: &LinkQuery) -> (next: Resolution)
    ensures
        resolves_to(*query, next),
        next.well_formed(),
{
    match query {
        LinkQuery::Unsupported => Resolution::Done(ShortcutInfo::unresolved()),
        LinkQuery::Failed => Resolution::Done(ShortcutInfo::unresolved()),
        LinkQuery::Path(buffer) => {
            let n = terminator_position(buffer.as_slice());
            let units = slice_subrange(buffer.as_slice(), 0, n);
            let text = String::from_utf16_lossy(units);
            resolution_of_target(text)
        },
    }
}

} // verus!
