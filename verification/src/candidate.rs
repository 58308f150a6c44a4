//! Discovery of the server artifact: which of an ordered list of locations
//! is taken, and whether it is run directly or through an interpreter.

use crate::text::has_suffix;
use vstd::prelude::*;

verus! {

/// How a server artifact is started.
#[derive(Clone, Copy, Debug, PartialEq, Eq, Structural)]
pub enum CandidateKind {
    /// Run through the configured interpreter.
    Script,
    /// Run directly.
    Executable,
}

/// A server artifact that was found. Its fields cannot be changed once it
/// is made.
#[derive(Debug, PartialEq, Eq)]
pub struct ServerCandidate {
    path: String,
    kind: CandidateKind,
}

/// Mathematical content of a `ServerCandidate`.
pub struct CandidateModel {
    pub path: Seq<char>,
    pub kind: CandidateKind,
}

impl View for ServerCandidate {
    type V = CandidateModel;

    closed spec fn view(&self) -> CandidateModel {
        CandidateModel { path: self.path@, kind: self.kind }
    }
}

impl DeepView for ServerCandidate {
    type V = CandidateModel;

    open spec fn deep_view(&self) -> CandidateModel {
        self@
    }
}

/// Kind of the artifact at `path`: a script where the path ends in the
/// script suffix, an executable otherwise.
pub open spec fn kind_of(path: Seq<char>, script_suffix: Seq<char>) -> CandidateKind {
    if script_suffix.is_suffix_of(path) {
        CandidateKind::Script
    } else {
        CandidateKind::Executable
    }
}

/// The candidate that a path stands for under a script suffix.
pub open spec fn candidate_at(path: Seq<char>, script_suffix: Seq<char>) -> CandidateModel {
    CandidateModel { path, kind: kind_of(path, script_suffix) }
}

/// Index of the first `true` among the existence flags.
pub open spec fn first_hit(exists: Seq<bool>) -> Option<int>
    decreases exists.len(),
{
    if exists.len() == 0 {
        None
    } else {
        match first_hit(exists.drop_last()) {
            Some(i) => Some(i),
            None => if exists.last() {
                Some(exists.len() - 1)
            } else {
                None
            },
        }
    }
}

/// The flags that speak of a location: those beyond the list are dropped,
/// and a location without a flag counts as absent.
pub open spec fn flags_in_range(count: nat, exists: Seq<bool>) -> Seq<bool> {
    if exists.len() <= count {
        exists
    } else {
        exists.take(count as int)
    }
}

/// Outcome of discovery over `locations`, in priority order, where
/// `exists[i]` tells whether `locations[i]` is present.
pub open spec fn resolution(
    locations: Seq<Seq<char>>,
    exists: Seq<bool>,
    script_suffix: Seq<char>,
) -> Option<CandidateModel> {
    match first_hit(flags_in_range(locations.len(), exists)) {
        Some(i) => Some(candidate_at(locations[i], script_suffix)),
        None => None,
    }
}

/// `first_hit` names a flag that is set with none set before it, and names
/// nothing only where no flag is set.
pub proof fn first_hit_is_first(exists: Seq<bool>)
    ensures
        match first_hit(exists) {
            Some(i) => {
                &&& 0 <= i < exists.len()
                &&& exists[i]
                &&& forall|j: int| 0 <= j < i ==> !exists[j]
            },
            None => forall|j: int| 0 <= j < exists.len() ==> !exists[j],
        },
    decreases exists.len(),
{
    if exists.len() > 0 {
        let front = exists.drop_last();
        first_hit_is_first(front);
        assert forall|j: int| 0 <= j < front.len() implies front[j] == exists[j] by {}
    }
}

/// Where no location exists, discovery finds nothing.
pub proof fn nothing_exists_nothing_found(
    locations: Seq<Seq<char>>,
    exists: Seq<bool>,
    script_suffix: Seq<char>,
)
    requires
        forall|i: int| 0 <= i < exists.len() && i < locations.len() ==> !exists[i],
    ensures
        resolution(locations, exists, script_suffix) is None,
{
    first_hit_is_first(flags_in_range(locations.len(), exists));
}

/// The first existing location in priority order is the one selected,
/// whatever holds of the locations behind it.
pub proof fn first_existing_is_selected(
    locations: Seq<Seq<char>>,
    exists: Seq<bool>,
    script_suffix: Seq<char>,
    i: int,
)
    requires
        0 <= i < locations.len(),
        i < exists.len(),
        exists[i],
        forall|j: int| 0 <= j < i ==> !exists[j],
    ensures
        resolution(locations, exists, script_suffix) == Some(
            candidate_at(locations[i], script_suffix),
        ),
{
    let flags = flags_in_range(locations.len(), exists);
    first_hit_is_first(flags);
    assert(flags[i] == exists[i]);
    match first_hit(flags) {
        Some(k) => {
            assert(flags[k] == exists[k]);
            if k < i {
                assert(!exists[k]);
            }
            if i < k {
                assert(!flags[i]);
            }
        },
        None => {
            assert(!flags[i]);
        },
    }
}

impl ServerCandidate {
    /// A candidate with the given path and kind.
    pub fn new(path: String, kind: CandidateKind) -> (candidate: ServerCandidate)
        ensures
            candidate@ == (CandidateModel { path: path@, kind }),
    {
        ServerCandidate { path, kind }
    }

    /// The candidate at `path`, its kind inferred from the path's suffix.
    pub fn at(path: String, script_suffix: &str) -> (candidate: ServerCandidate)
        ensures
            candidate@ == candidate_at(path@, script_suffix@),
    {
        let kind = infer_kind(path.as_str(), script_suffix);
        ServerCandidate { path, kind }
    }

    /// Where the artifact lies.
    pub fn path(&self) -> (path: &String)
        ensures
            path@ == self@.path,
    {
        &self.path
    }

    /// How the artifact is started.
    pub fn kind(&self) -> (kind: CandidateKind)
        ensures
            kind == self@.kind,
    {
        self.kind
    }

    /// A second value with the same content.
    pub fn duplicate(&self) -> (copy: ServerCandidate)
        ensures
            copy@ == self@,
    {
        ServerCandidate { path: self.path.clone(), kind: self.kind }
    }
}

/// Infers the kind of the artifact at `path` from its suffix.
pub fn infer_kind(path: &str, script_suffix: &str) -> (kind: CandidateKind)
    ensures
        kind == kind_of(path@, script_suffix@),
{
    if has_suffix(path, script_suffix) {
        CandidateKind::Script
    } else {
        CandidateKind::Executable
    }
}

/// Picks the server artifact: the first location, in the listed order,
/// whose existence flag is set. Flags behind the first hit are not read.
/// `None` is the regular outcome where no location exists.
pub fn resolve(locations: &Vec<String>, exists: &Vec<bool>, script_suffix: &str) -> (found: Option<
    ServerCandidate,
>)
    ensures
        match found {
            Some(candidate) => resolution(locations.deep_view(), exists@, script_suffix@) == Some(
                candidate@,
            ),
            None => resolution(locations.deep_view(), exists@, script_suffix@) is None,
        },
{
    let count: usize = if exists.len() <= locations.len() {
        exists.len()
    } else {
        locations.len()
    };
    let ghost flags = flags_in_range(locations.deep_view().len(), exists@);
    let mut i: usize = 0;
    while i < count
        invariant
            i <= count,
            count <= locations.len(),
            count <= exists.len(),
            count == flags.len(),
            flags == flags_in_range(locations.deep_view().len(), exists@),
            forall|j: int| 0 <= j < count ==> flags[j] == exists[j],
            first_hit(flags.take(i as int)) is None,
        decreases count - i,
    {
        if exists[i] {
            proof {
                first_hit_is_first(flags);
                first_hit_is_first(flags.take(i as int));
                assert(flags[i as int]);
                match first_hit(flags) {
                    Some(k) => {
                        if k < i {
                            assert(flags.take(i as int)[k] == flags[k]);
                        }
                    },
                    None => {},
                }
                assert(first_hit(flags) == Some(i as int));
            }
            let candidate = ServerCandidate::at(locations[i].clone(), script_suffix);
            return Some(candidate);
        }
        proof {
            let next = flags.take(i + 1);
            assert(next.drop_last() =~= flags.take(i as int));
            assert(next.last() == flags[i as int]);
        }
        i += 1;
    }
    assert(flags.take(count as int) =~= flags);
    None
}

} // verus!
