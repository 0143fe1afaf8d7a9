use vstd::prelude::*;

use crate::tools::Tools;

verus! {

/// Why no single tool could be chosen for a directory.
#[derive(Debug, PartialEq, Eq)]
pub enum ResolveError {
    /// No marker file was found and no tool was given.
    NoToolDetected,
    /// Marker files of several tools were found; these are all of them.
    AmbiguousTools(Vec<Tools>),
}

impl ResolveError {
    /// The tools that this error offers to choose from: none when nothing
    /// was detected.
    pub open spec fn candidates(&self) -> Set<Tools> {
        match self {
            ResolveError::NoToolDetected => Set::empty(),
            ResolveError::AmbiguousTools(tools) => tools@.to_set(),
        }
    }
}

/// The tool that resolution picks from the detected tools (listed each once)
/// and an optional override, or the set of candidates when it cannot pick
/// one: an override wins outright, else a single detected tool is taken.
pub open spec fn resolution(detected: Seq<Tools>, tool_override: Option<Tools>) -> Result<
    Tools,
    Set<Tools>,
> {
    match tool_override {
        Some(tool) => Ok(tool),
        None => if detected.len() == 1 {
            Ok(detected[0])
        } else {
            Err(detected.to_set())
        },
    }
}

/// Picks the tool to run: the override if one is given, else the one tool
/// that was detected. Fails with `NoToolDetected` when nothing was detected,
/// and with `AmbiguousTools`, carrying every detected tool, when several were.
pub fn resolve(detected: &Vec<Tools>, tool_override: Option<Tools>) -> (r: Result<
    Tools,
    ResolveError,
>)
    requires
        detected@.no_duplicates(),
    ensures
        r is Ok ==> resolution(detected@, tool_override) == Ok::<Tools, Set<Tools>>(r->Ok_0),
        r is Err ==> resolution(detected@, tool_override) == Err::<Tools, Set<Tools>>(
            r->Err_0.candidates(),
        ),
        r == Err::<Tools, ResolveError>(ResolveError::NoToolDetected) <==> (tool_override is None
            && detected@.len() == 0),
{
    match tool_override {
        Some(tool) => Ok(tool),
        None => {
            if detected.len() == 1 {
                Ok(detected[0])
            } else if detected.len() == 0 {
                assert(detected@.to_set() =~= Set::empty());
                Err(ResolveError::NoToolDetected)
            } else {
                let mut candidates: Vec<Tools> = Vec::new();
                let mut i: usize = 0;
                while i < detected.len()
                    invariant
                        i <= detected.len(),
                        candidates@ == detected@.subrange(0, i as int),
                    decreases detected.len() - i,
                {
                    candidates.push(detected[i]);
                    i += 1;
                    assert(candidates@ =~= detected@.subrange(0, i as int));
                }
                assert(candidates@ =~= detected@);
                Err(ResolveError::AmbiguousTools(candidates))
            }
        },
    }
}

/// An override is taken whatever was detected.
pub proof fn lemma_override_wins(detected: Seq<Tools>, tool_override: Tools)
    ensures
        resolution(detected, Some(tool_override)) == Ok::<Tools, Set<Tools>>(tool_override),
{
}

/// With nothing detected and no override, resolution fails with no
/// candidates to offer.
pub proof fn lemma_nothing_detected_fails()
    ensures
        resolution(Seq::empty(), None) == Err::<Tools, Set<Tools>>(Set::empty()),
{
    assert(Seq::<Tools>::empty().to_set() =~= Set::empty());
}

/// Two distinct detected tools without an override fail with exactly those
/// two as candidates, in whichever order they were detected.
pub proof fn lemma_two_tools_ambiguous(a: Tools, b: Tools)
    requires
        a != b,
    ensures
        resolution(seq![a, b], None) == Err::<Tools, Set<Tools>>(set![a, b]),
        resolution(seq![b, a], None) == Err::<Tools, Set<Tools>>(set![a, b]),
{
    let ab = seq![a, b];
    let ba = seq![b, a];
    assert(ab[0] == a && ab[1] == b);
    assert(ba[0] == b && ba[1] == a);
    assert(ab.to_set() =~= set![a, b]);
    assert(ba.to_set() =~= set![a, b]);
}

} // verus!
