use vstd::prelude::*;

use crate::tools::{lemma_every_tool_has_marker, match_file_to_tool, primary_marker, tool_of_file, Tools};

verus! {

/// The tools that a directory holding files of these names indicates.
pub open spec fn detected_tools(file_names: Seq<Seq<char>>) -> Set<Tools> {
    Set::new(
        |t: Tools| exists|i: int| 0 <= i < file_names.len() && tool_of_file(file_names[i]) == Some(t),
    )
}

/// Whether `tool` occurs in `tools`.
fn holds_tool(tools: &Vec<Tools>, tool: Tools) -> (r: bool)
    ensures
        r == tools@.contains(tool),
{
    let mut i: usize = 0;
    while i < tools.len()
        invariant
            i <= tools.len(),
            forall|j: int| 0 <= j < i ==> tools@[j] != tool,
        decreases tools.len() - i,
    {
        if tools[i] == tool {
            return true;
        }
        i += 1;
    }
    false
}

/// Reduces the names of a directory's entries to the set of tools their
/// marker files indicate, each tool once; names that mark no tool are
/// passed over.
pub fn scan_for_tools(file_names: &Vec<String>) -> (r: Vec<Tools>)
    ensures
        r@.no_duplicates(),
        r@.to_set() == detected_tools(file_names.deep_view()),
{
    let ghost names = file_names.deep_view();
    let mut found: Vec<Tools> = Vec::new();
    let mut i: usize = 0;
    while i < file_names.len()
        invariant
            i <= file_names.len(),
            names == file_names.deep_view(),
            found@.no_duplicates(),
            forall|t: Tools|
                found@.contains(t) <==> exists|j: int|
                    0 <= j < i && tool_of_file(#[trigger] names[j]) == Some(t),
        decreases file_names.len() - i,
    {
        let ghost before = found@;
        let looked_up = match_file_to_tool(file_names[i].as_str());
        assert(names[i as int] == file_names[i as int]@);
        match looked_up {
            Some(tool) => {
                if !holds_tool(&found, tool) {
                    found.push(tool);
                    assert(found@.last() == tool);
                    assert forall|a: int, b: int|
                        0 <= a < b < found@.len() implies found@[a] != found@[b] by {
                        if b == found@.len() - 1 {
                            assert(before.contains(found@[a]));
                        }
                    }
                }
            },
            None => {},
        }
        assert forall|t: Tools|
            found@.contains(t) <==> exists|j: int|
                0 <= j < i + 1 && tool_of_file(#[trigger] names[j]) == Some(t) by {
            if found@.contains(t) && !before.contains(t) {
                assert(tool_of_file(names[i as int]) == Some(t));
            }
            if before.contains(t) {
                let k = choose|k: int| 0 <= k < before.len() && before[k] == t;
                assert(found@[k] == t);
            }
        }
        i += 1;
    }
    assert(found@.to_set() =~= detected_tools(names));
    found
}

/// Every tool has a marker file that is looked up as that tool, and a
/// directory holding only that file is detected as that tool alone.
pub proof fn lemma_every_tool_detected_from_its_marker(tool: Tools)
    ensures
        tool_of_file(primary_marker(tool)) == Some(tool),
        detected_tools(seq![primary_marker(tool)]) == set![tool],
{
    lemma_every_tool_has_marker(tool);
    let names = seq![primary_marker(tool)];
    assert(names[0] == primary_marker(tool));
    assert(detected_tools(names) =~= set![tool]);
}

} // verus!
