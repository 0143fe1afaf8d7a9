use vstd::prelude::*;

use crate::command::{build_run_cmd, join_args, joined, run_command};
use crate::resolve::{resolve, ResolveError};
use crate::scan::{detected_tools, scan_for_tools};
use crate::tools::Tools;

verus! {

/// A resolved tool and the command line that runs the task with it.
#[derive(Debug)]
pub struct Invocation {
    pub tool: Tools,
    pub command: String,
}

/// The tool chosen for a directory whose entries have these names, or the
/// set of candidates when none can be chosen: an override wins without
/// looking at the directory, else the one detected tool is taken.
pub open spec fn chosen_tool(file_names: Seq<Seq<char>>, tool_override: Option<Tools>) -> Result<
    Tools,
    Set<Tools>,
> {
    match tool_override {
        Some(tool) => Ok(tool),
        None => {
            let found = detected_tools(file_names);
            if found.len() == 1 {
                Ok(found.choose())
            } else {
                Err(found)
            }
        },
    }
}

/// Decides what to run for `task` in a directory whose entries have the
/// given names: detects the tools there (unless an override is given),
/// resolves one, and renders its command with the extra arguments joined by
/// single spaces. Fails as `resolve` does when no single tool is found.
pub fn prepare_run(
    file_names: &Vec<String>,
    task: String,
    tool_override: Option<Tools>,
    var_args: &Vec<String>,
) -> (r: Result<Invocation, ResolveError>)
    ensures
        r is Ok ==> chosen_tool(file_names.deep_view(), tool_override) == Ok::<Tools, Set<Tools>>(
            r->Ok_0.tool,
        ),
        r is Ok ==> r->Ok_0.command@ == run_command(r->Ok_0.tool, task@, joined(var_args.deep_view())),
        r is Err ==> chosen_tool(file_names.deep_view(), tool_override) == Err::<Tools, Set<Tools>>(
            r->Err_0.candidates(),
        ),
        r is Err && r->Err_0 is NoToolDetected <==> (tool_override is None && detected_tools(
            file_names.deep_view(),
        ).len() == 0),
{
    let ghost names = file_names.deep_view();
    let detected: Vec<Tools> = match tool_override {
        Some(_) => Vec::new(),
        None => scan_for_tools(file_names),
    };
    proof {
        if tool_override is None {
            detected@.unique_seq_to_set();
            if detected@.len() == 1 {
                assert(detected@.to_set() =~= set![detected@[0]]);
                assert(set![detected@[0]].contains(detected@.to_set().choose()));
            }
        }
    }
    let tool = match resolve(&detected, tool_override) {
        Ok(tool) => tool,
        Err(e) => {
            return Err(e);
        },
    };
    let var_args_str = join_args(var_args);
    let command = build_run_cmd(tool, task, var_args_str);
    Ok(Invocation { tool, command })
}

} // verus!
