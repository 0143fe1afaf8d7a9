use vstd::prelude::*;

use crate::tools::Tools;

verus! {

/// Arguments joined with single spaces; no arguments give the empty string.
pub open spec fn joined(args: Seq<Seq<char>>) -> Seq<char>
    decreases args.len(),
{
    if args.len() == 0 {
        Seq::empty()
    } else if args.len() == 1 {
        args[0]
    } else {
        joined(args.drop_last()) + " "@ + args.last()
    }
}

/// What the command of a tool starts with, before the task name.
pub open spec fn command_prefix(tool: Tools) -> Seq<char> {
    match tool {
        Tools::Make => "make "@,
        Tools::Npm => "npm run "@,
        Tools::Pnpm => "pnpm run "@,
        Tools::Yarn => "yarn run "@,
        Tools::Mise => "mise run "@,
        Tools::Just => "just "@,
        Tools::TurboRepo => "turbo run "@,
        Tools::Mix => "mix "@,
    }
}

/// The command line that runs `task` with `tool`, followed by the joined
/// extra arguments when there are any.
pub open spec fn run_command(tool: Tools, task: Seq<char>, var_args: Seq<char>) -> Seq<char> {
    if var_args.len() == 0 {
        command_prefix(tool) + task
    } else {
        command_prefix(tool) + task + " "@ + var_args
    }
}

fn prefix_of(tool: Tools) -> (r: &'static str)
    ensures
        r@ == command_prefix(tool),
{
    match tool {
        Tools::Make => "make ",
        Tools::Npm => "npm run ",
        Tools::Pnpm => "pnpm run ",
        Tools::Yarn => "yarn run ",
        Tools::Mise => "mise run ",
        Tools::Just => "just ",
        Tools::TurboRepo => "turbo run ",
        Tools::Mix => "mix ",
    }
}

/// Joins the extra arguments with single spaces, each kept as it is.
pub fn join_args(args: &Vec<String>) -> (r: String)
    ensures
        r@ == joined(args.deep_view()),
{
    let ghost all = args.deep_view();
    let mut out = String::new();
    let mut i: usize = 0;
    while i < args.len()
        invariant
            i <= args.len(),
            all == args.deep_view(),
            out@ == joined(all.subrange(0, i as int)),
        decreases args.len() - i,
    {
        let ghost done = all.subrange(0, i as int);
        let ghost next = all.subrange(0, i as int + 1);
        assert(next.drop_last() =~= done);
        assert(next.last() == args[i as int]@);
        if i > 0 {
            out.append(" ");
        }
        out.append(args[i].as_str());
        i += 1;
        if i == 1 {
            assert(next =~= seq![all[0]]);
        }
    }
    assert(all.subrange(0, args.len() as int) =~= all);
    out
}

/// Renders the command that runs `task` with `tool`. The already joined
/// extra arguments follow the task after one space; when they are empty
/// nothing follows the task. Nothing is escaped.
pub fn build_run_cmd(tool: Tools, task: String, var_args: String) -> (r: String)
    ensures
        r@ == run_command(tool, task@, var_args@),
{
    let mut cmd = String::from_str(prefix_of(tool));
    cmd.append(task.as_str());
    if var_args.as_str().unicode_len() > 0 {
        cmd.append(" ");
        cmd.append(var_args.as_str());
    }
    cmd
}

/// For a fixed tool and fixed extra arguments, different task names never
/// give the same command.
pub proof fn lemma_command_injective_in_task(
    tool: Tools,
    task_a: Seq<char>,
    task_b: Seq<char>,
    var_args: Seq<char>,
)
    requires
        run_command(tool, task_a, var_args) == run_command(tool, task_b, var_args),
    ensures
        task_a == task_b,
{
    let p = command_prefix(tool);
    let ca = run_command(tool, task_a, var_args);
    let cb = run_command(tool, task_b, var_args);
    reveal_strlit(" ");
    assert(ca.len() == cb.len());
    if var_args.len() == 0 {
        assert(ca.len() == p.len() + task_a.len());
        assert(cb.len() == p.len() + task_b.len());
    } else {
        assert(ca.len() == p.len() + task_a.len() + 1 + var_args.len());
        assert(cb.len() == p.len() + task_b.len() + 1 + var_args.len());
    }
    assert(task_a.len() == task_b.len());
    assert forall|k: int| 0 <= k < task_a.len() implies task_a[k] == task_b[k] by {
        assert(ca[p.len() + k] == task_a[k]);
        assert(cb[p.len() + k] == task_b[k]);
    }
    assert(task_a =~= task_b);
}

} // verus!
