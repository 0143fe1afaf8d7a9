use vstd::prelude::*;

verus! {

/// The build and package tools that a project directory can be run with.
#[derive(PartialEq, Eq, Structural, Clone, Copy, Debug, Hash)]
pub enum Tools {
    Npm,
    Pnpm,
    Yarn,
    Make,
    Mise,
    Just,
    TurboRepo,
    Mix,
}

/// The tool that a marker file of this name indicates, if any.
pub open spec fn tool_of_file(name: Seq<char>) -> Option<Tools> {
    if name == "Makefile"@ {
        Some(Tools::Make)
    } else if name == "pnpm-lock.yaml"@ {
        Some(Tools::Pnpm)
    } else if name == "yarn.lock"@ {
        Some(Tools::Yarn)
    } else if name == "mise.toml"@ {
        Some(Tools::Mise)
    } else if name == "package-lock.json"@ {
        Some(Tools::Npm)
    } else if name == "package.json"@ {
        Some(Tools::Npm)
    } else if name == "justfile"@ {
        Some(Tools::Just)
    } else if name == "turbo.json"@ {
        Some(Tools::TurboRepo)
    } else if name == "mix.exs"@ {
        Some(Tools::Mix)
    } else {
        None
    }
}

/// One marker file name for each tool.
pub open spec fn primary_marker(tool: Tools) -> Seq<char> {
    match tool {
        Tools::Make => "Makefile"@,
        Tools::Pnpm => "pnpm-lock.yaml"@,
        Tools::Yarn => "yarn.lock"@,
        Tools::Npm => "package-lock.json"@,
        Tools::Mise => "mise.toml"@,
        Tools::Just => "justfile"@,
        Tools::TurboRepo => "turbo.json"@,
        Tools::Mix => "mix.exs"@,
    }
}

/// Whether two strings hold the same characters.
fn same_text(a: &str, b: &str) -> (r: bool)
    ensures
        r == (a@ == b@),
{
    let n = a.unicode_len();
    if n != b.unicode_len() {
        return false;
    }
    let mut i: usize = 0;
    while i < n
        invariant
            n == a@.len(),
            n == b@.len(),
            i <= n,
            forall|j: int| 0 <= j < i ==> a@[j] == b@[j],
        decreases n - i,
    {
        if a.get_char(i) != b.get_char(i) {
            return false;
        }
        i += 1;
    }
    assert(a@ =~= b@);
    true
}

/// Looks up the tool that a marker file name indicates; names that mark no
/// tool give `None`.
pub fn match_file_to_tool(file_name: &str) -> (r: Option<Tools>)
    ensures
        r == tool_of_file(file_name@),
{
    if same_text(file_name, "Makefile") {
        Some(Tools::Make)
    } else if same_text(file_name, "pnpm-lock.yaml") {
        Some(Tools::Pnpm)
    } else if same_text(file_name, "yarn.lock") {
        Some(Tools::Yarn)
    } else if same_text(file_name, "mise.toml") {
        Some(Tools::Mise)
    } else if same_text(file_name, "package-lock.json") {
        Some(Tools::Npm)
    } else if same_text(file_name, "package.json") {
        Some(Tools::Npm)
    } else if same_text(file_name, "justfile") {
        Some(Tools::Just)
    } else if same_text(file_name, "turbo.json") {
        Some(Tools::TurboRepo)
    } else if same_text(file_name, "mix.exs") {
        Some(Tools::Mix)
    } else {
        None
    }
}

/// Every tool has a marker file that is looked up as that tool.
pub proof fn lemma_every_tool_has_marker(tool: Tools)
    ensures
        tool_of_file(primary_marker(tool)) == Some(tool),
{
    reveal_strlit("Makefile");
    assert("Makefile"@.len() == 8 && "Makefile"@[0] == 'M');
    reveal_strlit("pnpm-lock.yaml");
    assert("pnpm-lock.yaml"@.len() == 14 && "pnpm-lock.yaml"@[0] == 'p');
    reveal_strlit("yarn.lock");
    assert("yarn.lock"@.len() == 9 && "yarn.lock"@[0] == 'y');
    reveal_strlit("mise.toml");
    assert("mise.toml"@.len() == 9 && "mise.toml"@[0] == 'm');
    reveal_strlit("package-lock.json");
    assert("package-lock.json"@.len() == 17 && "package-lock.json"@[0] == 'p');
    reveal_strlit("package.json");
    assert("package.json"@.len() == 12 && "package.json"@[0] == 'p');
    reveal_strlit("justfile");
    assert("justfile"@.len() == 8 && "justfile"@[0] == 'j');
    reveal_strlit("turbo.json");
    assert("turbo.json"@.len() == 10 && "turbo.json"@[0] == 't');
    reveal_strlit("mix.exs");
    assert("mix.exs"@.len() == 7 && "mix.exs"@[0] == 'm');
}

impl Tools {
    /// A marker file name that indicates this tool.
    pub fn marker_file(&self) -> (r: &'static str)
        ensures
            r@ == primary_marker(*self),
            tool_of_file(r@) == Some(*self),
    {
        proof {
            lemma_every_tool_has_marker(*self);
        }
        match self {
            Tools::Make => "Makefile",
            Tools::Pnpm => "pnpm-lock.yaml",
            Tools::Yarn => "yarn.lock",
            Tools::Npm => "package-lock.json",
            Tools::Mise => "mise.toml",
            Tools::Just => "justfile",
            Tools::TurboRepo => "turbo.json",
            Tools::Mix => "mix.exs",
        }
    }

    /// Every tool, each once.
    pub fn all() -> (r: Vec<Tools>)
        ensures
            r@.no_duplicates(),
            forall|t: Tools| r@.contains(t),
    {
        let r = vec![
            Tools::Npm,
            Tools::Pnpm,
            Tools::Yarn,
            Tools::Make,
            Tools::Mise,
            Tools::Just,
            Tools::TurboRepo,
            Tools::Mix,
        ];
        assert forall|t: Tools| r@.contains(t) by {
            match t {
                Tools::Npm => assert(r@[0] == t),
                Tools::Pnpm => assert(r@[1] == t),
                Tools::Yarn => assert(r@[2] == t),
                Tools::Make => assert(r@[3] == t),
                Tools::Mise => assert(r@[4] == t),
                Tools::Just => assert(r@[5] == t),
                Tools::TurboRepo => assert(r@[6] == t),
                Tools::Mix => assert(r@[7] == t),
            }
        }
        r
    }
}

} // verus!
