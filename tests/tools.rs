use run_it::scan::scan_for_tools;
use run_it::tools::{match_file_to_tool, Tools};

#[test]
fn all_tools_are_matched() {
    let all_tools = Tools::all();

    for tool in &all_tools {
        let file_name = match tool {
            Tools::Make => "Makefile",
            Tools::Pnpm => "pnpm-lock.yaml",
            Tools::Yarn => "yarn.lock",
            Tools::Npm => "package-lock.json",
            Tools::Mise => "mise.toml",
            Tools::Just => "justfile",
            Tools::TurboRepo => "turbo.json",
            Tools::Mix => "mix.exs",
        };

        let matched = match_file_to_tool(file_name);
        assert_eq!(
            matched,
            Some(tool.clone()),
            "expected {file_name} to resolve to {tool:?}",
        );
    }
}

#[test]
fn all_lists_each_tool_once() {
    let all_tools = Tools::all();
    assert_eq!(all_tools.len(), 8);
    for (i, a) in all_tools.iter().enumerate() {
        for b in &all_tools[i + 1..] {
            assert_ne!(a, b);
        }
    }
}

#[test]
fn package_json_marks_npm() {
    assert_eq!(match_file_to_tool("package.json"), Some(Tools::Npm));
}

#[test]
fn unknown_names_mark_nothing() {
    assert_eq!(match_file_to_tool(""), None);
    assert_eq!(match_file_to_tool("README.md"), None);
    assert_eq!(match_file_to_tool("makefile"), None);
    assert_eq!(match_file_to_tool("Makefile "), None);
    assert_eq!(match_file_to_tool("package.json.bak"), None);
}

#[test]
fn every_marker_alone_detects_its_tool() {
    for tool in Tools::all() {
        let name = tool.marker_file();
        assert_eq!(match_file_to_tool(name), Some(tool));
        assert_eq!(scan_for_tools(&vec![name.to_string()]), vec![tool]);
    }
}

#[test]
fn two_npm_markers_detect_npm_once() {
    let names = vec!["package.json".to_string(), "package-lock.json".to_string()];
    assert_eq!(scan_for_tools(&names), vec![Tools::Npm]);
}

#[test]
fn scan_skips_unrecognised_names() {
    let names = vec![
        "src".to_string(),
        "Makefile".to_string(),
        "README.md".to_string(),
        "Makefile".to_string(),
    ];
    assert_eq!(scan_for_tools(&names), vec![Tools::Make]);
}

#[test]
fn scan_of_empty_directory_is_empty() {
    assert_eq!(scan_for_tools(&Vec::new()), Vec::<Tools>::new());
}

#[test]
fn scan_lists_distinct_tools() {
    let names = vec![
        "yarn.lock".to_string(),
        "package.json".to_string(),
        "mix.exs".to_string(),
    ];
    let found = scan_for_tools(&names);
    assert_eq!(found.len(), 3);
    assert!(found.contains(&Tools::Yarn));
    assert!(found.contains(&Tools::Npm));
    assert!(found.contains(&Tools::Mix));
}
