use run_it::pipeline::prepare_run;
use run_it::resolve::ResolveError;
use run_it::tools::Tools;

fn names(list: &[&str]) -> Vec<String> {
    list.iter().map(|s| s.to_string()).collect()
}

#[test]
fn makefile_alone_runs_make() {
    let inv = prepare_run(&names(&["Makefile"]), "build".to_string(), None, &Vec::new()).unwrap();
    assert_eq!(inv.tool, Tools::Make);
    assert_eq!(inv.command, "make build");
}

#[test]
fn npm_and_yarn_markers_are_ambiguous() {
    let r = prepare_run(
        &names(&["package.json", "yarn.lock"]),
        "build".to_string(),
        None,
        &Vec::new(),
    );
    match r {
        Err(ResolveError::AmbiguousTools(candidates)) => {
            assert_eq!(candidates.len(), 2);
            assert!(candidates.contains(&Tools::Npm));
            assert!(candidates.contains(&Tools::Yarn));
        }
        other => panic!("expected ambiguity, got {other:?}"),
    }
}

#[test]
fn no_markers_detect_nothing() {
    let r = prepare_run(&names(&["README.md", "src"]), "build".to_string(), None, &Vec::new());
    assert_eq!(r.unwrap_err(), ResolveError::NoToolDetected);
    let r = prepare_run(&Vec::new(), "build".to_string(), None, &Vec::new());
    assert_eq!(r.unwrap_err(), ResolveError::NoToolDetected);
}

#[test]
fn override_beats_detected_make() {
    let inv = prepare_run(
        &names(&["Makefile"]),
        "build".to_string(),
        Some(Tools::Npm),
        &Vec::new(),
    )
    .unwrap();
    assert_eq!(inv.tool, Tools::Npm);
    assert_eq!(inv.command, "npm run build");
}

#[test]
fn extra_args_are_forwarded() {
    let inv = prepare_run(
        &names(&["pnpm-lock.yaml", "package.json", "notes.txt"]),
        "test".to_string(),
        Some(Tools::Pnpm),
        &names(&["--", "--coverage"]),
    )
    .unwrap();
    assert_eq!(inv.command, "pnpm run test -- --coverage");
}
