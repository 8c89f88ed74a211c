use pixi_diff_cli::workspace::{
    after_discovery, after_load, discovery_start, fallback, DiscoveryOutcome, DiscoveryStart,
    DiscoveryStep, Fallback, LoadStep, PathHint, PathKind,
};

fn hint(path: &str, kind: PathKind) -> Option<PathHint> {
    Some(PathHint { path: path.to_string(), kind })
}

fn explicit() -> DiscoveryStart {
    DiscoveryStart::ExplicitManifest("proj/pixi.toml".to_string())
}

fn searches() -> [DiscoveryStart; 2] {
    [DiscoveryStart::SearchRoot("proj".to_string()), DiscoveryStart::CurrentDir]
}

#[test]
fn existing_file_is_an_explicit_manifest() {
    assert_eq!(
        discovery_start(hint("proj/pixi.toml", PathKind::File)),
        DiscoveryStart::ExplicitManifest("proj/pixi.toml".to_string())
    );
}

#[test]
fn existing_directory_is_a_search_root() {
    assert_eq!(
        discovery_start(hint("proj", PathKind::Directory)),
        DiscoveryStart::SearchRoot("proj".to_string())
    );
}

#[test]
fn no_hint_searches_from_the_current_directory() {
    assert_eq!(discovery_start(None), DiscoveryStart::CurrentDir);
}

#[test]
fn missing_path_searches_from_the_current_directory() {
    assert_eq!(discovery_start(hint("nowhere", PathKind::Missing)), DiscoveryStart::CurrentDir);
}

#[test]
fn only_an_explicit_manifest_is_explicit() {
    assert!(explicit().is_explicit());
    for start in searches() {
        assert!(!start.is_explicit());
    }
}

#[test]
fn found_workspace_is_loaded_from_its_manifest() {
    let found = DiscoveryOutcome::Found("proj/pixi.toml".to_string());
    assert_eq!(
        after_discovery(&explicit(), found.clone()),
        DiscoveryStep::Load("proj/pixi.toml".to_string())
    );
    for start in searches() {
        assert_eq!(
            after_discovery(&start, found.clone()),
            DiscoveryStep::Load("proj/pixi.toml".to_string())
        );
    }
}

#[test]
fn search_that_finds_nothing_goes_on_silently() {
    for start in searches() {
        assert_eq!(
            after_discovery(&start, DiscoveryOutcome::NotFound),
            DiscoveryStep::GiveUp(Fallback::Skip)
        );
        assert_eq!(fallback(&start, None), Fallback::Skip);
    }
}

#[test]
fn search_that_fails_goes_on_and_logs() {
    for start in searches() {
        assert_eq!(
            after_discovery(&start, DiscoveryOutcome::Failed("bad manifest".to_string())),
            DiscoveryStep::GiveUp(Fallback::SkipLogged("bad manifest".to_string()))
        );
        assert_eq!(
            after_load(&start, Some("ambiguous workspace".to_string())),
            LoadStep::GiveUp(Fallback::SkipLogged("ambiguous workspace".to_string()))
        );
    }
}

#[test]
fn explicit_manifest_that_is_no_workspace_fails() {
    assert_eq!(
        after_discovery(&explicit(), DiscoveryOutcome::NotFound),
        DiscoveryStep::GiveUp(Fallback::Abort(
            "No workspace found at the given manifest path".to_string()
        ))
    );
    assert_eq!(
        after_discovery(&explicit(), DiscoveryOutcome::Failed("bad manifest".to_string())),
        DiscoveryStep::GiveUp(Fallback::Abort("bad manifest".to_string()))
    );
    assert_eq!(
        after_load(&explicit(), Some("bad manifest".to_string())),
        LoadStep::GiveUp(Fallback::Abort("bad manifest".to_string()))
    );
}

#[test]
fn loaded_workspace_is_used() {
    assert_eq!(after_load(&explicit(), None), LoadStep::Use);
    for start in searches() {
        assert_eq!(after_load(&start, None), LoadStep::Use);
    }
}

#[test]
fn fallback_follows_the_start() {
    assert_eq!(
        fallback(&explicit(), None),
        Fallback::Abort("No workspace found at the given manifest path".to_string())
    );
    assert_eq!(
        fallback(&explicit(), Some("malformed".to_string())),
        Fallback::Abort("malformed".to_string())
    );
    for start in searches() {
        assert_eq!(
            fallback(&start, Some("malformed".to_string())),
            Fallback::SkipLogged("malformed".to_string())
        );
    }
}
