//! Looking for the workspace that surrounds the comparison.
//!
//! The context of a workspace only enriches the report: the comparison can
//! always be made from the two lockfiles alone. So a search that finds
//! nothing, or fails, goes on without context. Only a manifest file that the
//! user pointed at must load, since passing over it would hide a mistake.
//!
//! The file system and the discovery itself are the caller's part. The rules
//! here say where discovery starts and what follows from its outcome.

use vstd::prelude::*;

verus! {

/// What the file system holds at a hinted path.
#[derive(Debug, Clone, Copy, PartialEq, Eq, Structural)]
pub enum PathKind {
    /// An existing regular file.
    File,
    /// An existing directory.
    Directory,
    /// Nothing, or something that is neither.
    Missing,
}

/// A manifest path given by the user, with what was found there.
#[derive(Debug, Clone)]
pub struct PathHint {
    pub path: String,
    pub kind: PathKind,
}

/// Where the discovery of a workspace starts.
#[derive(Debug, Clone, PartialEq, Eq)]
pub enum DiscoveryStart {
    /// Load the workspace of this manifest file.
    ExplicitManifest(String),
    /// Search from this directory.
    SearchRoot(String),
    /// Search from the current working directory.
    CurrentDir,
}

pub enum DiscoveryStartView {
    ExplicitManifest(Seq<char>),
    SearchRoot(Seq<char>),
    CurrentDir,
}

impl View for DiscoveryStart {
    type V = DiscoveryStartView;

    open spec fn view(&self) -> DiscoveryStartView {
        match self {
            DiscoveryStart::ExplicitManifest(p) => DiscoveryStartView::ExplicitManifest(p@),
            DiscoveryStart::SearchRoot(p) => DiscoveryStartView::SearchRoot(p@),
            DiscoveryStart::CurrentDir => DiscoveryStartView::CurrentDir,
        }
    }
}

/// What a discovery came back with. The three outcomes are kept apart: a
/// workspace found at a manifest path, none found, or a failure with its
/// diagnostic.
#[derive(Debug, Clone, PartialEq, Eq)]
pub enum DiscoveryOutcome {
    Found(String),
    NotFound,
    Failed(String),
}

pub enum DiscoveryOutcomeView {
    Found(Seq<char>),
    NotFound,
    Failed(Seq<char>),
}

impl View for DiscoveryOutcome {
    type V = DiscoveryOutcomeView;

    open spec fn view(&self) -> DiscoveryOutcomeView {
        match self {
            DiscoveryOutcome::Found(p) => DiscoveryOutcomeView::Found(p@),
            DiscoveryOutcome::NotFound => DiscoveryOutcomeView::NotFound,
            DiscoveryOutcome::Failed(e) => DiscoveryOutcomeView::Failed(e@),
        }
    }
}

/// What is done when no workspace is at hand.
#[derive(Debug, Clone, PartialEq, Eq)]
pub enum Fallback {
    /// Report without context, silently.
    Skip,
    /// Report without context, and log this diagnostic.
    SkipLogged(String),
    /// Fail the command with this diagnostic.
    Abort(String),
}

pub enum FallbackView {
    Skip,
    SkipLogged(Seq<char>),
    Abort(Seq<char>),
}

impl View for Fallback {
    type V = FallbackView;

    open spec fn view(&self) -> FallbackView {
        match self {
            Fallback::Skip => FallbackView::Skip,
            Fallback::SkipLogged(e) => FallbackView::SkipLogged(e@),
            Fallback::Abort(e) => FallbackView::Abort(e@),
        }
    }
}

/// What follows a discovery.
#[derive(Debug, Clone, PartialEq, Eq)]
pub enum DiscoveryStep {
    /// Load the workspace from the manifest at this path.
    Load(String),
    /// No workspace will be loaded.
    GiveUp(Fallback),
}

pub enum DiscoveryStepView {
    Load(Seq<char>),
    GiveUp(FallbackView),
}

impl View for DiscoveryStep {
    type V = DiscoveryStepView;

    open spec fn view(&self) -> DiscoveryStepView {
        match self {
            DiscoveryStep::Load(p) => DiscoveryStepView::Load(p@),
            DiscoveryStep::GiveUp(f) => DiscoveryStepView::GiveUp(f@),
        }
    }
}

/// What follows the loading of a discovered workspace.
#[derive(Debug, Clone, PartialEq, Eq)]
pub enum LoadStep {
    /// Report with the loaded workspace as context.
    Use,
    /// The workspace did not load.
    GiveUp(Fallback),
}

pub enum LoadStepView {
    Use,
    GiveUp(FallbackView),
}

impl View for LoadStep {
    type V = LoadStepView;

    open spec fn view(&self) -> LoadStepView {
        match self {
            LoadStep::Use => LoadStepView::Use,
            LoadStep::GiveUp(f) => LoadStepView::GiveUp(f@),
        }
    }
}

/// The start that a hint denotes: an existing file is an explicit manifest,
/// an existing directory the root of a search; without a hint, or with one
/// that points at neither, the search starts from the current directory.
pub open spec fn spec_discovery_start(hint: Option<(Seq<char>, PathKind)>) -> DiscoveryStartView {
    match hint {
        Some((path, PathKind::File)) => DiscoveryStartView::ExplicitManifest(path),
        Some((path, PathKind::Directory)) => DiscoveryStartView::SearchRoot(path),
        _ => DiscoveryStartView::CurrentDir,
    }
}

/// The diagnostic for an explicit manifest at which no workspace was found.
pub open spec fn no_workspace_message() -> Seq<char> {
    "No workspace found at the given manifest path"@
}

/// The fallback for a discovery that started at `start` and ended without
/// a workspace, with a diagnostic or without one. An explicit manifest must
/// load, so its fallback ends the command; a search goes on without context,
/// and logs the diagnostic where there is one.
pub open spec fn spec_fallback(
    start: DiscoveryStartView,
    diagnostic: Option<Seq<char>>,
) -> FallbackView {
    if start is ExplicitManifest {
        FallbackView::Abort(
            match diagnostic {
                Some(e) => e,
                None => no_workspace_message(),
            },
        )
    } else {
        match diagnostic {
            Some(e) => FallbackView::SkipLogged(e),
            None => FallbackView::Skip,
        }
    }
}

/// The step that follows a discovery from `start` with the given outcome.
pub open spec fn spec_after_discovery(
    start: DiscoveryStartView,
    outcome: DiscoveryOutcomeView,
) -> DiscoveryStepView {
    match outcome {
        DiscoveryOutcomeView::Found(path) => DiscoveryStepView::Load(path),
        DiscoveryOutcomeView::NotFound => DiscoveryStepView::GiveUp(spec_fallback(start, None)),
        DiscoveryOutcomeView::Failed(e) => DiscoveryStepView::GiveUp(
            spec_fallback(start, Some(e)),
        ),
    }
}

/// The step that follows the loading of a discovered workspace; `failure`
/// holds the diagnostic where loading failed.
pub open spec fn spec_after_load(
    start: DiscoveryStartView,
    failure: Option<Seq<char>>,
) -> LoadStepView {
    match failure {
        None => LoadStepView::Use,
        Some(e) => LoadStepView::GiveUp(spec_fallback(start, Some(e))),
    }
}

/// The view of an optional hint.
pub open spec fn hint_view(hint: Option<PathHint>) -> Option<(Seq<char>, PathKind)> {
    match hint {
        Some(h) => Some((h.path@, h.kind)),
        None => None,
    }
}

/// The view of an optional diagnostic.
pub open spec fn failure_view(failure: Option<String>) -> Option<Seq<char>> {
    match failure {
        Some(e) => Some(e@),
        None => None,
    }
}

impl DiscoveryStart {
    /// Whether the user pointed at a manifest file.
    pub fn is_explicit(&self) -> (r: bool)
        ensures
            r == (self@ is ExplicitManifest),
    {
        match self {
            DiscoveryStart::ExplicitManifest(_) => true,
            _ => false,
        }
    }
}

/// Decides where discovery starts.
pub fn discovery_start(hint: Option<PathHint>) -> (r: DiscoveryStart)
    ensures
        r@ == spec_discovery_start(hint_view(hint)),
{
    match hint {
        Some(PathHint { path, kind: PathKind::File }) => DiscoveryStart::ExplicitManifest(path),
        Some(PathHint { path, kind: PathKind::Directory }) => DiscoveryStart::SearchRoot(path),
        _ => DiscoveryStart::CurrentDir,
    }
}

/// Decides what is done without a workspace.
pub fn fallback(start: &DiscoveryStart, diagnostic: Option<String>) -> (r: Fallback)
    ensures
        r@ == spec_fallback(start@, failure_view(diagnostic)),
{
    if start.is_explicit() {
        match diagnostic {
            Some(e) => Fallback::Abort(e),
            None => Fallback::Abort("No workspace found at the given manifest path".to_owned()),
        }
    } else {
        match diagnostic {
            Some(e) => Fallback::SkipLogged(e),
            None => Fallback::Skip,
        }
    }
}

/// Decides what follows a discovery.
pub fn after_discovery(start: &DiscoveryStart, outcome: DiscoveryOutcome) -> (r: DiscoveryStep)
    ensures
        r@ == spec_after_discovery(start@, outcome@),
{
    match outcome {
        DiscoveryOutcome::Found(path) => DiscoveryStep::Load(path),
        DiscoveryOutcome::NotFound => DiscoveryStep::GiveUp(fallback(start, None)),
        DiscoveryOutcome::Failed(e) => DiscoveryStep::GiveUp(fallback(start, Some(e))),
    }
}

/// Decides what follows the loading of a discovered workspace.
pub fn after_load(start: &DiscoveryStart, failure: Option<String>) -> (r: LoadStep)
    ensures
        r@ == spec_after_load(start@, failure_view(failure)),
{
    match failure {
        None => LoadStep::Use,
        Some(e) => LoadStep::GiveUp(fallback(start, Some(e))),
    }
}

/// A search, from a given directory or from the current one, never ends
/// the command: whatever discovery and loading come back with, the report
/// is made, with context or without.
pub proof fn law_search_is_never_fatal(start: DiscoveryStartView, diagnostic: Option<Seq<char>>)
    requires
        !(start is ExplicitManifest),
    ensures
        !(spec_fallback(start, diagnostic) is Abort),
{
}

/// With nothing found by a search, the report is made without context and
/// nothing is logged.
pub proof fn law_nothing_found_is_silent(start: DiscoveryStartView)
    requires
        !(start is ExplicitManifest),
    ensures
        spec_after_discovery(start, DiscoveryOutcomeView::NotFound) == DiscoveryStepView::GiveUp(
            FallbackView::Skip,
        ),
{
}

/// An explicit manifest either loads or ends the command: no step from it
/// goes on without context.
pub proof fn law_explicit_manifest_must_load(
    start: DiscoveryStartView,
    outcome: DiscoveryOutcomeView,
    failure: Option<Seq<char>>,
)
    requires
        start is ExplicitManifest,
    ensures
        spec_fallback(start, failure) is Abort,
        !(outcome is Found) ==> (spec_after_discovery(start, outcome) matches DiscoveryStepView::GiveUp(
            f,
        ) && f is Abort),
        failure is Some ==> (spec_after_load(start, failure) matches LoadStepView::GiveUp(f)
            && f is Abort),
{
}

/// A workspace is loaded exactly when discovery found one, and context is
/// used exactly when it loaded.
pub proof fn law_context_only_when_loaded(
    start: DiscoveryStartView,
    outcome: DiscoveryOutcomeView,
    failure: Option<Seq<char>>,
)
    ensures
        spec_after_discovery(start, outcome) is Load <==> outcome is Found,
        spec_after_load(start, failure) is Use <==> failure is None,
{
}

/// A diagnostic is never dropped: a fallback that had one carries it, to
/// the log or to the failure of the command.
pub proof fn law_diagnostic_is_kept(start: DiscoveryStartView, e: Seq<char>)
    ensures
        spec_fallback(start, Some(e)) == (if start is ExplicitManifest {
            FallbackView::Abort(e)
        } else {
            FallbackView::SkipLogged(e)
        }),
{
}

/// A hint starts an explicit load exactly when it points at an existing
/// file.
pub proof fn law_explicit_start_needs_file(hint: Option<(Seq<char>, PathKind)>)
    ensures
        spec_discovery_start(hint) is ExplicitManifest <==> (hint matches Some((_, kind))
            && kind == PathKind::File),
{
}

} // verus!
