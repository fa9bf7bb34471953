//! The per-repository synchronization engine.
//!
//! For each discovered repository the engine decides, from the prober's
//! verdict and the outcomes of the operations it asks for, which action
//! comes next: clone a missing mirror, delete and re-clone an invalid one,
//! or fetch a valid one and fast-forward its default branch. The caller
//! performs the actions — the network clone, the fetch, the merge analysis,
//! the forced checkout — and feeds each outcome into [`SyncState::step`].
//! Failures end only the one repository's pipeline; every repository gets
//! its own [`SyncJob`].

use vstd::prelude::*;
use crate::repository::LocalOpenError;
use crate::repository::Repository;
use crate::repository::RepositoryMetadata;
use crate::repository::RepositoryView;
use crate::repository::ValidityVerdict;
use crate::repository::ValidityVerdictView;
use crate::repository::mirror_path;

verus! {

/// The run-wide configuration: which entity to mirror, and whether to
/// create bare repositories.
#[derive(Debug, PartialEq, Eq)]
pub struct Opts {
    pub bare: bool,
    pub entity: String,
}

/// Why one repository's synchronization failed. The message carries the
/// underlying cause as the caller reported it.
#[derive(Debug, PartialEq, Eq)]
pub enum SyncError {
    /// The clone did not complete.
    CloneFailed(String),
    /// The fetch from `origin` did not complete.
    FetchFailed(String),
    /// A fast-forward that the merge analysis allowed could not be applied.
    MergeFailed(String),
    /// An invalid local copy could not be deleted before re-cloning.
    FilesystemError(String),
}

/// Mathematical model of `SyncError`.
#[verifier::ext_equal]
pub enum SyncErrorView {
    CloneFailed(Seq<char>),
    FetchFailed(Seq<char>),
    MergeFailed(Seq<char>),
    FilesystemError(Seq<char>),
}

impl View for SyncError {
    type V = SyncErrorView;

    open spec fn view(&self) -> SyncErrorView {
        match self {
            SyncError::CloneFailed(m) => SyncErrorView::CloneFailed(m@),
            SyncError::FetchFailed(m) => SyncErrorView::FetchFailed(m@),
            SyncError::MergeFailed(m) => SyncErrorView::MergeFailed(m@),
            SyncError::FilesystemError(m) => SyncErrorView::FilesystemError(m@),
        }
    }
}

/// How one repository's synchronization ended.
#[derive(Debug, PartialEq, Eq)]
pub enum SyncOutcome {
    /// A missing mirror was cloned fresh.
    Cloned,
    /// The existing mirror was fetched and fast-forwarded.
    FetchedAndMerged,
    /// The existing mirror was fetched and needed no update.
    FetchedUpToDate,
    /// The fetch succeeded but the histories diverged; nothing was merged
    /// and the divergence is reported for manual follow-up.
    FetchedUnmergeable,
    /// An invalid local copy was deleted and cloned again.
    Recloned,
    /// The pipeline failed for this repository alone.
    Failed(SyncError),
}

/// Mathematical model of `SyncOutcome`.
#[verifier::ext_equal]
pub enum SyncOutcomeView {
    Cloned,
    FetchedAndMerged,
    FetchedUpToDate,
    FetchedUnmergeable,
    Recloned,
    Failed(SyncErrorView),
}

impl View for SyncOutcome {
    type V = SyncOutcomeView;

    open spec fn view(&self) -> SyncOutcomeView {
        match self {
            SyncOutcome::Cloned => SyncOutcomeView::Cloned,
            SyncOutcome::FetchedAndMerged => SyncOutcomeView::FetchedAndMerged,
            SyncOutcome::FetchedUpToDate => SyncOutcomeView::FetchedUpToDate,
            SyncOutcome::FetchedUnmergeable => SyncOutcomeView::FetchedUnmergeable,
            SyncOutcome::Recloned => SyncOutcomeView::Recloned,
            SyncOutcome::Failed(e) => SyncOutcomeView::Failed(e@),
        }
    }
}

/// What the merge analysis said about the fetched tip relative to the
/// current branch tip.
#[derive(Debug, PartialEq, Eq, Clone, Copy)]
pub enum MergeAnalysisKind {
    /// The local branch already holds the fetched commit.
    UpToDate,
    /// The local tip is an ancestor of the fetched tip.
    FastForward,
    /// The histories diverged: only a true merge would reconcile them.
    Diverged,
}

/// What the merge step does, given the repository's capabilities and the
/// analysis.
#[derive(Debug, PartialEq, Eq, Clone, Copy)]
pub enum MergeAction {
    /// No working tree to update: merging is a no-op.
    SkipBare,
    /// Nothing to do, already up to date.
    AlreadyUpToDate,
    /// Move the existing default-branch reference to the fetched commit
    /// and force-update the working tree.
    FastForwardExisting,
    /// The branch does not exist yet: create it at the fetched commit,
    /// set it as the current branch, and check it out.
    InitializeBranch,
    /// Diverged history is never merged automatically; report it instead.
    ReportUnmergeable,
}

/// The fast-forward-only merge policy: a bare repository is left alone, an
/// up-to-date branch needs nothing, a fast-forwardable branch is advanced
/// (or created, when it does not exist yet), and diverged history is
/// reported rather than merged.
pub open spec fn spec_merge_decision(
    has_working_tree: bool,
    analysis: MergeAnalysisKind,
    branch_exists: bool,
) -> MergeAction {
    if !has_working_tree {
        MergeAction::SkipBare
    } else {
        match analysis {
            MergeAnalysisKind::UpToDate => MergeAction::AlreadyUpToDate,
            MergeAnalysisKind::FastForward => if branch_exists {
                MergeAction::FastForwardExisting
            } else {
                MergeAction::InitializeBranch
            },
            MergeAnalysisKind::Diverged => MergeAction::ReportUnmergeable,
        }
    }
}

/// Decide the merge step from the repository's capability and the analysis.
pub fn merge_decision(has_working_tree: bool, analysis: MergeAnalysisKind, branch_exists: bool) -> (
    a: MergeAction)
    ensures
        a == spec_merge_decision(has_working_tree, analysis, branch_exists),
{
    if !has_working_tree {
        MergeAction::SkipBare
    } else {
        match analysis {
            MergeAnalysisKind::UpToDate => MergeAction::AlreadyUpToDate,
            MergeAnalysisKind::FastForward => if branch_exists {
                MergeAction::FastForwardExisting
            } else {
                MergeAction::InitializeBranch
            },
            MergeAnalysisKind::Diverged => MergeAction::ReportUnmergeable,
        }
    }
}

impl Repository {
    /// The merge step this repository needs for a fetched tip: the
    /// fast-forward-only policy applied to this handle's capabilities.
    pub fn merge(&self, analysis: MergeAnalysisKind, branch_exists: bool) -> (a: MergeAction)
        ensures
            a == spec_merge_decision(!self.bare, analysis, branch_exists),
    {
        merge_decision(self.has_working_tree(), analysis, branch_exists)
    }
}

/// Where one repository's pipeline stands, and so which action the caller
/// performs next: probe the path, delete it, clone, fetch, run the merge
/// analysis, or apply a fast-forward.
#[derive(Debug, PartialEq, Eq)]
pub enum SyncState {
    /// Waiting for the prober's verdict on the repository's path.
    Probing,
    /// The path held an invalid copy; waiting for its recursive deletion.
    Cleaning,
    /// Waiting for a clone of the repository into its path.
    Cloning { reclone: bool },
    /// Waiting for a fetch from the mirror's `origin` remote.
    Fetching { repo: Repository },
    /// Waiting for the merge analysis of the fetched tip.
    Merging { repo: Repository },
    /// Waiting for the fast-forward to be applied.
    FastForwarding { repo: Repository, create_branch: bool },
    /// This repository's pipeline has ended.
    Done(SyncOutcome),
}

/// Mathematical model of `SyncState`.
#[verifier::ext_equal]
pub enum SyncStateView {
    Probing,
    Cleaning,
    Cloning { reclone: bool },
    Fetching { repo: RepositoryView },
    Merging { repo: RepositoryView },
    FastForwarding { repo: RepositoryView, create_branch: bool },
    Done(SyncOutcomeView),
}

impl View for SyncState {
    type V = SyncStateView;

    open spec fn view(&self) -> SyncStateView {
        match self {
            SyncState::Probing => SyncStateView::Probing,
            SyncState::Cleaning => SyncStateView::Cleaning,
            SyncState::Cloning { reclone } => SyncStateView::Cloning { reclone: *reclone },
            SyncState::Fetching { repo } => SyncStateView::Fetching { repo: repo@ },
            SyncState::Merging { repo } => SyncStateView::Merging { repo: repo@ },
            SyncState::FastForwarding { repo, create_branch } => SyncStateView::FastForwarding {
                repo: repo@,
                create_branch: *create_branch,
            },
            SyncState::Done(outcome) => SyncStateView::Done(outcome@),
        }
    }
}

/// What the merge analysis found: how the fetched tip relates to the
/// current branch tip, and whether the local default branch exists at all.
#[derive(Debug, PartialEq, Eq, Clone, Copy)]
pub struct MergeOutlook {
    pub analysis: MergeAnalysisKind,
    pub branch_exists: bool,
}

/// The outcome of the action a state asked for, as the caller observed it.
#[derive(Debug, PartialEq, Eq)]
pub enum SyncEvent {
    /// The prober's verdict on the repository's path.
    Probed(ValidityVerdict),
    /// The recursive deletion of the invalid copy finished, or failed with
    /// the given cause.
    Cleaned(Result<(), String>),
    /// The clone finished, or failed with the given cause.
    CloneFinished(Result<(), String>),
    /// The fetch finished, or failed with the given cause.
    FetchFinished(Result<(), String>),
    /// The merge analysis of the fetched tip, or its failure.
    MergeAnalyzed(Result<MergeOutlook, String>),
    /// The fast-forward was applied, or failed with the given cause.
    FastForwardApplied(Result<(), String>),
}

/// Mathematical model of `SyncEvent`.
#[verifier::ext_equal]
pub enum SyncEventView {
    Probed(ValidityVerdictView),
    Cleaned(Result<(), Seq<char>>),
    CloneFinished(Result<(), Seq<char>>),
    FetchFinished(Result<(), Seq<char>>),
    MergeAnalyzed(Result<MergeOutlook, Seq<char>>),
    FastForwardApplied(Result<(), Seq<char>>),
}

/// The model of a `Result` whose error is a message.
pub open spec fn spec_message_result(r: Result<(), String>) -> Result<(), Seq<char>> {
    match r {
        Ok(_) => Ok(()),
        Err(m) => Err(m@),
    }
}

/// The model of a merge-analysis result whose error is a message.
pub open spec fn spec_outlook_result(r: Result<MergeOutlook, String>) -> Result<
    MergeOutlook,
    Seq<char>,
> {
    match r {
        Ok(outlook) => Ok(outlook),
        Err(m) => Err(m@),
    }
}

impl View for SyncEvent {
    type V = SyncEventView;

    open spec fn view(&self) -> SyncEventView {
        match self {
            SyncEvent::Probed(v) => SyncEventView::Probed(v@),
            SyncEvent::Cleaned(r) => SyncEventView::Cleaned(spec_message_result(*r)),
            SyncEvent::CloneFinished(r) => SyncEventView::CloneFinished(spec_message_result(*r)),
            SyncEvent::FetchFinished(r) => SyncEventView::FetchFinished(spec_message_result(*r)),
            SyncEvent::MergeAnalyzed(r) => SyncEventView::MergeAnalyzed(spec_outlook_result(*r)),
            SyncEvent::FastForwardApplied(r) => SyncEventView::FastForwardApplied(
                spec_message_result(*r),
            ),
        }
    }
}

/// One transition of the synchronization machine.
///
/// An absent path is cloned; an invalid copy is deleted and then cloned
/// again, and a deletion failure is fatal for that repository; a valid
/// mirror is fetched, and then — unless it is bare, which ends the
/// pipeline as up to date — merged under the fast-forward-only policy.
/// Failures carry the underlying cause into the outcome. An outcome that
/// does not belong to the state leaves the state unchanged.
pub open spec fn spec_sync_step(s: SyncStateView, e: SyncEventView) -> SyncStateView {
    match s {
        SyncStateView::Probing => match e {
            SyncEventView::Probed(verdict) => match verdict {
                ValidityVerdictView::Absent => SyncStateView::Cloning { reclone: false },
                ValidityVerdictView::Invalid(_) => SyncStateView::Cleaning,
                ValidityVerdictView::ValidMatch(repo) => SyncStateView::Fetching { repo },
            },
            _ => s,
        },
        SyncStateView::Cleaning => match e {
            SyncEventView::Cleaned(r) => match r {
                Ok(_) => SyncStateView::Cloning { reclone: true },
                Err(m) => SyncStateView::Done(
                    SyncOutcomeView::Failed(SyncErrorView::FilesystemError(m)),
                ),
            },
            _ => s,
        },
        SyncStateView::Cloning { reclone } => match e {
            SyncEventView::CloneFinished(r) => match r {
                Ok(_) => SyncStateView::Done(
                    if reclone {
                        SyncOutcomeView::Recloned
                    } else {
                        SyncOutcomeView::Cloned
                    },
                ),
                Err(m) => SyncStateView::Done(
                    SyncOutcomeView::Failed(SyncErrorView::CloneFailed(m)),
                ),
            },
            _ => s,
        },
        SyncStateView::Fetching { repo } => match e {
            SyncEventView::FetchFinished(r) => match r {
                Ok(_) => if repo.bare {
                    SyncStateView::Done(SyncOutcomeView::FetchedUpToDate)
                } else {
                    SyncStateView::Merging { repo }
                },
                Err(m) => SyncStateView::Done(
                    SyncOutcomeView::Failed(SyncErrorView::FetchFailed(m)),
                ),
            },
            _ => s,
        },
        SyncStateView::Merging { repo } => match e {
            SyncEventView::MergeAnalyzed(r) => match r {
                Ok(outlook) => match spec_merge_decision(
                    !repo.bare,
                    outlook.analysis,
                    outlook.branch_exists,
                ) {
                    MergeAction::SkipBare => SyncStateView::Done(SyncOutcomeView::FetchedUpToDate),
                    MergeAction::AlreadyUpToDate => SyncStateView::Done(
                        SyncOutcomeView::FetchedUpToDate,
                    ),
                    MergeAction::FastForwardExisting => SyncStateView::FastForwarding {
                        repo,
                        create_branch: false,
                    },
                    MergeAction::InitializeBranch => SyncStateView::FastForwarding {
                        repo,
                        create_branch: true,
                    },
                    MergeAction::ReportUnmergeable => SyncStateView::Done(
                        SyncOutcomeView::FetchedUnmergeable,
                    ),
                },
                Err(m) => SyncStateView::Done(
                    SyncOutcomeView::Failed(SyncErrorView::MergeFailed(m)),
                ),
            },
            _ => s,
        },
        SyncStateView::FastForwarding { repo, create_branch } => match e {
            SyncEventView::FastForwardApplied(r) => match r {
                Ok(_) => SyncStateView::Done(SyncOutcomeView::FetchedAndMerged),
                Err(m) => SyncStateView::Done(
                    SyncOutcomeView::Failed(SyncErrorView::MergeFailed(m)),
                ),
            },
            _ => s,
        },
        SyncStateView::Done(_) => s,
    }
}

impl SyncState {
    /// Consume the outcome of the action this state asked for and move to
    /// the next state.
    pub fn step(self, event: SyncEvent) -> (r: SyncState)
        ensures
            r@ == spec_sync_step(self@, event@),
    {
        match self {
            SyncState::Probing => match event {
                SyncEvent::Probed(verdict) => match verdict {
                    ValidityVerdict::Absent => SyncState::Cloning { reclone: false },
                    ValidityVerdict::Invalid(_) => SyncState::Cleaning,
                    ValidityVerdict::ValidMatch(repo) => SyncState::Fetching { repo },
                },
                _ => SyncState::Probing,
            },
            SyncState::Cleaning => match event {
                SyncEvent::Cleaned(r) => match r {
                    Ok(_) => SyncState::Cloning { reclone: true },
                    Err(m) => SyncState::Done(
                        SyncOutcome::Failed(SyncError::FilesystemError(m)),
                    ),
                },
                _ => SyncState::Cleaning,
            },
            SyncState::Cloning { reclone } => match event {
                SyncEvent::CloneFinished(r) => match r {
                    Ok(_) => SyncState::Done(
                        if reclone {
                            SyncOutcome::Recloned
                        } else {
                            SyncOutcome::Cloned
                        },
                    ),
                    Err(m) => SyncState::Done(SyncOutcome::Failed(SyncError::CloneFailed(m))),
                },
                _ => SyncState::Cloning { reclone },
            },
            SyncState::Fetching { repo } => match event {
                SyncEvent::FetchFinished(r) => match r {
                    Ok(_) => if repo.bare {
                        SyncState::Done(SyncOutcome::FetchedUpToDate)
                    } else {
                        SyncState::Merging { repo }
                    },
                    Err(m) => SyncState::Done(SyncOutcome::Failed(SyncError::FetchFailed(m))),
                },
                _ => SyncState::Fetching { repo },
            },
            SyncState::Merging { repo } => match event {
                SyncEvent::MergeAnalyzed(r) => match r {
                    Ok(outlook) => {
                        let action = repo.merge(outlook.analysis, outlook.branch_exists);
                        match action {
                            MergeAction::SkipBare => SyncState::Done(SyncOutcome::FetchedUpToDate),
                            MergeAction::AlreadyUpToDate => SyncState::Done(
                                SyncOutcome::FetchedUpToDate,
                            ),
                            MergeAction::FastForwardExisting => SyncState::FastForwarding {
                                repo,
                                create_branch: false,
                            },
                            MergeAction::InitializeBranch => SyncState::FastForwarding {
                                repo,
                                create_branch: true,
                            },
                            MergeAction::ReportUnmergeable => SyncState::Done(
                                SyncOutcome::FetchedUnmergeable,
                            ),
                        }
                    },
                    Err(m) => SyncState::Done(SyncOutcome::Failed(SyncError::MergeFailed(m))),
                },
                _ => SyncState::Merging { repo },
            },
            SyncState::FastForwarding { repo, create_branch } => match event {
                SyncEvent::FastForwardApplied(r) => match r {
                    Ok(_) => SyncState::Done(SyncOutcome::FetchedAndMerged),
                    Err(m) => SyncState::Done(SyncOutcome::Failed(SyncError::MergeFailed(m))),
                },
                _ => SyncState::FastForwarding { repo, create_branch },
            },
            SyncState::Done(outcome) => SyncState::Done(outcome),
        }
    }

}

/// One repository's pipeline: its metadata, the path of its mirror, the
/// bare-mode flag it is cloned under, and where its pipeline stands.
#[derive(Debug, PartialEq, Eq)]
pub struct SyncJob {
    pub meta: RepositoryMetadata,
    pub path: String,
    pub bare: bool,
    pub state: SyncState,
}

/// Set up one pipeline per discovered repository, in discovery order:
/// each job mirrors its repository at `{entity}/{name}`, honors the
/// run-wide bare flag, and starts at the probe. The jobs share nothing,
/// so a failure in one never ends another.
pub fn clone_repositories(entity: &str, repositories: &Vec<RepositoryMetadata>, opts: &Opts) -> (
    jobs: Vec<SyncJob>)
    ensures
        jobs@.len() == repositories@.len(),
        forall|i: int|
            0 <= i < jobs@.len() ==> {
                &&& (#[trigger] jobs@[i]).meta == repositories@[i]
                &&& jobs@[i].path@ == entity@ + "/"@ + repositories@[i].name@
                &&& jobs@[i].bare == opts.bare
                &&& jobs@[i].state@ == SyncStateView::Probing
            },
{
    let mut jobs: Vec<SyncJob> = Vec::new();
    let mut i: usize = 0;
    while i < repositories.len()
        invariant
            i <= repositories.len(),
            jobs@.len() == i,
            forall|j: int|
                0 <= j < i ==> {
                    &&& (#[trigger] jobs@[j]).meta == repositories@[j]
                    &&& jobs@[j].path@ == entity@ + "/"@ + repositories@[j].name@
                    &&& jobs@[j].bare == opts.bare
                    &&& jobs@[j].state@ == SyncStateView::Probing
                },
        decreases repositories.len() - i,
    {
        let meta = repositories[i].clone();
        let path = mirror_path(entity, meta.name.as_str());
        jobs.push(SyncJob { meta, path, bare: opts.bare, state: SyncState::Probing });
        i = i + 1;
    }
    jobs
}

/// A whole pipeline: feed the outcomes in `events` to the machine one by
/// one.
pub open spec fn spec_sync_run(s: SyncStateView, events: Seq<SyncEventView>) -> SyncStateView
    decreases events.len(),
{
    if events.len() == 0 {
        s
    } else {
        spec_sync_run(spec_sync_step(s, events[0]), events.drop_first())
    }
}

/// The fast-forward pipeline: probing a valid, non-bare mirror, fetching
/// it, learning that the fetched tip fast-forwards the existing default
/// branch, and applying that fast-forward ends the pipeline with the
/// repository fetched and merged — its branch now at the fetched tip.
pub proof fn lemma_fast_forward_run(repo: RepositoryView)
    requires
        !repo.bare,
    ensures
        spec_sync_run(
            SyncStateView::Probing,
            seq![
                SyncEventView::Probed(ValidityVerdictView::ValidMatch(repo)),
                SyncEventView::FetchFinished(Ok(())),
                SyncEventView::MergeAnalyzed(
                    Ok(
                        MergeOutlook {
                            analysis: MergeAnalysisKind::FastForward,
                            branch_exists: true,
                        },
                    ),
                ),
                SyncEventView::FastForwardApplied(Ok(())),
            ],
        ) == SyncStateView::Done(SyncOutcomeView::FetchedAndMerged),
{
    let e0 = SyncEventView::Probed(ValidityVerdictView::ValidMatch(repo));
    let e1 = SyncEventView::FetchFinished(Ok(()));
    let e2 = SyncEventView::MergeAnalyzed(
        Ok(MergeOutlook { analysis: MergeAnalysisKind::FastForward, branch_exists: true }),
    );
    let e3 = SyncEventView::FastForwardApplied(Ok(()));
    let events = seq![e0, e1, e2, e3];
    let s1 = spec_sync_step(SyncStateView::Probing, e0);
    assert(s1 == SyncStateView::Fetching { repo });
    let s2 = spec_sync_step(s1, e1);
    assert(s2 == SyncStateView::Merging { repo });
    let s3 = spec_sync_step(s2, e2);
    assert(s3 == SyncStateView::FastForwarding { repo, create_branch: false });
    let s4 = spec_sync_step(s3, e3);
    assert(s4 == SyncStateView::Done(SyncOutcomeView::FetchedAndMerged));
    let rest1 = events.drop_first();
    let rest2 = rest1.drop_first();
    let rest3 = rest2.drop_first();
    let rest4 = rest3.drop_first();
    assert(rest1 =~= seq![e1, e2, e3]);
    assert(rest2 =~= seq![e2, e3]);
    assert(rest3 =~= seq![e3]);
    assert(rest4 =~= Seq::<SyncEventView>::empty());
    assert(spec_sync_run(SyncStateView::Probing, events) == spec_sync_run(s1, rest1));
    assert(spec_sync_run(s1, rest1) == spec_sync_run(s2, rest2));
    assert(spec_sync_run(s2, rest2) == spec_sync_run(s3, rest3));
    assert(spec_sync_run(s3, rest3) == spec_sync_run(s4, rest4));
    assert(spec_sync_run(s4, rest4) == s4);
}

/// A bare mirror is never merged or checked out: a successful fetch ends
/// its pipeline at once, reported as up to date, without the pipeline ever
/// reaching the merging or fast-forwarding states.
pub proof fn lemma_bare_repository_skips_merge(repo: RepositoryView)
    requires
        repo.bare,
    ensures
        spec_sync_step(
            SyncStateView::Fetching { repo },
            SyncEventView::FetchFinished(Ok(())),
        ) == SyncStateView::Done(SyncOutcomeView::FetchedUpToDate),
{
}

/// An invalid local copy is deleted and cloned again, and the re-clone is
/// reported as such; a deletion failure is fatal for that repository and
/// carries the filesystem cause, so the engine never clones into a path
/// it failed to clean up.
pub proof fn lemma_invalid_copy_is_recloned(reason: LocalOpenError, message: Seq<char>)
    ensures
        spec_sync_step(
            SyncStateView::Probing,
            SyncEventView::Probed(ValidityVerdictView::Invalid(reason)),
        ) == SyncStateView::Cleaning,
        spec_sync_step(SyncStateView::Cleaning, SyncEventView::Cleaned(Ok(()))) == (
        SyncStateView::Cloning { reclone: true }),
        spec_sync_step(
            SyncStateView::Cloning { reclone: true },
            SyncEventView::CloneFinished(Ok(())),
        ) == SyncStateView::Done(SyncOutcomeView::Recloned),
        spec_sync_step(SyncStateView::Cleaning, SyncEventView::Cleaned(Err(message)))
            == SyncStateView::Done(
            SyncOutcomeView::Failed(SyncErrorView::FilesystemError(message)),
        ),
{
}

/// A finished pipeline stays finished: no further outcome changes a
/// `Done` state, so a repository's reported outcome is stable.
pub proof fn lemma_done_is_final(outcome: SyncOutcomeView, e: SyncEventView)
    ensures
        spec_sync_step(SyncStateView::Done(outcome), e) == SyncStateView::Done(outcome),
{
}

/// A clone that fails — an invalid URL, an unreachable remote — ends only
/// that repository's pipeline, with the underlying cause in the outcome;
/// the machine reaches a final state instead of stopping the run.
pub proof fn lemma_clone_failure_is_isolated(reclone: bool, message: Seq<char>)
    ensures
        spec_sync_step(
            SyncStateView::Cloning { reclone },
            SyncEventView::CloneFinished(Err(message)),
        ) == SyncStateView::Done(SyncOutcomeView::Failed(SyncErrorView::CloneFailed(message))),
        (spec_sync_step(
            SyncStateView::Cloning { reclone },
            SyncEventView::CloneFinished(Err(message)),
        ) is Done),
{
}

} // verus!
