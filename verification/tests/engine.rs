use github_clone_org::progress::progress_percentage;
use github_clone_org::repository::{LocalProbe, Repository, RepositoryMetadata, ValidityVerdict};
use github_clone_org::sync::{
    clone_repositories, merge_decision, MergeAction, MergeAnalysisKind, MergeOutlook, Opts,
    SyncError, SyncEvent, SyncOutcome, SyncState,
};

fn test_repo() -> RepositoryMetadata {
    RepositoryMetadata {
        name: String::from("Hello-World"),
        clone_url: String::from("https://github.com/octocat/Hello-World.git"),
        is_fork: false,
    }
}

fn valid_match(meta: &RepositoryMetadata, bare: bool) -> ValidityVerdict {
    let observation = LocalProbe {
        exists: true,
        opens_as_repository: true,
        origin_url: Some(meta.clone_url.clone()),
        bare,
    };
    meta.probe(&observation)
}

fn expect_done(state: SyncState) -> SyncOutcome {
    match state {
        SyncState::Done(outcome) => outcome,
        other => panic!("expected Done, got {:?}", other),
    }
}

#[test]
fn absent_path_is_cloned() {
    let state = SyncState::Probing.step(SyncEvent::Probed(ValidityVerdict::Absent));
    assert_eq!(state, SyncState::Cloning { reclone: false });
    let state = state.step(SyncEvent::CloneFinished(Ok(())));
    assert_eq!(expect_done(state), SyncOutcome::Cloned);
}

#[test]
fn invalid_path_is_deleted_and_recloned() {
    let meta = test_repo();
    let observation = LocalProbe {
        exists: true,
        opens_as_repository: false,
        origin_url: None,
        bare: false,
    };
    let state = SyncState::Probing.step(SyncEvent::Probed(meta.probe(&observation)));
    assert_eq!(state, SyncState::Cleaning);
    let state = state.step(SyncEvent::Cleaned(Ok(())));
    assert_eq!(state, SyncState::Cloning { reclone: true });
    let state = state.step(SyncEvent::CloneFinished(Ok(())));
    assert_eq!(expect_done(state), SyncOutcome::Recloned);
}

#[test]
fn deletion_failure_is_fatal_for_that_repository() {
    let state = SyncState::Cleaning.step(SyncEvent::Cleaned(Err(String::from("permission denied"))));
    match expect_done(state) {
        SyncOutcome::Failed(SyncError::FilesystemError(m)) => {
            assert_eq!(m, "permission denied");
        }
        other => panic!("expected FilesystemError, got {:?}", other),
    }
}

#[test]
fn fast_forward() {
    let meta = test_repo();
    let state = SyncState::Probing.step(SyncEvent::Probed(valid_match(&meta, false)));
    assert!(matches!(state, SyncState::Fetching { .. }));
    let state = state.step(SyncEvent::FetchFinished(Ok(())));
    assert!(matches!(state, SyncState::Merging { .. }));
    let state = state.step(SyncEvent::MergeAnalyzed(Ok(MergeOutlook {
        analysis: MergeAnalysisKind::FastForward,
        branch_exists: true,
    })));
    match &state {
        SyncState::FastForwarding { create_branch, .. } => assert_eq!(*create_branch, false),
        other => panic!("expected FastForwarding, got {:?}", other),
    }
    let state = state.step(SyncEvent::FastForwardApplied(Ok(())));
    assert_eq!(expect_done(state), SyncOutcome::FetchedAndMerged);
}

#[test]
fn up_to_date() {
    let meta = test_repo();
    let state = SyncState::Probing.step(SyncEvent::Probed(valid_match(&meta, false)));
    let state = state.step(SyncEvent::FetchFinished(Ok(())));
    let state = state.step(SyncEvent::MergeAnalyzed(Ok(MergeOutlook {
        analysis: MergeAnalysisKind::UpToDate,
        branch_exists: true,
    })));
    assert_eq!(expect_done(state), SyncOutcome::FetchedUpToDate);
}

#[test]
fn diverged_history_is_reported_not_merged() {
    let meta = test_repo();
    let state = SyncState::Probing.step(SyncEvent::Probed(valid_match(&meta, false)));
    let state = state.step(SyncEvent::FetchFinished(Ok(())));
    let state = state.step(SyncEvent::MergeAnalyzed(Ok(MergeOutlook {
        analysis: MergeAnalysisKind::Diverged,
        branch_exists: true,
    })));
    assert_eq!(expect_done(state), SyncOutcome::FetchedUnmergeable);
}

#[test]
fn missing_branch_is_initialized_at_the_fetched_commit() {
    let meta = test_repo();
    let state = SyncState::Probing.step(SyncEvent::Probed(valid_match(&meta, false)));
    let state = state.step(SyncEvent::FetchFinished(Ok(())));
    let state = state.step(SyncEvent::MergeAnalyzed(Ok(MergeOutlook {
        analysis: MergeAnalysisKind::FastForward,
        branch_exists: false,
    })));
    match &state {
        SyncState::FastForwarding { create_branch, .. } => assert_eq!(*create_branch, true),
        other => panic!("expected FastForwarding, got {:?}", other),
    }
    let state = state.step(SyncEvent::FastForwardApplied(Ok(())));
    assert_eq!(expect_done(state), SyncOutcome::FetchedAndMerged);
}

#[test]
fn bare_mirror_is_fetched_but_never_merged() {
    let meta = test_repo();
    let state = SyncState::Probing.step(SyncEvent::Probed(valid_match(&meta, true)));
    assert!(matches!(state, SyncState::Fetching { .. }));
    let state = state.step(SyncEvent::FetchFinished(Ok(())));
    assert_eq!(expect_done(state), SyncOutcome::FetchedUpToDate);
}

#[test]
fn invalid_clone_url_fails_only_that_repository() {
    let failing = SyncState::Cloning { reclone: false }
        .step(SyncEvent::CloneFinished(Err(String::from("unsupported URL protocol"))));
    match expect_done(failing) {
        SyncOutcome::Failed(SyncError::CloneFailed(m)) => {
            assert_eq!(m, "unsupported URL protocol");
        }
        other => panic!("expected CloneFailed, got {:?}", other),
    }

    let unaffected = SyncState::Cloning { reclone: false }.step(SyncEvent::CloneFinished(Ok(())));
    assert_eq!(expect_done(unaffected), SyncOutcome::Cloned);
}

#[test]
fn fetch_failure_carries_its_cause() {
    let meta = test_repo();
    let state = SyncState::Probing.step(SyncEvent::Probed(valid_match(&meta, false)));
    let state = state.step(SyncEvent::FetchFinished(Err(String::from(
        "could not find repository",
    ))));
    match expect_done(state) {
        SyncOutcome::Failed(SyncError::FetchFailed(m)) => {
            assert_eq!(m, "could not find repository");
        }
        other => panic!("expected FetchFailed, got {:?}", other),
    }
}

#[test]
fn failed_checkout_is_a_merge_failure() {
    let meta = test_repo();
    let repo = match valid_match(&meta, false) {
        ValidityVerdict::ValidMatch(repo) => repo,
        other => panic!("expected ValidMatch, got {:?}", other),
    };
    let state = SyncState::FastForwarding { repo, create_branch: false }
        .step(SyncEvent::FastForwardApplied(Err(String::from("conflict"))));
    match expect_done(state) {
        SyncOutcome::Failed(SyncError::MergeFailed(m)) => assert_eq!(m, "conflict"),
        other => panic!("expected MergeFailed, got {:?}", other),
    }
}

#[test]
fn unrelated_outcomes_leave_the_state_alone() {
    let state = SyncState::Probing.step(SyncEvent::CloneFinished(Ok(())));
    assert_eq!(state, SyncState::Probing);
    let state = SyncState::Cleaning.step(SyncEvent::FetchFinished(Ok(())));
    assert_eq!(state, SyncState::Cleaning);
    let done = SyncState::Done(SyncOutcome::Cloned).step(SyncEvent::Cleaned(Ok(())));
    assert_eq!(expect_done(done), SyncOutcome::Cloned);
}

#[test]
fn merge_decision_follows_the_fast_forward_only_policy() {
    for &branch_exists in &[false, true] {
        assert_eq!(
            merge_decision(false, MergeAnalysisKind::UpToDate, branch_exists),
            MergeAction::SkipBare
        );
        assert_eq!(
            merge_decision(false, MergeAnalysisKind::FastForward, branch_exists),
            MergeAction::SkipBare
        );
        assert_eq!(
            merge_decision(false, MergeAnalysisKind::Diverged, branch_exists),
            MergeAction::SkipBare
        );
        assert_eq!(
            merge_decision(true, MergeAnalysisKind::UpToDate, branch_exists),
            MergeAction::AlreadyUpToDate
        );
        assert_eq!(
            merge_decision(true, MergeAnalysisKind::Diverged, branch_exists),
            MergeAction::ReportUnmergeable
        );
    }
    assert_eq!(
        merge_decision(true, MergeAnalysisKind::FastForward, true),
        MergeAction::FastForwardExisting
    );
    assert_eq!(
        merge_decision(true, MergeAnalysisKind::FastForward, false),
        MergeAction::InitializeBranch
    );
}

#[test]
fn repository_merge_uses_its_own_capability() {
    let meta = test_repo();
    let bare = Repository { meta: meta.clone(), bare: true };
    assert_eq!(bare.merge(MergeAnalysisKind::FastForward, true), MergeAction::SkipBare);
    let worktree = Repository { meta, bare: false };
    assert_eq!(
        worktree.merge(MergeAnalysisKind::FastForward, true),
        MergeAction::FastForwardExisting
    );
}

#[test]
fn clone_repositories_sets_up_one_job_per_repository() {
    let repos = vec![
        RepositoryMetadata {
            name: String::from("Hello-World"),
            clone_url: String::from("https://github.com/octocat/Hello-World.git"),
            is_fork: false,
        },
        RepositoryMetadata {
            name: String::from("Spoon-Knife"),
            clone_url: String::from("https://github.com/octocat/Spoon-Knife.git"),
            is_fork: false,
        },
    ];
    let opts = Opts { bare: true, entity: String::from("octocat") };
    let jobs = clone_repositories("octocat", &repos, &opts);
    assert_eq!(jobs.len(), 2);
    assert_eq!(jobs[0].path, "octocat/Hello-World");
    assert_eq!(jobs[1].path, "octocat/Spoon-Knife");
    for (job, meta) in jobs.iter().zip(repos.iter()) {
        assert_eq!(&job.meta, meta);
        assert!(job.bare);
        assert_eq!(job.state, SyncState::Probing);
    }
}

#[test]
fn progress_tolerates_a_zero_total() {
    assert_eq!(progress_percentage(0, 0), 0);
    assert_eq!(progress_percentage(5, 0), 0);
}

#[test]
fn progress_percentage_is_exact() {
    assert_eq!(progress_percentage(0, 100), 0);
    assert_eq!(progress_percentage(50, 100), 50);
    assert_eq!(progress_percentage(1, 3), 33);
    assert_eq!(progress_percentage(2, 3), 66);
    assert_eq!(progress_percentage(100, 100), 100);
    assert_eq!(progress_percentage(7, 7), 100);
}

#[test]
fn failed_merge_analysis_is_a_merge_failure() {
    let meta = test_repo();
    let state = SyncState::Probing.step(SyncEvent::Probed(valid_match(&meta, false)));
    let state = state.step(SyncEvent::FetchFinished(Ok(())));
    let state = state.step(SyncEvent::MergeAnalyzed(Err(String::from("corrupt odb"))));
    match expect_done(state) {
        SyncOutcome::Failed(SyncError::MergeFailed(m)) => assert_eq!(m, "corrupt odb"),
        other => panic!("expected MergeFailed, got {:?}", other),
    }
}
