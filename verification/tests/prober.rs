use github_clone_org::repository::{
    mirror_path, LocalOpenError, LocalProbe, Repository, RepositoryMetadata, ValidityVerdict,
};

fn test_repo() -> RepositoryMetadata {
    RepositoryMetadata {
        name: String::from("Hello-World"),
        clone_url: String::from("https://github.com/octocat/Hello-World.git"),
        is_fork: false,
    }
}

fn fresh_clone_observation(meta: &RepositoryMetadata, bare: bool) -> LocalProbe {
    LocalProbe {
        exists: true,
        opens_as_repository: true,
        origin_url: Some(meta.clone_url.clone()),
        bare,
    }
}

#[test]
fn newly_cloned_repo() {
    let meta = test_repo();
    let observation = fresh_clone_observation(&meta, false);
    assert!(meta.is_at_path(&observation));
}

#[test]
fn no_remote() {
    let meta = test_repo();
    let observation = LocalProbe {
        exists: true,
        opens_as_repository: true,
        origin_url: None,
        bare: false,
    };
    assert_eq!(meta.is_at_path(&observation), false);
    match meta.probe(&observation) {
        ValidityVerdict::Invalid(e) => assert_eq!(e, LocalOpenError::MissingRemote),
        other => panic!("expected Invalid, got {:?}", other),
    }
}

#[test]
fn empty_dir_is_not_repo() {
    let meta = test_repo();
    let observation = LocalProbe {
        exists: false,
        opens_as_repository: false,
        origin_url: None,
        bare: false,
    };
    assert!(!meta.is_at_path(&observation));
    assert!(matches!(meta.probe(&observation), ValidityVerdict::Absent));
}

#[test]
fn bare() {
    let meta = test_repo();
    let observation = fresh_clone_observation(&meta, true);
    assert!(meta.is_at_path(&observation));
    match meta.probe(&observation) {
        ValidityVerdict::ValidMatch(repo) => {
            assert_eq!(repo.meta, meta);
            assert!(!repo.has_working_tree());
        }
        other => panic!("expected ValidMatch, got {:?}", other),
    }
}

#[test]
fn probe_round_trip_binds_handle_to_metadata() {
    let meta = test_repo();
    let observation = fresh_clone_observation(&meta, false);
    match meta.probe(&observation) {
        ValidityVerdict::ValidMatch(repo) => {
            assert_eq!(repo.meta.clone_url, meta.clone_url);
            assert_eq!(repo.meta.name, meta.name);
            assert!(repo.has_working_tree());
        }
        other => panic!("expected ValidMatch, got {:?}", other),
    }
}

#[test]
fn path_that_does_not_open_is_invalid() {
    let meta = test_repo();
    let observation = LocalProbe {
        exists: true,
        opens_as_repository: false,
        origin_url: None,
        bare: false,
    };
    match meta.probe(&observation) {
        ValidityVerdict::Invalid(e) => assert_eq!(e, LocalOpenError::NotARepository),
        other => panic!("expected Invalid, got {:?}", other),
    }
}

#[test]
fn foreign_origin_is_a_mismatch() {
    let meta = test_repo();
    let observation = LocalProbe {
        exists: true,
        opens_as_repository: true,
        origin_url: Some(String::from("https://github.com/octocat/Spoon-Knife.git")),
        bare: false,
    };
    match meta.probe(&observation) {
        ValidityVerdict::Invalid(e) => assert_eq!(e, LocalOpenError::UrlMismatch),
        other => panic!("expected Invalid, got {:?}", other),
    }
}

#[test]
fn open_succeeds_exactly_on_a_valid_match() {
    let meta = test_repo();
    let valid = fresh_clone_observation(&meta, false);
    let handle = Repository::open(&meta, &valid);
    assert!(handle.is_ok());
    assert_eq!(handle.unwrap().meta, meta);

    let absent = LocalProbe {
        exists: false,
        opens_as_repository: false,
        origin_url: None,
        bare: false,
    };
    assert_eq!(Repository::open(&meta, &absent), Err(LocalOpenError::NotARepository));

    let no_remote = LocalProbe {
        exists: true,
        opens_as_repository: true,
        origin_url: None,
        bare: false,
    };
    assert_eq!(Repository::open(&meta, &no_remote), Err(LocalOpenError::MissingRemote));
}

#[test]
fn mirror_paths_are_keyed_by_entity_and_name() {
    assert_eq!(mirror_path("octocat", "Hello-World"), "octocat/Hello-World");
    assert_eq!(mirror_path("github", "linguist"), "github/linguist");
}
