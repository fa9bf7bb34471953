//! Repository metadata and the local-copy prober.
//!
//! `RepositoryMetadata` is the immutable description of a remote repository
//! that discovery hands to the sync engine. The prober decides whether a
//! filesystem path already holds a matching mirror. The caller observes the
//! path (does it exist, does it open as a repository, what is the URL of its
//! `origin` remote) and passes the observation in as a `LocalProbe`; the
//! verdict computed here — not mere existence of the path — is what the sync
//! engine switches on.

use vstd::prelude::*;
use vstd::string::*;

verus! {

/// Immutable description of a remote repository, as the discovery API
/// reports it.
#[derive(Debug, PartialEq, Eq)]
pub struct RepositoryMetadata {
    pub name: String,
    pub clone_url: String,
    pub is_fork: bool,
}

/// Mathematical model of `RepositoryMetadata`.
#[verifier::ext_equal]
pub struct RepositoryMetadataView {
    pub name: Seq<char>,
    pub clone_url: Seq<char>,
    pub is_fork: bool,
}

impl View for RepositoryMetadata {
    type V = RepositoryMetadataView;

    open spec fn view(&self) -> RepositoryMetadataView {
        RepositoryMetadataView {
            name: self.name@,
            clone_url: self.clone_url@,
            is_fork: self.is_fork,
        }
    }
}

impl DeepView for RepositoryMetadata {
    type V = RepositoryMetadataView;

    open spec fn deep_view(&self) -> RepositoryMetadataView {
        self.view()
    }
}

impl Clone for RepositoryMetadata {
    fn clone(&self) -> (r: Self)
        ensures
            r == *self,
    {
        RepositoryMetadata {
            name: self.name.clone(),
            clone_url: self.clone_url.clone(),
            is_fork: self.is_fork,
        }
    }
}

/// `needle` occurs somewhere in `haystack`.
pub open spec fn contains_seq(haystack: Seq<char>, needle: Seq<char>) -> bool {
    exists|i: int|
        0 <= i && i + needle.len() <= haystack.len() && #[trigger] haystack.subrange(
            i,
            i + needle.len(),
        ) == needle
}

/// `s` ends with `suffix`.
pub open spec fn ends_with(s: Seq<char>, suffix: Seq<char>) -> bool {
    s.len() >= suffix.len() && s.subrange(s.len() - suffix.len(), s.len() as int) == suffix
}

impl RepositoryMetadataView {
    /// Well-formedness of metadata relative to the entity that owns it:
    /// a non-empty name, and a clone URL that embeds both the entity and
    /// the repository name and ends in the `.git` suffix.
    pub open spec fn wf(self, entity: Seq<char>) -> bool {
        &&& self.name.len() > 0
        &&& contains_seq(self.clone_url, entity)
        &&& contains_seq(self.clone_url, self.name)
        &&& ends_with(self.clone_url, ".git"@)
    }
}

/// What the caller observed about a filesystem path: whether it exists,
/// whether it opens as a repository, the URL of its `origin` remote (if
/// any), and whether the opened repository is bare. The last two fields
/// are meaningful only when the path opened as a repository.
pub struct LocalProbe {
    pub exists: bool,
    pub opens_as_repository: bool,
    pub origin_url: Option<String>,
    pub bare: bool,
}

/// Mathematical model of `LocalProbe`.
#[verifier::ext_equal]
pub struct LocalProbeView {
    pub exists: bool,
    pub opens_as_repository: bool,
    pub origin_url: Option<Seq<char>>,
    pub bare: bool,
}

impl View for LocalProbe {
    type V = LocalProbeView;

    open spec fn view(&self) -> LocalProbeView {
        LocalProbeView {
            exists: self.exists,
            opens_as_repository: self.opens_as_repository,
            origin_url: self.origin_url.deep_view(),
            bare: self.bare,
        }
    }
}

/// Why a path that exists is not a valid mirror.
#[derive(Debug, PartialEq, Eq, Clone, Copy)]
pub enum LocalOpenError {
    /// The path does not open as a repository.
    NotARepository,
    /// The repository has no `origin` remote.
    MissingRemote,
    /// The `origin` remote's URL differs from the metadata's clone URL.
    UrlMismatch,
}

/// A local repository handle, bound to the metadata it mirrors. The caller
/// only ever obtains one through a probe whose observation matched the
/// metadata, or after a successful clone of it.
#[derive(Debug, PartialEq, Eq)]
pub struct Repository {
    pub meta: RepositoryMetadata,
    pub bare: bool,
}

/// Mathematical model of `Repository`.
#[verifier::ext_equal]
pub struct RepositoryView {
    pub meta: RepositoryMetadataView,
    pub bare: bool,
}

impl View for Repository {
    type V = RepositoryView;

    open spec fn view(&self) -> RepositoryView {
        RepositoryView { meta: self.meta@, bare: self.bare }
    }
}

/// The prober's verdict on a filesystem path.
#[derive(Debug, PartialEq, Eq)]
pub enum ValidityVerdict {
    /// The path does not exist.
    Absent,
    /// The path exists but is not a matching mirror.
    Invalid(LocalOpenError),
    /// The path holds a valid mirror of the metadata; the handle is bound
    /// to that metadata.
    ValidMatch(Repository),
}

/// Mathematical model of `ValidityVerdict`.
#[verifier::ext_equal]
pub enum ValidityVerdictView {
    Absent,
    Invalid(LocalOpenError),
    ValidMatch(RepositoryView),
}

impl View for ValidityVerdict {
    type V = ValidityVerdictView;

    open spec fn view(&self) -> ValidityVerdictView {
        match self {
            ValidityVerdict::Absent => ValidityVerdictView::Absent,
            ValidityVerdict::Invalid(e) => ValidityVerdictView::Invalid(*e),
            ValidityVerdict::ValidMatch(r) => ValidityVerdictView::ValidMatch(r@),
        }
    }
}

/// The verdict that an observation of a path warrants for the given
/// metadata: absent paths are re-clone targets, existing paths are valid
/// only when they open as a repository whose `origin` remote URL equals
/// the metadata's clone URL.
pub open spec fn spec_probe(meta: RepositoryMetadataView, probe: LocalProbeView) -> ValidityVerdictView {
    if !probe.exists {
        ValidityVerdictView::Absent
    } else if !probe.opens_as_repository {
        ValidityVerdictView::Invalid(LocalOpenError::NotARepository)
    } else {
        match probe.origin_url {
            Option::None => ValidityVerdictView::Invalid(LocalOpenError::MissingRemote),
            Option::Some(url) => if url == meta.clone_url {
                ValidityVerdictView::ValidMatch(RepositoryView { meta, bare: probe.bare })
            } else {
                ValidityVerdictView::Invalid(LocalOpenError::UrlMismatch)
            },
        }
    }
}

impl RepositoryMetadata {
    /// Decide whether `observation` shows a valid local mirror of this
    /// metadata, and if so hand out the bound handle.
    pub fn probe(&self, observation: &LocalProbe) -> (v: ValidityVerdict)
        ensures
            v@ == spec_probe(self@, observation@),
    {
        if !observation.exists {
            ValidityVerdict::Absent
        } else if !observation.opens_as_repository {
            ValidityVerdict::Invalid(LocalOpenError::NotARepository)
        } else {
            match &observation.origin_url {
                Option::None => ValidityVerdict::Invalid(LocalOpenError::MissingRemote),
                Option::Some(url) => {
                    if *url == self.clone_url {
                        ValidityVerdict::ValidMatch(
                            Repository { meta: self.clone(), bare: observation.bare },
                        )
                    } else {
                        ValidityVerdict::Invalid(LocalOpenError::UrlMismatch)
                    }
                },
            }
        }
    }

    /// `true` exactly when the observed path holds a valid mirror of this
    /// metadata.
    pub fn is_at_path(&self, observation: &LocalProbe) -> (r: bool)
        ensures
            r == (spec_probe(self@, observation@) is ValidMatch),
    {
        match self.probe(observation) {
            ValidityVerdict::ValidMatch(_) => true,
            _ => false,
        }
    }
}

impl Repository {
    /// Open a handle for `meta` from an observation of its path. Succeeds
    /// exactly when the observation shows a valid match; an absent path is
    /// reported as not holding a repository.
    pub fn open(meta: &RepositoryMetadata, observation: &LocalProbe) -> (r: Result<
        Repository,
        LocalOpenError,
    >)
        ensures
            (spec_probe(meta@, observation@) is ValidMatch) <==> r is Ok,
            spec_probe(meta@, observation@) matches ValidityVerdictView::ValidMatch(repo)
                ==> r matches Ok(handle) && handle@ == repo,
            spec_probe(meta@, observation@) matches ValidityVerdictView::Invalid(e)
                ==> r == Result::<Repository, LocalOpenError>::Err(e),
            spec_probe(meta@, observation@) is Absent ==> r == Result::<
                Repository,
                LocalOpenError,
            >::Err(LocalOpenError::NotARepository),
    {
        match meta.probe(observation) {
            ValidityVerdict::ValidMatch(handle) => Ok(handle),
            ValidityVerdict::Invalid(e) => Err(e),
            ValidityVerdict::Absent => Err(LocalOpenError::NotARepository),
        }
    }

    /// Capability check the merge logic switches on: a bare repository has
    /// no working tree to update.
    pub fn has_working_tree(&self) -> (r: bool)
        ensures
            r == !self.bare,
    {
        !self.bare
    }
}

/// Mirror layout: each repository lives at `{entity}/{name}` under the
/// working directory; the path doubles as the mirror's unique key.
pub fn mirror_path(entity: &str, name: &str) -> (p: String)
    ensures
        p@ == entity@ + "/"@ + name@,
{
    let mut p = String::from_str(entity);
    p.append("/");
    p.append(name);
    p
}

/// Cloning writes the clone URL as the `origin` remote, so probing a fresh
/// clone of `meta` — a path that exists, opens as a repository, and names
/// `meta.clone_url` as its origin — always yields a valid match whose
/// handle is bound to `meta`.
pub proof fn lemma_probe_after_clone(meta: RepositoryMetadataView, bare: bool)
    ensures
        spec_probe(
            meta,
            LocalProbeView {
                exists: true,
                opens_as_repository: true,
                origin_url: Some(meta.clone_url),
                bare,
            },
        ) == ValidityVerdictView::ValidMatch(RepositoryView { meta, bare }),
{
}

/// Removing the `origin` remote from a clone makes the same path probe as
/// invalid, with the missing remote reported as the reason.
pub proof fn lemma_probe_without_origin(meta: RepositoryMetadataView, bare: bool)
    ensures
        spec_probe(
            meta,
            LocalProbeView {
                exists: true,
                opens_as_repository: true,
                origin_url: None,
                bare,
            },
        ) == ValidityVerdictView::Invalid(LocalOpenError::MissingRemote),
{
}

} // verus!
