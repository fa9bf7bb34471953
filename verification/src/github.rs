//! Paginated discovery of an entity's repositories.
//!
//! Discovery lists every repository of a GitHub user or organization. The
//! entity is first tried as an individual account; if any page of that
//! attempt fails, the whole attempt is restarted treating the entity as an
//! organization. Pages are requested sequentially, 1-indexed, with a fixed
//! page size; a page shorter than the page size is the last one. The caller
//! performs the HTTP requests and feeds each outcome into
//! [`DiscoveryState::step`], which decides whether to request another page,
//! to restart under the other namespace, to finish, or to fail.

use vstd::prelude::*;
use vstd::string::*;
use crate::repository::RepositoryMetadata;
use crate::repository::RepositoryMetadataView;

verus! {

/// Fixed number of entries requested per page.
pub const PAGE_SIZE: usize = 100;

/// The namespace a discovery attempt runs under.
#[derive(Debug, PartialEq, Eq, Clone, Copy)]
pub enum Namespace {
    User,
    Organization,
}

/// Why discovery failed as a whole.
#[derive(Debug, PartialEq, Eq, Clone, Copy)]
pub enum DiscoveryError {
    /// Both attempts failed and the last one was answered 404: the entity
    /// does not exist under either namespace.
    InvalidEntity,
    /// A transport error on the last attempt.
    Network,
    /// A page of the last attempt did not decode as a repository list.
    Decode,
    /// An unexpected HTTP status on the last attempt.
    Unknown,
}

/// The outcome of one page request, as the caller observed it.
#[derive(Debug, PartialEq, Eq)]
pub enum PageEvent {
    /// Status 200 and a decoded repository list.
    Repos(Vec<RepositoryMetadata>),
    /// Status 404.
    NotFound,
    /// Any other HTTP status.
    BadStatus,
    /// The request itself failed.
    NetworkFailure,
    /// Status 200, but the body did not decode.
    DecodeFailure,
}

/// Mathematical model of `PageEvent`.
#[verifier::ext_equal]
pub enum PageEventView {
    Repos(Seq<RepositoryMetadataView>),
    NotFound,
    BadStatus,
    NetworkFailure,
    DecodeFailure,
}

impl View for PageEvent {
    type V = PageEventView;

    open spec fn view(&self) -> PageEventView {
        match self {
            PageEvent::Repos(page) => PageEventView::Repos(page.deep_view()),
            PageEvent::NotFound => PageEventView::NotFound,
            PageEvent::BadStatus => PageEventView::BadStatus,
            PageEvent::NetworkFailure => PageEventView::NetworkFailure,
            PageEvent::DecodeFailure => PageEventView::DecodeFailure,
        }
    }
}

/// An in-progress discovery: the entity, the namespace of the current
/// attempt, the next page to request (1-indexed), and the entries merged
/// so far, in discovery order.
#[derive(Debug, PartialEq, Eq)]
pub struct DiscoveryState {
    pub entity: String,
    pub namespace: Namespace,
    pub page: usize,
    pub collected: Vec<RepositoryMetadata>,
}

/// Mathematical model of `DiscoveryState`.
#[verifier::ext_equal]
pub struct DiscoveryStateView {
    pub entity: Seq<char>,
    pub namespace: Namespace,
    pub page: nat,
    pub collected: Seq<RepositoryMetadataView>,
}

impl View for DiscoveryState {
    type V = DiscoveryStateView;

    open spec fn view(&self) -> DiscoveryStateView {
        DiscoveryStateView {
            entity: self.entity@,
            namespace: self.namespace,
            page: self.page as nat,
            collected: self.collected.deep_view(),
        }
    }
}

/// Where a discovery stands after a step: still requesting pages, finished
/// with the merged list, or failed.
#[derive(Debug, PartialEq, Eq)]
pub enum DiscoveryStatus {
    InProgress(DiscoveryState),
    Done(Vec<RepositoryMetadata>),
    Failed(DiscoveryError),
}

/// Mathematical model of `DiscoveryStatus`.
#[verifier::ext_equal]
pub enum DiscoveryStatusView {
    InProgress(DiscoveryStateView),
    Done(Seq<RepositoryMetadataView>),
    Failed(DiscoveryError),
}

impl View for DiscoveryStatus {
    type V = DiscoveryStatusView;

    open spec fn view(&self) -> DiscoveryStatusView {
        match self {
            DiscoveryStatus::InProgress(s) => DiscoveryStatusView::InProgress(s@),
            DiscoveryStatus::Done(l) => DiscoveryStatusView::Done(l.deep_view()),
            DiscoveryStatus::Failed(e) => DiscoveryStatusView::Failed(*e),
        }
    }
}

/// The state a discovery of `entity` begins in: first page of the
/// individual-account attempt, nothing collected.
pub open spec fn spec_start(entity: Seq<char>) -> DiscoveryStateView {
    DiscoveryStateView {
        entity,
        namespace: Namespace::User,
        page: 1,
        collected: Seq::<RepositoryMetadataView>::empty(),
    }
}

/// The state the fallback attempt begins in: same entity, organization
/// namespace, first page, nothing kept from the failed attempt.
pub open spec fn spec_org_restart(entity: Seq<char>) -> DiscoveryStateView {
    DiscoveryStateView {
        entity,
        namespace: Namespace::Organization,
        page: 1,
        collected: Seq::<RepositoryMetadataView>::empty(),
    }
}

/// The discovery error a failing page outcome maps to when it ends the
/// last attempt.
pub open spec fn spec_error_for(e: PageEventView) -> DiscoveryError {
    match e {
        PageEventView::NotFound => DiscoveryError::InvalidEntity,
        PageEventView::NetworkFailure => DiscoveryError::Network,
        PageEventView::DecodeFailure => DiscoveryError::Decode,
        PageEventView::BadStatus => DiscoveryError::Unknown,
        PageEventView::Repos(_) => DiscoveryError::Unknown,
    }
}

/// One transition of the discovery machine.
///
/// A full page is appended and the next page requested; a short page is
/// appended and finishes the discovery with everything merged, in order.
/// Any failure during the individual-account attempt restarts discovery
/// as an organization; a failure during the organization attempt fails
/// the discovery with the error the outcome maps to.
pub open spec fn spec_step(s: DiscoveryStateView, e: PageEventView) -> DiscoveryStatusView {
    match e {
        PageEventView::Repos(page) => if page.len() == PAGE_SIZE {
            DiscoveryStatusView::InProgress(
                DiscoveryStateView {
                    entity: s.entity,
                    namespace: s.namespace,
                    page: s.page + 1,
                    collected: s.collected + page,
                },
            )
        } else {
            DiscoveryStatusView::Done(s.collected + page)
        },
        _ => match s.namespace {
            Namespace::User => DiscoveryStatusView::InProgress(spec_org_restart(s.entity)),
            Namespace::Organization => DiscoveryStatusView::Failed(spec_error_for(e)),
        },
    }
}

/// The predicate the fork filter keeps entries by.
pub open spec fn spec_keeps_entry() -> spec_fn(RepositoryMetadataView) -> bool {
    |m: RepositoryMetadataView| !m.is_fork
}

/// The fork filter applied to a finished list: a pure post-filter that
/// keeps the order and, when enabled, drops exactly the forks.
pub open spec fn spec_filter_forks(l: Seq<RepositoryMetadataView>, filter: bool) -> Seq<
    RepositoryMetadataView,
> {
    if filter {
        l.filter(spec_keeps_entry())
    } else {
        l
    }
}

impl DiscoveryState {
    /// Begin discovering the repositories of `entity`.
    pub fn start(entity: String) -> (s: DiscoveryState)
        ensures
            s@ == spec_start(entity@),
    {
        let s = DiscoveryState {
            entity,
            namespace: Namespace::User,
            page: 1,
            collected: Vec::new(),
        };
        proof {
            assert(s@ =~= spec_start(s.entity@));
        }
        s
    }

    /// Consume the outcome of the page request this state asked for and
    /// move to the next state.
    pub fn step(self, event: PageEvent) -> (r: DiscoveryStatus)
        requires
            self.page < usize::MAX,
        ensures
            r@ == spec_step(self@, event@),
    {
        let ghost prior = self.collected.deep_view();
        match event {
            PageEvent::Repos(mut page) => {
                let ghost page_deep = page.deep_view();
                let full = page.len() == PAGE_SIZE;
                let mut collected = self.collected;
                collected.append(&mut page);
                proof {
                    assert(collected.deep_view() =~= prior + page_deep);
                }
                if full {
                    let next = DiscoveryState {
                        entity: self.entity,
                        namespace: self.namespace,
                        page: self.page + 1,
                        collected,
                    };
                    proof {
                        assert(next@ =~= spec_step(self@, PageEventView::Repos(page_deep))->InProgress_0);
                    }
                    DiscoveryStatus::InProgress(next)
                } else {
                    DiscoveryStatus::Done(collected)
                }
            },
            other => match self.namespace {
                Namespace::User => {
                    let restart = DiscoveryState {
                        entity: self.entity,
                        namespace: Namespace::Organization,
                        page: 1,
                        collected: Vec::new(),
                    };
                    proof {
                        assert(restart@ =~= spec_org_restart(restart.entity@));
                    }
                    DiscoveryStatus::InProgress(restart)
                },
                Namespace::Organization => DiscoveryStatus::Failed(error_for(&other)),
            },
        }
    }
}

/// The error a failing page outcome carries when it ends the last attempt.
pub fn error_for(event: &PageEvent) -> (e: DiscoveryError)
    ensures
        e == spec_error_for(event@),
{
    match event {
        PageEvent::NotFound => DiscoveryError::InvalidEntity,
        PageEvent::NetworkFailure => DiscoveryError::Network,
        PageEvent::DecodeFailure => DiscoveryError::Decode,
        PageEvent::BadStatus => DiscoveryError::Unknown,
        PageEvent::Repos(_) => DiscoveryError::Unknown,
    }
}

/// Drop the forks from a finished list when `filter` is set; keep the
/// list as it is otherwise. The order of the kept entries is preserved.
pub fn filter_forks(repos: Vec<RepositoryMetadata>, filter: bool) -> (r: Vec<RepositoryMetadata>)
    ensures
        r.deep_view() == spec_filter_forks(repos.deep_view(), filter),
{
    if !filter {
        return repos;
    }
    let ghost dv = repos.deep_view();
    let mut kept: Vec<RepositoryMetadata> = Vec::new();
    let mut i: usize = 0;
    proof {
        reveal(Seq::filter);
        assert(dv.subrange(0, 0) =~= Seq::<RepositoryMetadataView>::empty());
        assert(kept.deep_view() =~= Seq::<RepositoryMetadataView>::empty());
    }
    while i < repos.len()
        invariant
            i <= repos.len(),
            dv == repos.deep_view(),
            kept.deep_view() == dv.subrange(0, i as int).filter(spec_keeps_entry()),
        decreases repos.len() - i,
    {
        let ghost kept_before = kept.deep_view();
        if !repos[i].is_fork {
            kept.push(repos[i].clone());
        }
        proof {
            reveal(Seq::filter);
            let sub = dv.subrange(0, i + 1);
            assert(sub.len() == i + 1);
            assert(sub.drop_last() =~= dv.subrange(0, i as int));
            assert(sub.last() == dv[i as int]);
            assert(dv[i as int] == repos@[i as int]@);
            assert(spec_keeps_entry()(sub.last()) == !sub.last().is_fork);
            if !repos@[i as int]@.is_fork {
                assert(spec_keeps_entry()(sub.last()));
                assert(sub.filter(spec_keeps_entry()) == sub.drop_last().filter(spec_keeps_entry()).push(sub.last()));
                assert(kept.deep_view() =~= kept_before.push(dv[i as int]));
            } else {
                assert(!spec_keeps_entry()(sub.last()));
                assert(sub.filter(spec_keeps_entry()) == sub.drop_last().filter(spec_keeps_entry()));
                assert(kept.deep_view() =~= kept_before);
            }
        }
        i = i + 1;
    }
    proof {
        assert(dv.subrange(0, dv.len() as int) =~= dv);
    }
    kept
}

/// The character for one decimal digit.
pub open spec fn spec_digit_char(d: nat) -> char {
    if d == 0 {
        '0'
    } else if d == 1 {
        '1'
    } else if d == 2 {
        '2'
    } else if d == 3 {
        '3'
    } else if d == 4 {
        '4'
    } else if d == 5 {
        '5'
    } else if d == 6 {
        '6'
    } else if d == 7 {
        '7'
    } else if d == 8 {
        '8'
    } else {
        '9'
    }
}

/// The decimal digits of `n`, most significant first, no leading zeros
/// (a single `'0'` for zero).
pub open spec fn spec_decimal(n: nat) -> Seq<char>
    decreases n,
{
    if n < 10 {
        seq![spec_digit_char(n)]
    } else {
        spec_decimal(n / 10).push(spec_digit_char(n % 10))
    }
}

/// The one-character string for a decimal digit.
fn digit_str(d: usize) -> (s: &'static str)
    requires
        d < 10,
    ensures
        s@ == seq![spec_digit_char(d as nat)],
{
    proof {
        reveal_strlit("0");
        reveal_strlit("1");
        reveal_strlit("2");
        reveal_strlit("3");
        reveal_strlit("4");
        reveal_strlit("5");
        reveal_strlit("6");
        reveal_strlit("7");
        reveal_strlit("8");
        reveal_strlit("9");
    }
    match d {
        0 => "0",
        1 => "1",
        2 => "2",
        3 => "3",
        4 => "4",
        5 => "5",
        6 => "6",
        7 => "7",
        8 => "8",
        _ => "9",
    }
}

/// `n` written in decimal.
pub fn usize_decimal(n: usize) -> (s: String)
    ensures
        s@ == spec_decimal(n as nat),
    decreases n,
{
    if n < 10 {
        String::from_str(digit_str(n))
    } else {
        let mut s = usize_decimal(n / 10);
        s.append(digit_str(n % 10));
        proof {
            assert(s@ =~= spec_decimal((n / 10) as nat).push(spec_digit_char((n % 10) as nat)));
        }
        s
    }
}

/// The path segment a namespace is listed under by the API.
pub open spec fn spec_namespace_segment(ns: Namespace) -> Seq<char> {
    match ns {
        Namespace::User => "users"@,
        Namespace::Organization => "orgs"@,
    }
}

/// The URL of one page request: the list-repositories endpoint of the
/// current namespace, with the fixed page size and the 1-indexed page.
pub open spec fn spec_page_url(s: DiscoveryStateView) -> Seq<char> {
    "https://api.github.com/"@ + spec_namespace_segment(s.namespace) + "/"@ + s.entity
        + "/repos?per_page="@ + spec_decimal(PAGE_SIZE as nat) + "&page="@ + spec_decimal(s.page)
}

impl DiscoveryState {
    /// The URL this state's next page request goes to.
    pub fn page_url(&self) -> (u: String)
        ensures
            u@ == spec_page_url(self@),
    {
        let mut u = String::from_str("https://api.github.com/");
        match self.namespace {
            Namespace::User => u.append("users"),
            Namespace::Organization => u.append("orgs"),
        }
        u.append("/");
        u.append(self.entity.as_str());
        u.append("/repos?per_page=");
        let size = usize_decimal(PAGE_SIZE);
        u.append(size.as_str());
        u.append("&page=");
        let page = usize_decimal(self.page);
        u.append(page.as_str());
        proof {
            assert(u@ =~= spec_page_url(self@));
        }
        u
    }
}

/// Every entry of `l` is well-formed for `entity`.
pub open spec fn all_wf(l: Seq<RepositoryMetadataView>, entity: Seq<char>) -> bool {
    forall|i: int| 0 <= i < l.len() ==> (#[trigger] l[i]).wf(entity)
}

/// A page outcome only carries well-formed entries for `entity`.
pub open spec fn event_wf(e: PageEventView, entity: Seq<char>) -> bool {
    e matches PageEventView::Repos(page) ==> all_wf(page, entity)
}

/// Every page outcome in `events` only carries well-formed entries.
pub open spec fn events_wf(events: Seq<PageEventView>, entity: Seq<char>) -> bool {
    forall|i: int| 0 <= i < events.len() ==> event_wf(#[trigger] events[i], entity)
}

/// A whole discovery: feed the outcomes in `events` to the machine one by
/// one, until it finishes, fails, or runs out of outcomes.
pub open spec fn spec_run(s: DiscoveryStateView, events: Seq<PageEventView>) -> DiscoveryStatusView
    decreases events.len(),
{
    if events.len() == 0 {
        DiscoveryStatusView::InProgress(s)
    } else {
        match spec_step(s, events[0]) {
            DiscoveryStatusView::InProgress(s2) => spec_run(s2, events.drop_first()),
            r => r,
        }
    }
}

/// Everything the pages in `events` reported, in order.
pub open spec fn spec_pages_total(events: Seq<PageEventView>) -> Seq<RepositoryMetadataView>
    decreases events.len(),
{
    if events.len() == 0 {
        Seq::<RepositoryMetadataView>::empty()
    } else {
        (match events[0] {
            PageEventView::Repos(page) => page,
            _ => Seq::<RepositoryMetadataView>::empty(),
        }) + spec_pages_total(events.drop_first())
    }
}

/// The outcomes of one complete, successful sequence of page requests:
/// every page arrived, each page before the last was full, and the last
/// was short.
pub open spec fn proper_page_sequence(events: Seq<PageEventView>) -> bool {
    &&& events.len() > 0
    &&& forall|i: int| 0 <= i < events.len() ==> (#[trigger] events[i]) is Repos
    &&& forall|i: int|
        0 <= i < events.len() - 1 ==> (#[trigger] events[i])->Repos_0.len() == PAGE_SIZE
    &&& events[events.len() - 1]->Repos_0.len() != PAGE_SIZE
}

/// One step keeps discovery well-formed: the entity never changes while
/// discovery is in progress, and the merged entries stay well-formed as
/// long as the pages' entries were.
pub proof fn lemma_step_preserves_wf(s: DiscoveryStateView, e: PageEventView)
    requires
        all_wf(s.collected, s.entity),
        event_wf(e, s.entity),
    ensures
        spec_step(s, e) matches DiscoveryStatusView::InProgress(s2) ==> s2.entity == s.entity
            && all_wf(s2.collected, s2.entity),
        spec_step(s, e) matches DiscoveryStatusView::Done(l) ==> all_wf(l, s.entity),
{
    match e {
        PageEventView::Repos(page) => {
            let joined = s.collected + page;
            assert forall|j: int| 0 <= j < joined.len() implies (#[trigger] joined[j]).wf(
                s.entity,
            ) by {
                if j < s.collected.len() {
                    assert(joined[j] == s.collected[j]);
                } else {
                    assert(joined[j] == page[j - s.collected.len()]);
                }
            }
        },
        _ => {},
    }
}

/// Every repository a completed discovery returns came from one of the
/// pages, so as long as the API reports well-formed metadata — a non-empty
/// name, and a clone URL that embeds the entity and the name and ends in
/// `.git` — the returned list holds only such entries.
pub proof fn lemma_run_returns_wf(s: DiscoveryStateView, events: Seq<PageEventView>)
    requires
        all_wf(s.collected, s.entity),
        events_wf(events, s.entity),
    ensures
        spec_run(s, events) matches DiscoveryStatusView::Done(l) ==> all_wf(l, s.entity),
    decreases events.len(),
{
    if events.len() > 0 {
        lemma_step_preserves_wf(s, events[0]);
        match spec_step(s, events[0]) {
            DiscoveryStatusView::InProgress(s2) => {
                let rest = events.drop_first();
                assert forall|i: int| 0 <= i < rest.len() implies event_wf(
                    #[trigger] rest[i],
                    s2.entity,
                ) by {
                    assert(rest[i] == events[i + 1]);
                }
                lemma_run_returns_wf(s2, rest);
            },
            _ => {},
        }
    }
}

/// Pagination merges every page: a discovery fed one complete, successful
/// sequence of page outcomes finishes, and returns everything already
/// collected followed by every entry of every page, in order.
pub proof fn lemma_run_merges_pages(s: DiscoveryStateView, events: Seq<PageEventView>)
    requires
        proper_page_sequence(events),
    ensures
        spec_run(s, events) == DiscoveryStatusView::Done(s.collected + spec_pages_total(events)),
    decreases events.len(),
{
    let page = events[0]->Repos_0;
    if events.len() == 1 {
        assert(events[0] is Repos && page.len() != PAGE_SIZE);
        assert(spec_pages_total(events.drop_first()) == Seq::<RepositoryMetadataView>::empty());
        assert(s.collected + spec_pages_total(events) =~= s.collected + page);
    } else {
        assert(page.len() == PAGE_SIZE);
        let s2 = DiscoveryStateView {
            entity: s.entity,
            namespace: s.namespace,
            page: s.page + 1,
            collected: s.collected + page,
        };
        assert(spec_step(s, events[0]) == DiscoveryStatusView::InProgress(s2));
        let rest = events.drop_first();
        assert forall|i: int| 0 <= i < rest.len() implies (#[trigger] rest[i]) is Repos by {
            assert(rest[i] == events[i + 1]);
        }
        assert forall|i: int| 0 <= i < rest.len() - 1 implies (#[trigger] rest[i])->Repos_0.len()
            == PAGE_SIZE by {
            assert(rest[i] == events[i + 1]);
        }
        assert(rest[rest.len() - 1] == events[events.len() - 1]);
        lemma_run_merges_pages(s2, rest);
        assert(s2.collected + spec_pages_total(rest) =~= s.collected + (page + spec_pages_total(
            rest,
        )));
        assert(spec_pages_total(events) == page + spec_pages_total(rest));
    }
}

/// An entity with at least one repository is discovered as a non-empty
/// list: when the pages of a complete discovery report at least one entry,
/// the returned list has at least one entry.
pub proof fn lemma_discovery_nonempty(entity: Seq<char>, events: Seq<PageEventView>)
    requires
        proper_page_sequence(events),
        spec_pages_total(events).len() > 0,
    ensures
        spec_run(spec_start(entity), events) matches DiscoveryStatusView::Done(l) && l.len() > 0,
{
    lemma_run_merges_pages(spec_start(entity), events);
}

/// The fork filter keeps exactly the non-fork entries: a repository is in
/// the filtered list if and only if it was discovered and is not a fork;
/// with filtering off the list is returned as it is.
pub proof fn lemma_filter_forks_membership(l: Seq<RepositoryMetadataView>, m: RepositoryMetadataView)
    ensures
        spec_filter_forks(l, true).contains(m) <==> (l.contains(m) && !m.is_fork),
        spec_filter_forks(l, false) == l,
{
    let pred = spec_keeps_entry();
    if l.contains(m) && !m.is_fork {
        let i = choose|i: int| 0 <= i < l.len() && l[i] == m;
        assert(pred(l[i]));
        l.lemma_filter_contains(pred, i);
    }
    if l.filter(pred).contains(m) {
        l.lemma_filter_contains_rev(pred, m);
        let j = choose|j: int| 0 <= j < l.filter(pred).len() && l.filter(pred)[j] == m;
        l.lemma_filter_pred(pred, j);
    }
}

/// The fork filter never invents entries: whatever list discovery
/// returned, the filtered list holds only entries of it, so it stays
/// well-formed for the same entity.
pub proof fn lemma_filter_forks_preserves_wf(
    l: Seq<RepositoryMetadataView>,
    entity: Seq<char>,
    filter: bool,
)
    requires
        all_wf(l, entity),
    ensures
        all_wf(spec_filter_forks(l, filter), entity),
{
    let kept = spec_filter_forks(l, filter);
    assert forall|i: int| 0 <= i < kept.len() implies (#[trigger] kept[i]).wf(entity) by {
        if filter {
            let pred = spec_keeps_entry();
            assert(l.filter(pred).contains(kept[i]));
            l.lemma_filter_contains_rev(pred, kept[i]);
            let j = choose|j: int| 0 <= j < l.len() && l[j] == kept[i];
            assert(l[j].wf(entity));
        }
    }
}

/// What a whole discovery hands to the sync engine: the completed run's
/// list with the fork filter applied. Whenever every page held only
/// well-formed metadata for the entity, so does that final list.
pub proof fn lemma_discovered_list_wf(
    entity: Seq<char>,
    events: Seq<PageEventView>,
    filter: bool,
)
    requires
        events_wf(events, entity),
    ensures
        spec_run(spec_start(entity), events) matches DiscoveryStatusView::Done(l) ==> all_wf(
            spec_filter_forks(l, filter),
            entity,
        ),
{
    lemma_run_returns_wf(spec_start(entity), events);
    match spec_run(spec_start(entity), events) {
        DiscoveryStatusView::Done(l) => {
            lemma_filter_forks_preserves_wf(l, entity, filter);
        },
        _ => {},
    }
}

/// Discovery of a nonexistent entity: when the request is answered 404
/// both as a user and, after the fallback, as an organization, discovery
/// fails with `InvalidEntity`.
pub proof fn lemma_nonexistent_entity(entity: Seq<char>)
    ensures
        spec_run(
            spec_start(entity),
            seq![PageEventView::NotFound, PageEventView::NotFound],
        ) == DiscoveryStatusView::Failed(DiscoveryError::InvalidEntity),
{
    let events = seq![PageEventView::NotFound, PageEventView::NotFound];
    let fallback = spec_org_restart(entity);
    let rest = events.drop_first();
    assert(rest =~= seq![PageEventView::NotFound]);
    assert(spec_step(spec_start(entity), events[0]) == DiscoveryStatusView::InProgress(fallback));
    assert(spec_step(fallback, rest[0]) == DiscoveryStatusView::Failed(
        DiscoveryError::InvalidEntity,
    ));
    assert(spec_run(fallback, rest) == DiscoveryStatusView::Failed(DiscoveryError::InvalidEntity));
    assert(spec_run(spec_start(entity), events) == spec_run(fallback, rest));
}

} // verus!
