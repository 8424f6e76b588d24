//! The crawl-resource lifecycle: idempotent creation, start with a
//! bounded conflict-retry policy, and unbounded polling to a terminal
//! state. The decisions live here, fully verified; the surrounding
//! process performs the remote calls and feeds the responses back in.

use vstd::prelude::*;

use crate::strutil::str_eq;

verus! {

/// Seconds waited between successive crawler polls and between start
/// retries.
pub const DELAY_SECONDS: u64 = 10;

/// Conflicting start requests are retried this many times; one more
/// conflict after that is fatal.
pub const MAX_START_RETRIES: usize = 20;

/// How long the orchestrator waits between crawler requests, in seconds.
pub fn delay_time() -> (r: u64)
    ensures
        r == DELAY_SECONDS,
{
    DELAY_SECONDS
}

/// A crawl resource's reported state. Anything outside the three known
/// state strings is `Other`, which the poll loop treats as fatal.
#[derive(Clone, Copy, Debug, PartialEq, Eq, Structural)]
pub enum CrawlState {
    Ready,
    Running,
    Stopping,
    Other,
}

/// Which `CrawlState` a reported state string denotes.
pub open spec fn crawl_state_of(s: Seq<char>) -> CrawlState {
    if s == "READY"@ {
        CrawlState::Ready
    } else if s == "RUNNING"@ {
        CrawlState::Running
    } else if s == "STOPPING"@ {
        CrawlState::Stopping
    } else {
        CrawlState::Other
    }
}

/// Classifies a reported state string.
pub fn classify_crawler_state(s: &str) -> (r: CrawlState)
    ensures
        r == crawl_state_of(s@),
{
    if str_eq(s, "READY") {
        CrawlState::Ready
    } else if str_eq(s, "RUNNING") {
        CrawlState::Running
    } else if str_eq(s, "STOPPING") {
        CrawlState::Stopping
    } else {
        CrawlState::Other
    }
}

/// One answer to a poll of the resource.
#[derive(Clone, Copy, Debug, PartialEq, Eq, Structural)]
pub enum PollObservation {
    /// The resource was found in the given state.
    State(CrawlState),
    /// The service answered but reported no such resource.
    Missing,
    /// The poll itself failed.
    FetchFailed,
}

/// What the poll loop does with one observation.
#[derive(Clone, Copy, Debug, PartialEq, Eq, Structural)]
pub enum PollDecision {
    /// Keep waiting: the crawl is still running or stopping.
    Wait,
    /// The resource is ready again: the crawl finished.
    Done,
    /// An unexpected state or a failed poll: never silently retried.
    Fatal,
}

/// The poll policy: ready is terminal, running and stopping are waited
/// out, and everything else aborts the run.
pub open spec fn poll_decision_spec(o: PollObservation) -> PollDecision {
    match o {
        PollObservation::State(CrawlState::Ready) => PollDecision::Done,
        PollObservation::State(CrawlState::Running) => PollDecision::Wait,
        PollObservation::State(CrawlState::Stopping) => PollDecision::Wait,
        PollObservation::State(CrawlState::Other) => PollDecision::Fatal,
        PollObservation::Missing => PollDecision::Fatal,
        PollObservation::FetchFailed => PollDecision::Fatal,
    }
}

/// Decides one poll observation.
pub fn poll_decision(o: &PollObservation) -> (r: PollDecision)
    ensures
        r == poll_decision_spec(*o),
{
    match o {
        PollObservation::State(CrawlState::Ready) => PollDecision::Done,
        PollObservation::State(CrawlState::Running) => PollDecision::Wait,
        PollObservation::State(CrawlState::Stopping) => PollDecision::Wait,
        PollObservation::State(CrawlState::Other) => PollDecision::Fatal,
        PollObservation::Missing => PollDecision::Fatal,
        PollObservation::FetchFailed => PollDecision::Fatal,
    }
}

/// How a run of the poll loop over a recorded sequence of observations
/// ends.
#[derive(Clone, Copy, Debug, PartialEq, Eq, Structural)]
pub enum PollOutcome {
    /// The crawl finished after this many wait rounds.
    Completed { waits: usize },
    /// A fatal observation arrived at this position.
    Failed { at: usize },
    /// Every recorded observation asked for another wait; the loop would
    /// poll again.
    Pending,
}

/// The first `n` observations all ask for another wait.
pub open spec fn all_wait(obs: Seq<PollObservation>, n: int) -> bool {
    forall|j: int| 0 <= j < n ==> poll_decision_spec(#[trigger] obs[j]) == PollDecision::Wait
}

/// Drives the poll policy over a recorded sequence of observations. The
/// loop has no iteration cap: it ends only on a terminal state, a fatal
/// observation, or the end of the recording.
#[verifier::loop_isolation(false)]
pub fn run_poll(observations: &Vec<PollObservation>) -> (r: PollOutcome)
    ensures
        forall|i: int|
            (0 <= i < observations@.len() && all_wait(observations@, i) && poll_decision_spec(
                #[trigger] observations@[i],
            ) == PollDecision::Done) ==> r == (PollOutcome::Completed { waits: i as usize }),
        forall|i: int|
            (0 <= i < observations@.len() && all_wait(observations@, i) && poll_decision_spec(
                #[trigger] observations@[i],
            ) == PollDecision::Fatal) ==> r == (PollOutcome::Failed { at: i as usize }),
        all_wait(observations@, observations@.len() as int) ==> r == PollOutcome::Pending,
{
    let n = observations.len();
    let mut i: usize = 0;
    while i < n
        invariant
            0 <= i <= n,
            all_wait(observations@, i as int),
        decreases n - i,
    {
        match poll_decision(&observations[i]) {
            PollDecision::Done => {
                return PollOutcome::Completed { waits: i };
            },
            PollDecision::Fatal => {
                return PollOutcome::Failed { at: i };
            },
            PollDecision::Wait => {
                i += 1;
            },
        }
    }
    PollOutcome::Pending
}

/// One answer to a start request.
#[derive(Clone, Copy, Debug, PartialEq, Eq, Structural)]
pub enum StartResponse {
    /// The service accepted the start request.
    Accepted,
    /// The service refused because the crawl is already running.
    AlreadyRunning,
    /// Any other start error: unclassified, fatal.
    Failed,
}

/// What the start loop does with one response.
#[derive(Clone, Copy, Debug, PartialEq, Eq, Structural)]
pub enum StartDecision {
    /// The crawl is started.
    Begun,
    /// A conflict while not polling to completion: acceptable, the
    /// resource will finish on its own.
    AcceptConflict,
    /// A conflict within the retry budget: wait and ask again.
    Retry,
    /// An unclassified error, or the retry budget is spent.
    Fatal,
}

/// The start policy. `retries_done` counts the conflicts already waited
/// out.
pub open spec fn start_decision_spec(
    resp: StartResponse,
    retries_done: int,
    poll_to_completion: bool,
) -> StartDecision {
    match resp {
        StartResponse::Accepted => StartDecision::Begun,
        StartResponse::AlreadyRunning => {
            if !poll_to_completion {
                StartDecision::AcceptConflict
            } else if retries_done < MAX_START_RETRIES {
                StartDecision::Retry
            } else {
                StartDecision::Fatal
            }
        },
        StartResponse::Failed => StartDecision::Fatal,
    }
}

/// Decides one start response.
pub fn start_decision(resp: &StartResponse, retries_done: usize, poll_to_completion: bool) -> (r:
    StartDecision)
    ensures
        r == start_decision_spec(*resp, retries_done as int, poll_to_completion),
{
    match resp {
        StartResponse::Accepted => StartDecision::Begun,
        StartResponse::AlreadyRunning => {
            if !poll_to_completion {
                StartDecision::AcceptConflict
            } else if retries_done < MAX_START_RETRIES {
                StartDecision::Retry
            } else {
                StartDecision::Fatal
            }
        },
        StartResponse::Failed => StartDecision::Fatal,
    }
}

/// How a run of the start loop over a recorded sequence of responses
/// ends.
#[derive(Clone, Copy, Debug, PartialEq, Eq, Structural)]
pub enum StartOutcome {
    /// The start was accepted after this many conflict retries.
    Started { retries: usize },
    /// A conflict arrived while not polling to completion: the loop
    /// returns without retrying.
    ConflictAccepted,
    /// The retry budget was spent and one more conflict arrived: fatal.
    RetriesExhausted,
    /// An unclassified start error arrived at this position: fatal.
    Failed { at: usize },
    /// Every recorded response was a retried conflict; the loop would
    /// ask again.
    Pending,
}

/// The first `n` responses are all conflicts.
pub open spec fn all_conflict(resps: Seq<StartResponse>, n: int) -> bool {
    forall|j: int| 0 <= j < n ==> #[trigger] resps[j] == StartResponse::AlreadyRunning
}

/// Drives the start policy over a recorded sequence of responses, one
/// per start request issued.
#[verifier::loop_isolation(false)]
pub fn run_start(responses: &Vec<StartResponse>, poll_to_completion: bool) -> (r: StartOutcome)
    ensures
        forall|i: int|
            (0 <= i < responses@.len() && i <= MAX_START_RETRIES && all_conflict(responses@, i)
                && #[trigger] responses@[i] == StartResponse::Accepted && (poll_to_completion || i
                == 0)) ==> r == (StartOutcome::Started { retries: i as usize }),
        forall|i: int|
            (0 <= i < responses@.len() && i <= MAX_START_RETRIES && all_conflict(responses@, i)
                && #[trigger] responses@[i] == StartResponse::Failed && (poll_to_completion || i
                == 0)) ==> r == (StartOutcome::Failed { at: i as usize }),
        (!poll_to_completion && responses@.len() > 0 && responses@[0]
            == StartResponse::AlreadyRunning) ==> r == StartOutcome::ConflictAccepted,
        (poll_to_completion && responses@.len() > MAX_START_RETRIES && all_conflict(
            responses@,
            MAX_START_RETRIES + 1,
        )) ==> r == StartOutcome::RetriesExhausted,
        (responses@.len() <= MAX_START_RETRIES && all_conflict(
            responses@,
            responses@.len() as int,
        ) && (poll_to_completion || responses@.len() == 0)) ==> r == StartOutcome::Pending,
{
    let n = responses.len();
    let mut i: usize = 0;
    while i < n
        invariant
            0 <= i <= n,
            i <= MAX_START_RETRIES,
            all_conflict(responses@, i as int),
            i > 0 ==> poll_to_completion,
        decreases n - i,
    {
        match start_decision(&responses[i], i, poll_to_completion) {
            StartDecision::Begun => {
                return StartOutcome::Started { retries: i };
            },
            StartDecision::AcceptConflict => {
                return StartOutcome::ConflictAccepted;
            },
            StartDecision::Fatal => {
                match responses[i] {
                    StartResponse::AlreadyRunning => {
                        return StartOutcome::RetriesExhausted;
                    },
                    _ => {
                        return StartOutcome::Failed { at: i };
                    },
                }
            },
            StartDecision::Retry => {
                i += 1;
            },
        }
    }
    StartOutcome::Pending
}

/// What one lookup of a crawl resource by name reported.
#[derive(Clone, Copy, Debug, PartialEq, Eq, Structural)]
pub enum LookupResult {
    /// The resource exists.
    Found,
    /// The service specifically reported that no such resource exists.
    NotFound,
    /// Any other lookup error: unclassified, fatal.
    LookupFailed,
}

/// What the ensure step does after a lookup.
#[derive(Clone, Copy, Debug, PartialEq, Eq, Structural)]
pub enum EnsureDecision {
    /// The resource already exists: nothing to do.
    AlreadyExists,
    /// The resource is absent: create it now.
    Create,
    /// The lookup failed for an unclassified reason: do not mask it.
    Fatal,
}

/// The ensure policy: only the specific not-found answer triggers a
/// create; every other lookup error aborts.
pub open spec fn ensure_decision_spec(l: LookupResult) -> EnsureDecision {
    match l {
        LookupResult::Found => EnsureDecision::AlreadyExists,
        LookupResult::NotFound => EnsureDecision::Create,
        LookupResult::LookupFailed => EnsureDecision::Fatal,
    }
}

/// Decides one lookup result.
pub fn ensure_decision(l: &LookupResult) -> (r: EnsureDecision)
    ensures
        r == ensure_decision_spec(*l),
{
    match l {
        LookupResult::Found => EnsureDecision::AlreadyExists,
        LookupResult::NotFound => EnsureDecision::Create,
        LookupResult::LookupFailed => EnsureDecision::Fatal,
    }
}

/// Whether ensuring `name` against `catalog` performs a create.
pub open spec fn ensure_creates(catalog: Map<Seq<char>, Seq<char>>, name: Seq<char>) -> bool {
    !catalog.dom().contains(name)
}

/// How one ensure call ended.
#[derive(Clone, Copy, Debug, PartialEq, Eq, Structural)]
pub enum EnsureOutcome {
    /// The resource was absent and one create was issued.
    Created,
    /// The resource was already there: no create.
    AlreadyExists,
}

/// One crawl resource: a unique name pointing the catalog service at a
/// single storage-path target.
#[derive(Clone, Debug)]
pub struct CrawlResource {
    pub name: String,
    pub target_path: String,
}

/// Target path of the first resource named `n`, if one exists.
pub open spec fn lookup_target(rs: Seq<CrawlResource>, n: Seq<char>) -> Option<Seq<char>>
    decreases rs.len(),
{
    if rs.len() == 0 {
        None
    } else if rs[0].name@ == n {
        Some(rs[0].target_path@)
    } else {
        lookup_target(rs.drop_first(), n)
    }
}

proof fn lemma_lookup_at(rs: Seq<CrawlResource>, n: Seq<char>, i: int)
    requires
        0 <= i < rs.len(),
        rs[i].name@ == n,
        forall|j: int| 0 <= j < i ==> (#[trigger] rs[j]).name@ != n,
    ensures
        lookup_target(rs, n) == Some(rs[i].target_path@),
    decreases i,
{
    if i > 0 {
        let t = rs.drop_first();
        assert(forall|j: int| 0 <= j < i - 1 ==> (#[trigger] t[j]).name@ != n);
        lemma_lookup_at(t, n, i - 1);
    }
}

proof fn lemma_lookup_none(rs: Seq<CrawlResource>, n: Seq<char>)
    requires
        forall|j: int| 0 <= j < rs.len() ==> (#[trigger] rs[j]).name@ != n,
    ensures
        lookup_target(rs, n) is None,
    decreases rs.len(),
{
    if rs.len() > 0 {
        let t = rs.drop_first();
        assert(forall|j: int| 0 <= j < t.len() ==> (#[trigger] t[j]).name@ != n);
        lemma_lookup_none(t, n);
    }
}

proof fn lemma_lookup_push_other(rs: Seq<CrawlResource>, x: CrawlResource, n: Seq<char>)
    requires
        x.name@ != n,
    ensures
        lookup_target(rs.push(x), n) == lookup_target(rs, n),
    decreases rs.len(),
{
    if rs.len() == 0 {
        assert(rs.push(x).drop_first() =~= Seq::<CrawlResource>::empty());
    } else {
        assert(rs.push(x).drop_first() =~= rs.drop_first().push(x));
        lemma_lookup_push_other(rs.drop_first(), x, n);
    }
}

/// The catalog of crawl resources, modeled as the map from each existing
/// resource's name to its storage-path target. The manager never deletes
/// or reconfigures a resource, so the map only grows.
pub struct CrawlCatalog {
    resources: Vec<CrawlResource>,
}

impl View for CrawlCatalog {
    type V = Map<Seq<char>, Seq<char>>;

    closed spec fn view(&self) -> Map<Seq<char>, Seq<char>> {
        Map::new(
            |n: Seq<char>| lookup_target(self.resources@, n) is Some,
            |n: Seq<char>| lookup_target(self.resources@, n)->0,
        )
    }
}

impl CrawlCatalog {
    /// An empty catalog.
    pub fn new() -> (r: CrawlCatalog)
        ensures
            r@ == Map::<Seq<char>, Seq<char>>::empty(),
    {
        let c = CrawlCatalog { resources: Vec::new() };
        proof {
            assert(c@ =~= Map::<Seq<char>, Seq<char>>::empty());
        }
        c
    }

    /// Ensures a resource named `name` exists: one create with the given
    /// single storage-path target exactly when the name is absent. A
    /// resource that already exists is left as it is — its target is
    /// never reconfigured.
    pub fn ensure(&mut self, name: &str, target_path: &str) -> (r: EnsureOutcome)
        ensures
            (r == EnsureOutcome::Created) == ensure_creates(old(self)@, name@),
            r == EnsureOutcome::AlreadyExists ==> final (self)@ == old(self)@,
            r == EnsureOutcome::Created ==> final (self)@ == old(self)@.insert(
                name@,
                target_path@,
            ),
    {
        let n = self.resources.len();
        let mut i: usize = 0;
        while i < n
            invariant
                0 <= i <= n,
                n == self.resources@.len(),
                forall|j: int| 0 <= j < i ==> (#[trigger] self.resources@[j]).name@ != name@,
            decreases n - i,
        {
            if str_eq(self.resources[i].name.as_str(), name) {
                proof {
                    lemma_lookup_at(self.resources@, name@, i as int);
                    assert(self@.dom().contains(name@));
                }
                return EnsureOutcome::AlreadyExists;
            }
            i += 1;
        }
        proof {
            lemma_lookup_none(self.resources@, name@);
            assert(!self@.dom().contains(name@));
        }
        let ghost before = self.resources@;
        let created = CrawlResource { name: name.to_owned(), target_path: target_path.to_owned() };
        self.resources.push(created);
        proof {
            assert forall|x: Seq<char>|
                #![trigger lookup_target(self.resources@, x)]
                true implies {
                if x == name@ {
                    lookup_target(self.resources@, x) == Some(target_path@)
                } else {
                    lookup_target(self.resources@, x) == lookup_target(before, x)
                }
            } by {
                if x == name@ {
                    lemma_lookup_at(self.resources@, name@, before.len() as int);
                } else {
                    lemma_lookup_push_other(before, self.resources@.last(), x);
                }
            }
            assert(self@ =~= old(self)@.insert(name@, target_path@));
        }
        EnsureOutcome::Created
    }

    /// Whether a resource named `name` exists.
    pub fn contains_name(&self, name: &str) -> (r: bool)
        ensures
            r == self@.dom().contains(name@),
    {
        self.target_path_of(name).is_some()
    }

    /// The storage-path target of the resource named `name`, if it
    /// exists.
    pub fn target_path_of(&self, name: &str) -> (r: Option<String>)
        ensures
            r matches Some(p) ==> self@.dom().contains(name@) && p@ == self@[name@],
            r is None ==> !self@.dom().contains(name@),
    {
        let n = self.resources.len();
        let mut i: usize = 0;
        while i < n
            invariant
                0 <= i <= n,
                n == self.resources@.len(),
                forall|j: int| 0 <= j < i ==> (#[trigger] self.resources@[j]).name@ != name@,
            decreases n - i,
        {
            if str_eq(self.resources[i].name.as_str(), name) {
                proof {
                    lemma_lookup_at(self.resources@, name@, i as int);
                }
                return Some(self.resources[i].target_path.clone());
            }
            i += 1;
        }
        proof {
            lemma_lookup_none(self.resources@, name@);
        }
        None
    }
}

/// Ensuring a name that an earlier ensure has just made present never
/// performs a second create: the second call observes the name and is a
/// no-op.
pub proof fn lemma_ensure_idempotent(
    catalog: Map<Seq<char>, Seq<char>>,
    name: Seq<char>,
    target_path: Seq<char>,
)
    ensures
        !ensure_creates(catalog.insert(name, target_path), name),
{
}

} // verus!
