use dracula_covid19::crawler::{
    classify_crawler_state, delay_time, ensure_decision, run_poll, run_start, CrawlCatalog,
    CrawlState, EnsureDecision, EnsureOutcome, LookupResult, PollObservation, PollOutcome,
    StartOutcome, StartResponse, MAX_START_RETRIES,
};
use dracula_covid19::storage::target_path_for;

#[test]
fn delay_between_requests_is_ten_seconds() {
    assert_eq!(delay_time(), 10);
}

#[test]
fn state_strings_classify() {
    assert_eq!(classify_crawler_state("READY"), CrawlState::Ready);
    assert_eq!(classify_crawler_state("RUNNING"), CrawlState::Running);
    assert_eq!(classify_crawler_state("STOPPING"), CrawlState::Stopping);
    assert_eq!(classify_crawler_state("UNKNOWN"), CrawlState::Other);
    assert_eq!(classify_crawler_state("ready"), CrawlState::Other);
}

#[test]
fn poll_two_waits_then_ready_completes() {
    let observations = vec![
        PollObservation::State(CrawlState::Running),
        PollObservation::State(CrawlState::Running),
        PollObservation::State(CrawlState::Ready),
    ];
    assert_eq!(run_poll(&observations), PollOutcome::Completed { waits: 2 });
}

#[test]
fn poll_stopping_is_waited_out_like_running() {
    let observations = vec![
        PollObservation::State(CrawlState::Stopping),
        PollObservation::State(CrawlState::Ready),
    ];
    assert_eq!(run_poll(&observations), PollOutcome::Completed { waits: 1 });
}

#[test]
fn poll_unexpected_state_is_fatal() {
    let observations = vec![
        PollObservation::State(CrawlState::Running),
        PollObservation::State(CrawlState::Other),
    ];
    assert_eq!(run_poll(&observations), PollOutcome::Failed { at: 1 });
}

#[test]
fn poll_missing_resource_and_fetch_error_are_fatal() {
    assert_eq!(
        run_poll(&vec![PollObservation::Missing]),
        PollOutcome::Failed { at: 0 }
    );
    assert_eq!(
        run_poll(&vec![PollObservation::FetchFailed]),
        PollOutcome::Failed { at: 0 }
    );
}

#[test]
fn poll_only_waits_stays_pending() {
    let observations = vec![PollObservation::State(CrawlState::Running); 5];
    assert_eq!(run_poll(&observations), PollOutcome::Pending);
}

#[test]
fn start_sustained_conflict_fails_on_the_check_after_the_retries() {
    let responses = vec![StartResponse::AlreadyRunning; MAX_START_RETRIES + 1];
    assert_eq!(run_start(&responses, true), StartOutcome::RetriesExhausted);
}

#[test]
fn start_conflicts_within_budget_keep_retrying() {
    let responses = vec![StartResponse::AlreadyRunning; MAX_START_RETRIES];
    assert_eq!(run_start(&responses, true), StartOutcome::Pending);
}

#[test]
fn start_without_polling_accepts_the_first_conflict() {
    let responses = vec![StartResponse::AlreadyRunning; 5];
    assert_eq!(run_start(&responses, false), StartOutcome::ConflictAccepted);
}

#[test]
fn start_succeeds_after_some_conflicts() {
    let mut responses = vec![StartResponse::AlreadyRunning; 3];
    responses.push(StartResponse::Accepted);
    assert_eq!(run_start(&responses, true), StartOutcome::Started { retries: 3 });
}

#[test]
fn start_immediate_acceptance_needs_no_retry() {
    let responses = vec![StartResponse::Accepted];
    assert_eq!(run_start(&responses, false), StartOutcome::Started { retries: 0 });
    assert_eq!(run_start(&responses, true), StartOutcome::Started { retries: 0 });
}

#[test]
fn start_unclassified_error_is_fatal() {
    let responses = vec![StartResponse::AlreadyRunning, StartResponse::Failed];
    assert_eq!(run_start(&responses, true), StartOutcome::Failed { at: 1 });
}

#[test]
fn ensure_decisions_follow_the_lookup() {
    assert_eq!(
        ensure_decision(&LookupResult::Found),
        EnsureDecision::AlreadyExists
    );
    assert_eq!(ensure_decision(&LookupResult::NotFound), EnsureDecision::Create);
    assert_eq!(
        ensure_decision(&LookupResult::LookupFailed),
        EnsureDecision::Fatal
    );
}

#[test]
fn ensure_twice_creates_once() {
    let mut catalog = CrawlCatalog::new();
    let path = "s3://scientist-datawarehouse/csse_covid_19_time_series/combined";
    assert_eq!(
        catalog.ensure("covid19-combined", path),
        EnsureOutcome::Created
    );
    assert_eq!(
        catalog.ensure("covid19-combined", path),
        EnsureOutcome::AlreadyExists
    );
    assert!(catalog.contains_name("covid19-combined"));
    assert!(!catalog.contains_name("population"));
}

#[test]
fn ensure_distinct_names_create_separately() {
    let mut catalog = CrawlCatalog::new();
    assert_eq!(catalog.ensure("covid19-combined", "s3://b/a"), EnsureOutcome::Created);
    assert_eq!(catalog.ensure("population", "s3://b/p"), EnsureOutcome::Created);
    assert_eq!(
        catalog.ensure("population", "s3://b/p"),
        EnsureOutcome::AlreadyExists
    );
}

#[test]
fn ensure_never_reconfigures_an_existing_resource() {
    let mut catalog = CrawlCatalog::new();
    catalog.ensure("population", "s3://b/original");
    assert_eq!(
        catalog.ensure("population", "s3://b/other"),
        EnsureOutcome::AlreadyExists
    );
    assert_eq!(
        catalog.target_path_of("population").as_deref(),
        Some("s3://b/original")
    );
    assert_eq!(catalog.target_path_of("missing"), None);
}

#[test]
fn target_path_reuses_the_key_directory() {
    assert_eq!(
        target_path_for(
            "scientist-datawarehouse",
            "csse_covid_19_time_series/combined/time_series_19-covid-Combined.parquet"
        ),
        "s3://scientist-datawarehouse/csse_covid_19_time_series/combined"
    );
}

#[test]
fn target_path_for_bare_key_is_the_bucket_root() {
    assert_eq!(
        target_path_for("scientist-datawarehouse", "population.parquet"),
        "s3://scientist-datawarehouse/"
    );
}
