use data_resolver::errors::CallError;
use data_resolver::query::SelectQuery;
use data_resolver::service::BlockingOutcome;
use data_resolver::service::DataResolver;

fn foo_equals_bar() -> SelectQuery {
    SelectQuery { field: String::from("foo"), value: String::from("bar") }
}

#[test]
fn poll_ready_is_always_ready() {
    let resolver = DataResolver::new();
    assert!(resolver.poll_ready());
    let empty = DataResolver::with_resources(0);
    assert!(empty.poll_ready());
}

#[test]
fn single_connection_call_resolves_with_the_success_marker() {
    let mut resolver = DataResolver::new();
    let pending = resolver.start_call(&foo_equals_bar()).unwrap();
    assert_eq!(pending.slot, 0);
    assert_eq!(pending.query, "SELECT `foo`, `bar` FROM `table` WHERE foo = 'bar'");
    let outcome = BlockingOutcome::Finished { succeeded: true };
    assert_eq!(resolver.complete_call(pending, outcome), Ok("DONE QUERY"));
    assert!(!resolver.is_leased(0));
}

#[test]
fn second_call_runs_its_nonblocking_stages_while_the_first_is_outstanding() {
    let mut resolver = DataResolver::with_resources(2);
    let first = resolver.start_call(&foo_equals_bar()).unwrap();
    // While the first call's blocking stage is outstanding, another call's
    // non-blocking stages go through at once.
    assert!(resolver.poll_ready());
    let second = resolver.start_call(&foo_equals_bar()).unwrap();
    assert_eq!(second.query, first.query);
    assert_ne!(second.slot, first.slot);
    let ran = BlockingOutcome::Finished { succeeded: true };
    assert_eq!(resolver.complete_call(first, ran), Ok("DONE QUERY"));
    let ran = BlockingOutcome::Finished { succeeded: true };
    assert_eq!(resolver.complete_call(second, ran), Ok("DONE QUERY"));
}

#[test]
fn two_calls_on_one_connection_serialize() {
    // The pool leases each connection to one call at a time, so over a
    // single connection two simultaneous calls serialize: the second waits
    // for the first call's lease to come back, then succeeds too.
    let mut resolver = DataResolver::new();
    let request = foo_equals_bar();
    let first = resolver.start_call(&request).unwrap();
    assert_eq!(resolver.start_call(&request.clone()).unwrap_err(), CallError::PoolExhausted);
    let ran = BlockingOutcome::Finished { succeeded: true };
    assert_eq!(resolver.complete_call(first, ran), Ok("DONE QUERY"));
    let retried = resolver.start_call(&request.clone()).unwrap();
    assert_eq!(retried.slot, 0);
    let ran = BlockingOutcome::Finished { succeeded: true };
    assert_eq!(resolver.complete_call(retried, ran), Ok("DONE QUERY"));
}

#[test]
fn zero_connection_pool_resolves_every_call_with_pool_exhausted() {
    let mut resolver = DataResolver::with_resources(0);
    for _ in 0..3 {
        let failed = resolver.start_call(&foo_equals_bar());
        assert_eq!(failed.unwrap_err(), CallError::PoolExhausted);
    }
}

#[test]
fn failed_blocking_stage_resolves_with_blocking_stage_error() {
    let mut resolver = DataResolver::new();
    let pending = resolver.start_call(&foo_equals_bar()).unwrap();
    let outcome = BlockingOutcome::StageFailed;
    assert_eq!(resolver.complete_call(pending, outcome), Err(CallError::BlockingStageError));
    // The lease comes back even on failure.
    assert!(!resolver.is_leased(0));
}

#[test]
fn failed_query_resolves_with_underlying_resource_error() {
    let mut resolver = DataResolver::new();
    let pending = resolver.start_call(&foo_equals_bar()).unwrap();
    let outcome = BlockingOutcome::Finished { succeeded: false };
    assert_eq!(
        resolver.complete_call(pending, outcome),
        Err(CallError::UnderlyingResourceError)
    );
    assert!(!resolver.is_leased(0));
}

#[test]
fn resources_reports_the_pool_size() {
    assert_eq!(DataResolver::new().resources(), 1);
    assert_eq!(DataResolver::with_resources(4).resources(), 4);
}
