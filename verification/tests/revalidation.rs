use pagestate::entry::StateEntry;
use pagestate::strategy::GenerationStrategy;

fn entry(at: u64, interval: Option<u64>, verdict: Option<bool>) -> StateEntry {
    StateEntry {
        payload: "state".to_string(),
        strategy: GenerationStrategy::BuildOnly,
        generation_timestamp: at,
        revalidation_interval: interval,
        predicate_result: verdict,
    }
}

#[test]
fn generated_entry_has_no_verdict() {
    let e = StateEntry::generated(
        "state".to_string(),
        GenerationStrategy::RequestOnly,
        42,
        Some(86_400),
    );
    assert_eq!(e.payload, "state");
    assert_eq!(e.strategy, GenerationStrategy::RequestOnly);
    assert_eq!(e.generation_timestamp, 42);
    assert_eq!(e.revalidation_interval, Some(86_400));
    assert_eq!(e.predicate_result, None);
}

#[test]
fn entry_is_fresh_just_before_the_interval_ends() {
    let e = entry(1_000, Some(86_400), None);
    assert!(!e.is_stale(1_000 + 86_400 - 1));
    assert!(!e.is_stale(1_000));
    assert!(!e.is_stale(1_001));
}

#[test]
fn entry_is_stale_once_the_interval_has_passed() {
    let e = entry(1_000, Some(86_400), None);
    assert!(e.is_stale(1_000 + 86_400));
    assert!(e.is_stale(1_000 + 86_400 + 1));
    assert!(e.is_stale(u64::MAX));
}

#[test]
fn entry_is_not_stale_before_it_was_generated() {
    let e = entry(1_000, Some(10), None);
    assert!(!e.is_stale(0));
    assert!(!e.is_stale(999));
    let immediate = entry(1_000, Some(0), None);
    assert!(!immediate.is_stale(999));
    assert!(immediate.is_stale(1_000));
}

#[test]
fn interval_at_the_end_of_time_does_not_overflow() {
    let e = entry(u64::MAX - 1, Some(u64::MAX), None);
    assert!(!e.is_stale(u64::MAX));
    let late = entry(u64::MAX, Some(0), None);
    assert!(late.is_stale(u64::MAX));
}

#[test]
fn entry_without_interval_never_goes_stale_by_time() {
    let e = entry(0, None, None);
    assert!(!e.is_stale(0));
    assert!(!e.is_stale(u64::MAX));
    assert!(!entry(0, None, Some(false)).is_stale(u64::MAX));
}

#[test]
fn predicate_alone_makes_an_entry_stale() {
    assert!(entry(1_000, None, Some(true)).is_stale(1_000));
    assert!(entry(1_000, Some(86_400), Some(true)).is_stale(1_001));
}

#[test]
fn interval_alone_makes_an_entry_stale() {
    assert!(entry(1_000, Some(10), Some(false)).is_stale(1_010));
    assert!(!entry(1_000, Some(10), Some(false)).is_stale(1_009));
}

#[test]
fn judged_entry_takes_the_verdict() {
    let e = entry(1, Some(5), None);
    assert_eq!(e.snapshot().judged(Some(true)), entry(1, Some(5), Some(true)));
    assert_eq!(e.snapshot().judged(Some(false)), entry(1, Some(5), Some(false)));
    assert_eq!(e.snapshot().judged(None), e);
    let condemned = entry(1, Some(5), Some(true));
    assert_eq!(condemned.snapshot().judged(None), condemned);
    assert_eq!(condemned.snapshot().judged(Some(false)), entry(1, Some(5), Some(false)));
}
