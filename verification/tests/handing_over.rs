use hdhomerun::handoff::{FetchCoordinator, FetchPhase};

#[test]
fn fetch_is_launched_once() {
    let mut coordinator = FetchCoordinator::new();
    assert_eq!(coordinator.phase(), FetchPhase::Idle);
    assert!(coordinator.start());
    assert_eq!(coordinator.phase(), FetchPhase::Fetching);
    assert!(!coordinator.start());
    assert!(!coordinator.start());
    assert_eq!(coordinator.phase(), FetchPhase::Fetching);
}

#[test]
fn one_result_is_handed_on() {
    let mut coordinator = FetchCoordinator::new();
    assert!(coordinator.start());
    assert_eq!(coordinator.deliver("first"), Some("first"));
    assert_eq!(coordinator.phase(), FetchPhase::Delivered);
    assert_eq!(coordinator.deliver("second"), None);
    assert_eq!(coordinator.deliver("third"), None);
    assert_eq!(coordinator.phase(), FetchPhase::Delivered);
    assert!(!coordinator.start());
    assert_eq!(coordinator.deliver("fourth"), None);
}

#[test]
fn result_is_handed_on_whole() {
    let mut coordinator = FetchCoordinator::new();
    coordinator.start();
    let result: Result<Vec<u8>, String> = Ok(vec![1, 2, 3]);
    assert_eq!(coordinator.deliver(result), Some(Ok(vec![1, 2, 3])));
    let mut coordinator = FetchCoordinator::new();
    coordinator.start();
    let result: Result<Vec<u8>, String> = Err("refused".to_string());
    assert_eq!(coordinator.deliver(result), Some(Err("refused".to_string())));
}

#[test]
fn result_without_a_launch_is_dropped() {
    let mut coordinator = FetchCoordinator::new();
    assert_eq!(coordinator.deliver(1), None);
    assert_eq!(coordinator.phase(), FetchPhase::Idle);
    assert!(coordinator.start());
    assert_eq!(coordinator.deliver(2), Some(2));
}

#[test]
fn result_after_teardown_is_dropped() {
    let mut coordinator = FetchCoordinator::new();
    assert!(coordinator.start());
    coordinator.teardown();
    assert_eq!(coordinator.phase(), FetchPhase::Abandoned);
    assert_eq!(coordinator.deliver("late"), None);
    assert_eq!(coordinator.phase(), FetchPhase::Abandoned);
    assert!(!coordinator.start());
}

#[test]
fn teardown_before_start_launches_nothing() {
    let mut coordinator = FetchCoordinator::new();
    coordinator.teardown();
    assert_eq!(coordinator.phase(), FetchPhase::Abandoned);
    assert!(!coordinator.start());
    assert_eq!(coordinator.deliver(0), None);
}

#[test]
fn teardown_after_delivery_changes_nothing() {
    let mut coordinator = FetchCoordinator::new();
    coordinator.start();
    assert_eq!(coordinator.deliver(5), Some(5));
    coordinator.teardown();
    assert_eq!(coordinator.phase(), FetchPhase::Delivered);
}

#[test]
fn no_order_of_events_delivers_twice() {
    // every run of six events, each one of start, arrival, teardown
    for code in 0..729u32 {
        let mut coordinator = FetchCoordinator::new();
        let mut launched = 0;
        let mut delivered = 0;
        let mut rest = code;
        for _ in 0..6 {
            match rest % 3 {
                0 => {
                    if coordinator.start() {
                        launched += 1;
                    }
                }
                1 => {
                    if coordinator.deliver(code).is_some() {
                        delivered += 1;
                    }
                }
                _ => coordinator.teardown(),
            }
            rest /= 3;
            assert!(launched <= 1);
            assert!(delivered <= launched);
        }
    }
}
