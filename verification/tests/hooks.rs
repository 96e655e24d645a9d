use token_controller::hook_tester::{Config, HookTester};

#[test]
fn fresh_aggregator_is_empty() {
    let tester: HookTester<String, String> = HookTester::new();
    assert!(tester.config.is_none());
    assert!(tester.answers().is_empty());
    assert!(tester.errors().is_empty());
}

#[test]
fn config_stores_runner_address() {
    let mut tester: HookTester<String, String> = HookTester::new();
    tester.set_config(Config { puppeteer_addr: "runner".to_string() });
    assert_eq!(
        tester.config,
        Some(Config { puppeteer_addr: "runner".to_string() })
    );
    assert!(tester.answers().is_empty());
    assert!(tester.errors().is_empty());
}

#[test]
fn logs_keep_arrival_order() {
    let mut tester: HookTester<String, String> = HookTester::new();
    tester.record_success("a".to_string());
    tester.record_error("b".to_string());
    tester.record_success("c".to_string());
    assert_eq!(tester.answers(), &vec!["a".to_string(), "c".to_string()]);
    assert_eq!(tester.errors(), &vec!["b".to_string()]);
}

#[test]
fn logs_are_append_only_history() {
    let mut tester: HookTester<u64, u64> = HookTester::new();
    tester.record_success(1);
    tester.record_success(1);
    tester.record_error(9);
    tester.record_success(2);
    // duplicates are kept, nothing is replaced or reordered
    assert_eq!(tester.answers(), &vec![1, 1, 2]);
    assert_eq!(tester.errors(), &vec![9]);
}
