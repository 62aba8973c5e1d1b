use grumpy_clippy::watcher::{
    first_verdict, is_relevant, shall_be_ignored, WatchAction, WatchError, WatchState,
    DEBOUNCE_INTERVAL_MS,
};

fn list(items: &[&str]) -> Vec<String> {
    items.iter().map(|item| item.to_string()).collect()
}

#[test]
fn debounce_lets_the_first_and_the_third_event_through() {
    let mut state = WatchState::new(DEBOUNCE_INTERVAL_MS);
    let watched = list(&[".rs"]);
    let ignored = list(&["target/"]);
    let mut analysed: Vec<(&str, u64)> = Vec::new();
    for (path, now) in [
        ("src/a.rs", 0u64),
        ("src/b.rs", 2_000),
        ("src/c.rs", 11_000),
    ] {
        if state.on_event(path, now, &watched, &ignored).unwrap() == WatchAction::Analyze {
            analysed.push((path, now));
        }
    }
    assert_eq!(analysed, vec![("src/a.rs", 0), ("src/c.rs", 11_000)]);
    assert_eq!(state.last_triggered, Some(11_000));
}

#[test]
fn suppressed_event_does_not_restart_the_interval() {
    let mut state = WatchState::new(10_000);
    assert_eq!(state.decide(false, true, 5_000), WatchAction::Analyze);
    assert_eq!(state.decide(false, true, 14_999), WatchAction::Ignore);
    assert_eq!(state.last_triggered, Some(5_000));
    assert_eq!(state.decide(false, true, 15_000), WatchAction::Analyze);
    assert_eq!(state.last_triggered, Some(15_000));
    // a clock that went back holds the event back
    assert_eq!(state.decide(false, true, 1_000), WatchAction::Ignore);
    assert_eq!(state.last_triggered, Some(15_000));
}

#[test]
fn first_event_is_never_suppressed() {
    let mut state = WatchState::new(10_000);
    assert_eq!(state.last_triggered, None);
    assert_eq!(state.decide(false, true, 1), WatchAction::Analyze);
    let mut state = WatchState::new(u64::MAX);
    assert_eq!(state.decide(false, true, 0), WatchAction::Analyze);
}

#[test]
fn toml_is_relevant_only_where_it_is_watched() {
    assert!(is_relevant("Cargo.toml", &list(&[".rs", ".toml"])));
    assert!(!is_relevant("Cargo.toml", &list(&[".rs"])));
    assert!(is_relevant("/home/me/project/src/main.rs", &list(&[".rs"])));
    assert!(is_relevant("src/main.rs", &list(&["rs"])));
    assert!(is_relevant("src/main.rs", &list(&["..rs"])));
    assert!(!is_relevant("src/main.rs", &list(&[])));
}

#[test]
fn extension_is_what_follows_the_last_dot_of_the_file_name() {
    let rs = list(&[".rs"]);
    assert!(is_relevant("a.tar.rs", &rs));
    assert!(!is_relevant("a.rs.bak", &rs));
    assert!(!is_relevant("src.rs/readme", &rs));
    assert!(!is_relevant(".rs", &rs));
    assert!(!is_relevant("dir/.rs", &rs));
    assert!(is_relevant("dir/.hidden.rs", &rs));
    assert!(!is_relevant("rs", &rs));
    assert!(!is_relevant("", &rs));
    assert!(!is_relevant("..", &list(&[""])));
    assert!(is_relevant("name.", &list(&[""])));
    assert!(is_relevant("name.", &list(&["."])));
    assert!(!is_relevant("main.RS", &rs));
}

#[test]
fn path_under_target_is_ignored_even_with_a_watched_extension() {
    let ignored = list(&["target/"]);
    let watched = list(&[".rs"]);
    assert_eq!(
        shall_be_ignored("/p/target/debug/build.rs", &ignored).unwrap(),
        true
    );
    assert_eq!(shall_be_ignored("/p/src/target.rs", &ignored).unwrap(), false);
    let mut state = WatchState::new(10_000);
    assert_eq!(
        state
            .on_event("/p/target/debug/build.rs", 0, &watched, &ignored)
            .unwrap(),
        WatchAction::Ignore
    );
    assert_eq!(state.last_triggered, None);
    assert_eq!(
        state.on_event("/p/src/lib.rs", 1, &watched, &ignored).unwrap(),
        WatchAction::Analyze
    );
    assert_eq!(state.decide(true, true, 100_000), WatchAction::Ignore);
    assert_eq!(state.decide(false, false, 100_000), WatchAction::Ignore);
}

#[test]
fn ignore_patterns_are_regular_expressions() {
    assert!(shall_be_ignored("src/gen_01.rs", &list(&["gen_[0-9]+\\.rs$"])).unwrap());
    assert!(!shall_be_ignored("src/gen_x.rs", &list(&["gen_[0-9]+\\.rs$"])).unwrap());
    assert!(!shall_be_ignored("src/lib.rs", &list(&[])).unwrap());
    assert!(shall_be_ignored("src/lib.rs", &list(&["^tests/", "lib"])).unwrap());
}

#[test]
fn invalid_ignore_pattern_is_an_error() {
    match shall_be_ignored("src/lib.rs", &list(&["^tests/", "(unclosed"])) {
        Err(WatchError::InvalidPattern(pattern)) => assert_eq!(pattern, "(unclosed"),
        Ok(_) => panic!("the second pattern is no regular expression"),
    }
    // a match before the invalid pattern settles the matter
    assert!(shall_be_ignored("src/lib.rs", &list(&["lib", "(unclosed"])).unwrap());
    let mut state = WatchState::new(10_000);
    assert!(state
        .on_event("src/lib.rs", 0, &list(&[".rs"]), &list(&["(unclosed"]))
        .is_err());
    assert_eq!(state.last_triggered, None);
}

#[test]
fn verdict_goes_by_the_first_match_or_failure() {
    assert_eq!(first_verdict(&vec![]), Ok(false));
    assert_eq!(first_verdict(&vec![Some(false), Some(false)]), Ok(false));
    assert_eq!(first_verdict(&vec![Some(false), Some(true), None]), Ok(true));
    assert_eq!(first_verdict(&vec![Some(false), None, Some(true)]), Err(1));
    assert_eq!(first_verdict(&vec![None]), Err(0));
}
