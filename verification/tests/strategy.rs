use clipboard_monitor::strategy::Fallback;

fn run(count: usize, outcomes: &[Option<&str>]) -> (Option<String>, Vec<usize>) {
    let mut chain: Fallback<String> = Fallback::new(count);
    let mut tried = Vec::new();
    while let Some(i) = chain.next() {
        tried.push(i);
        chain.record(outcomes[i].map(|o| o.to_string()));
    }
    (chain.into_result(), tried)
}

#[test]
fn strategy_first_success_wins() {
    assert_eq!(
        run(3, &[None, Some("second"), Some("third")]),
        (Some("second".to_string()), vec![0, 1])
    );
    assert_eq!(run(3, &[Some("first"), Some("second"), None]), (Some("first".to_string()), vec![0]));
    assert_eq!(run(3, &[None, None, Some("third")]), (Some("third".to_string()), vec![0, 1, 2]));
}

#[test]
fn strategy_exhaustion_is_no_result() {
    assert_eq!(run(3, &[None, None, None]), (None, vec![0, 1, 2]));
    assert_eq!(run(0, &[]), (None, Vec::new()));
}

#[test]
fn strategy_drops_outcomes_that_are_not_due() {
    let mut chain: Fallback<u32> = Fallback::new(2);
    assert_eq!(chain.next(), Some(0));
    chain.record(Some(7));
    assert_eq!(chain.next(), None);
    chain.record(Some(8));
    chain.record(None);
    assert_eq!(chain.into_result(), Some(7));

    let mut chain: Fallback<u32> = Fallback::new(1);
    chain.record(None);
    assert_eq!(chain.next(), None);
    chain.record(Some(9));
    assert_eq!(chain.into_result(), None);
}

#[test]
fn strategy_numbers_follow_the_order() {
    let mut chain: Fallback<isize> = Fallback::new(3);
    assert_eq!(chain.next(), Some(0));
    assert_eq!(chain.next(), Some(0));
    chain.record(None);
    assert_eq!(chain.next(), Some(1));
    chain.record(None);
    assert_eq!(chain.next(), Some(2));
    chain.record(Some(-5));
    assert_eq!(chain.next(), None);
    assert_eq!(chain.into_result(), Some(-5));
}
