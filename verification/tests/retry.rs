use hash_miner::retry::{Retry, RetryStep, MAX_RETRIES};

fn run(retries: u32) -> (Vec<u64>, String) {
    let mut plan = Retry::new(retries);
    let mut waits = vec![];
    if let Err(e) = plan.begin() {
        return (waits, e);
    }
    let mut attempt = 0;
    loop {
        match plan.failed(format!("error {attempt}")) {
            RetryStep::Wait(secs) => waits.push(secs),
            RetryStep::GiveUp(e) => return (waits, e),
        }
        attempt += 1;
    }
}

#[test]
fn waits_double_and_the_last_error_comes_back() {
    assert_eq!(run(3), (vec![1, 2], "error 2".to_string()));
    assert_eq!(run(5), (vec![1, 2, 4, 8], "error 4".to_string()));
    assert_eq!(run(1), (vec![], "error 0".to_string()));
}

#[test]
fn without_attempts_there_is_an_error_of_its_own() {
    assert_eq!(run(0), (vec![], "no attempts".to_string()));
}

#[test]
fn longest_wait_fits() {
    let (waits, error) = run(MAX_RETRIES);
    assert_eq!(waits.len(), 64);
    assert_eq!(waits[63], 1 << 63);
    assert_eq!(error, "error 64");
    let total: u128 = waits.iter().map(|w| *w as u128).sum();
    assert_eq!(total, (1u128 << 64) - 1);
}

#[test]
fn the_first_success_ends_the_attempts() {
    let outcomes = [Err("a"), Err("b"), Ok(7), Ok(8)];
    let mut plan = Retry::new(4);
    assert!(plan.begin().is_ok());
    let (mut calls, mut waits) = (0, vec![]);
    let result = loop {
        let outcome = outcomes[calls];
        calls += 1;
        match outcome {
            Ok(v) => break Ok(v),
            Err(e) => match plan.failed(e.to_string()) {
                RetryStep::Wait(secs) => waits.push(secs),
                RetryStep::GiveUp(e) => break Err(e),
            },
        }
    };
    assert_eq!((result, calls, waits), (Ok(7), 3, vec![1, 2]));
}
