use rusty_driver::error::{Error, ErrorStatus};
use rusty_driver::poll::{poll_step, Poll, RETRY_INTERVAL_MS};

fn run(mut attempts: Vec<Result<u32, Error>>, awaited: ErrorStatus) -> (Result<u32, Error>, Vec<u64>) {
    let mut sleeps = Vec::new();
    attempts.reverse();
    loop {
        let outcome = attempts.pop().expect("an attempt");
        match poll_step(outcome, awaited) {
            Poll::Done(r) => return (r, sleeps),
            Poll::Wait(ms) => sleeps.push(ms),
        }
    }
}

#[test]
fn waits_out_missing_elements() {
    let attempts = vec![
        Err(Error::WebDriver(ErrorStatus::NoSuchElement, "a".to_string())),
        Err(Error::WebDriver(ErrorStatus::NoSuchElement, "b".to_string())),
        Ok(42),
    ];
    let (r, sleeps) = run(attempts, ErrorStatus::NoSuchElement);
    assert_eq!(r.expect("the value"), 42);
    assert_eq!(sleeps, vec![100, 100]);
    assert_eq!(RETRY_INTERVAL_MS, 100);
}

#[test]
fn other_failures_return_at_once() {
    let attempts = vec![Err(Error::WebDriver(ErrorStatus::StaleElementReference, "s".to_string())), Ok(1)];
    let (r, sleeps) = run(attempts, ErrorStatus::NoSuchElement);
    assert!(matches!(r, Err(Error::WebDriver(ErrorStatus::StaleElementReference, _))));
    assert!(sleeps.is_empty());
    let (r, sleeps) = run(vec![Err(Error::NoSession)], ErrorStatus::NoSuchElement);
    assert!(matches!(r, Err(Error::NoSession)));
    assert!(sleeps.is_empty());
}
