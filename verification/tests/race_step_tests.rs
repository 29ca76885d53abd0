use tt::engine::Translation;
use tt::error::Error;
use tt::fallback::{next_lane, next_retry, reason, retries_exhausted, retry_step, retrying_line, Event, Race, RetryStep, Step};

fn ok(text: &str) -> Translation {
    Translation {
        primary: text.to_string(),
        ..Translation::default()
    }
}

fn net(why: &str) -> Result<Translation, Error> {
    Err(Error::Network(why.to_string()))
}

fn parse(why: &str) -> Result<Translation, Error> {
    Err(Error::Parse(why.to_string()))
}

fn line(step: &Step) -> Option<&str> {
    match step {
        Step::Going { log, .. } => log.as_deref(),
        Step::Won(_) => None,
    }
}

#[test]
fn a_first_success_wins_with_nothing_logged() {
    let mut race = Race::new();
    match race.first_try("one", Some("two"), true, Ok(ok("first"))) {
        Step::Won(t) => assert_eq!(t.primary, "first"),
        _ => panic!("expected a win"),
    }
    assert_eq!(race.finish().message(), "network error: all lanes failed: ");
}

#[test]
fn a_network_failure_names_the_next_lane_and_asks_for_retries() {
    let mut race = Race::new();
    let step = race.first_try("one", Some("two"), true, net("HTTP 429"));
    assert_eq!(line(&step), Some("one failed: HTTP 429, trying two"));
    assert!(matches!(step, Step::Going { retry: true, .. }));
    let step = race.first_try("two", None, true, net("HTTP 429"));
    assert_eq!(line(&step), Some("two failed: HTTP 429, waiting for retries"));
    match race.first_try("three", None, true, Ok(ok("second"))) {
        Step::Won(t) => assert_eq!(t.primary, "second"),
        _ => panic!("expected a win"),
    }
}

#[test]
fn a_parse_failure_is_skipped_and_recorded() {
    let mut race = Race::new();
    let step = race.first_try("one", Some("two"), true, parse("bad shape"));
    assert_eq!(line(&step), Some("one failed: bad shape, skipping"));
    assert!(matches!(step, Step::Going { retry: false, .. }));
    let step = race.first_try("two", None, false, net("down"));
    assert_eq!(line(&step), Some("two failed: down, waiting for retries"));
    assert!(matches!(step, Step::Going { retry: false, .. }));
    assert_eq!(
        race.finish().message(),
        "network error: all lanes failed: one: bad shape; two: down"
    );
}

#[test]
fn retries_log_each_attempt_and_report_the_last_error() {
    assert_eq!(retrying_line("one", "20ms"), "retrying one in 20ms");
    match retry_step("one", net("HTTP 429")) {
        RetryStep::Again { log, why } => {
            assert_eq!(log, "retry of one failed: HTTP 429");
            assert_eq!(why, "HTTP 429");
        }
        _ => panic!("expected another retry"),
    }
    match retry_step("one", parse("bad shape")) {
        RetryStep::GiveUp { log, done } => {
            assert_eq!(log, "retry of one failed: bad shape, giving up");
            assert!(matches!(done, Event::Done(ref n, Err(Error::Parse(ref m))) if n == "one" && m == "bad shape"));
        }
        _ => panic!("expected to give up"),
    }
    assert!(matches!(retry_step("one", Ok(ok("x"))), RetryStep::Won(_)));
}

#[test]
fn absorbed_events_drive_the_race_to_its_end() {
    let mut race = Race::new();
    race.first_try("one", Some("two"), true, net("HTTP 429"));
    race.first_try("two", None, true, parse("bad shape"));
    let step = race.absorb(Event::Log("retrying one in 20ms".to_string()));
    assert_eq!(line(&step), Some("retrying one in 20ms"));
    let step = race.absorb(retries_exhausted("one", "HTTP 429".to_string()));
    assert_eq!(line(&step), None);
    assert_eq!(
        race.finish().message(),
        "network error: all lanes failed: two: bad shape; one: HTTP 429"
    );
    match race.absorb(Event::Done("one".to_string(), Ok(ok("retried")))) {
        Step::Won(t) => assert_eq!(t.primary, "retried"),
        _ => panic!("expected a win"),
    }
}

#[test]
fn the_deadline_is_listed_last() {
    let mut race = Race::new();
    race.first_try("one", None, true, net("HTTP 429"));
    race.deadline("50ms");
    assert_eq!(
        race.finish().message(),
        "network error: all lanes failed: deadline of 50ms reached"
    );
}

#[test]
fn reasons_drop_the_kind_prefix_of_network_and_parse_errors() {
    assert_eq!(reason(&Error::Network("x".to_string())), "x");
    assert_eq!(reason(&Error::Parse("y".to_string())), "y");
    assert_eq!(reason(&Error::Config("z".to_string())), "config error: z");
}

#[test]
fn lanes_go_in_order_and_retries_follow_the_delays() {
    assert_eq!(next_lane(0, 8), Some(0));
    assert_eq!(next_lane(7, 8), Some(7));
    assert_eq!(next_lane(8, 8), None);
    assert_eq!(next_retry(0, 2), Some(0));
    assert_eq!(next_retry(1, 2), Some(1));
    assert_eq!(next_retry(2, 2), None);
    assert_eq!(next_retry(0, 0), None);
}
