use pingpong::delta::{fold_min, round_trip_delta};
use pingpong::exchange::{
    Action, Event, Initiator, InitiatorPhase, Responder, ResponderPhase, CHANNEL_CAPACITY,
    ROUND_TRIPS,
};
use pingpong::mode::{select_benchmark, Benchmark, UsageError};

fn words(ws: &[&str]) -> Vec<String> {
    ws.iter().map(|w| w.to_string()).collect()
}

#[test]
fn delta_without_wrap() {
    assert_eq!(round_trip_delta(100, 250), 150);
    assert_eq!(round_trip_delta(7, 7), 0);
}

#[test]
fn delta_across_wraparound() {
    assert_eq!(round_trip_delta(u64::MAX - 4, 3), 8);
    assert_eq!(round_trip_delta(u64::MAX, 0), 1);
}

#[test]
fn delta_of_reversed_readings_wraps() {
    assert_eq!(round_trip_delta(10, 4), u64::MAX - 5);
}

#[test]
fn fold_min_keeps_least() {
    assert_eq!(fold_min(u64::MAX, 42), 42);
    assert_eq!(fold_min(42, 43), 42);
    assert_eq!(fold_min(42, 42), 42);
}

#[test]
fn constants() {
    assert_eq!(ROUND_TRIPS, 10_000);
    assert_eq!(CHANNEL_CAPACITY, 10);
}

#[test]
fn select_sync_and_async() {
    assert_eq!(select_benchmark(&words(&["bench", "sync"])), Ok(Benchmark::Sync));
    assert_eq!(select_benchmark(&words(&["bench", "async"])), Ok(Benchmark::Async));
}

#[test]
fn select_with_no_argument() {
    assert_eq!(select_benchmark(&words(&["bench"])), Err(UsageError::WrongArgumentCount));
    assert_eq!(select_benchmark(&words(&[])), Err(UsageError::WrongArgumentCount));
}

#[test]
fn select_with_extra_arguments() {
    assert_eq!(
        select_benchmark(&words(&["bench", "sync", "async"])),
        Err(UsageError::WrongArgumentCount)
    );
    assert_eq!(
        select_benchmark(&words(&["bench", "sync", "x", "y"])),
        Err(UsageError::WrongArgumentCount)
    );
}

#[test]
fn select_unknown_name() {
    assert_eq!(select_benchmark(&words(&["bench", "Sync"])), Err(UsageError::UnknownBenchmark));
    assert_eq!(select_benchmark(&words(&["bench", ""])), Err(UsageError::UnknownBenchmark));
    assert_eq!(select_benchmark(&words(&["bench", "asyncx"])), Err(UsageError::UnknownBenchmark));
}

#[test]
fn usage_messages() {
    assert_eq!(
        UsageError::WrongArgumentCount.message(),
        "Usage: taskset 1 cargo run --release -- <async|sync>"
    );
    assert_eq!(
        UsageError::UnknownBenchmark.message(),
        "Invalid benchmark type. Use 'sync' or 'async'."
    );
}

#[test]
fn result_labels() {
    assert_eq!(Benchmark::Sync.label(), "Thread 2");
    assert_eq!(Benchmark::Async.label(), "Task 2");
}

/// Runs both participants against each other with a counter in place of the
/// hardware clock. Returns the values the responder received, the responder's
/// report, and the largest number of sends the initiator had in flight.
fn run_with_counter_clock() -> (Vec<u64>, Option<u64>, u64) {
    let mut ini = Initiator::new();
    let mut resp = Responder::new();
    let mut forward: Vec<u64> = Vec::new();
    let mut backward: Vec<u64> = Vec::new();
    let mut counter: u64 = 0;
    let mut received = Vec::new();
    let mut report = None;
    let mut max_in_flight = 0u64;
    let mut in_flight = 0u64;

    let mut ini_action = ini.step(Event::Start);
    let mut resp_action = resp.step(Event::Start);
    let mut ini_done = false;
    let mut resp_done = false;
    while !(ini_done && resp_done) {
        let mut progressed = false;
        if !ini_done {
            let ev = match ini_action {
                Action::ReadClock => {
                    let t = counter;
                    counter += 1;
                    Some(Event::Clock(t))
                }
                Action::Send(t) => {
                    forward.push(t);
                    in_flight += 1;
                    max_in_flight = max_in_flight.max(in_flight);
                    Some(Event::Sent)
                }
                Action::Receive => {
                    if backward.is_empty() {
                        None
                    } else {
                        in_flight -= 1;
                        Some(Event::Received(backward.remove(0)))
                    }
                }
                Action::Done => {
                    ini_done = true;
                    None
                }
                other => panic!("initiator asked for {:?}", other),
            };
            if let Some(e) = ev {
                ini_action = ini.step(e);
                progressed = true;
            }
        }
        if !resp_done {
            let ev = match resp_action {
                Action::Receive => {
                    if forward.is_empty() {
                        None
                    } else {
                        let v = forward.remove(0);
                        received.push(v);
                        Some(Event::Received(v))
                    }
                }
                Action::ReadClock => Some(Event::Clock(received[received.len() - 1] + 1)),
                Action::Send(t) => {
                    backward.push(t);
                    Some(Event::Sent)
                }
                Action::Report(m) => {
                    report = Some(m);
                    resp_done = true;
                    None
                }
                other => panic!("responder asked for {:?}", other),
            };
            if let Some(e) = ev {
                resp_action = resp.step(e);
                progressed = true;
            }
        }
        assert!(progressed || (ini_done && resp_done), "exchange stalled");
    }
    (received, report, max_in_flight)
}

#[test]
fn counter_exchange_strictly_alternates() {
    let (received, _, max_in_flight) = run_with_counter_clock();
    assert_eq!(received.len(), 10_000);
    for (i, v) in received.iter().enumerate() {
        assert_eq!(*v, i as u64);
    }
    assert_eq!(max_in_flight, 1);
}

#[test]
fn counter_exchange_reports_after_all_round_trips() {
    let (_, report, _) = run_with_counter_clock();
    assert_eq!(report, Some(1));
}

#[test]
fn responder_reports_minimum_of_all_samples() {
    let mut resp = Responder::new();
    assert_eq!(resp.step(Event::Start), Action::Receive);
    for i in 0..ROUND_TRIPS {
        assert_eq!(resp.step(Event::Received(1_000 * i)), Action::ReadClock);
        // deltas cycle through 50..=149, except one sample of 7 near the end
        let d = if i == 9_990 { 7 } else { 50 + i % 100 };
        let t_recv = 1_000 * i + d;
        assert_eq!(resp.step(Event::Clock(t_recv)), Action::Send(t_recv));
        let next = resp.step(Event::Sent);
        if i + 1 < ROUND_TRIPS {
            assert_eq!(next, Action::Receive);
        } else {
            assert_eq!(next, Action::Report(7));
        }
    }
    assert_eq!(resp.completed, ROUND_TRIPS);
    assert_eq!(resp.phase, ResponderPhase::Reported);
    assert_eq!(resp.step(Event::Sent), Action::Done);
}

#[test]
fn responder_measures_across_wraparound() {
    let mut resp = Responder::new();
    resp.step(Event::Start);
    resp.step(Event::Received(u64::MAX - 4));
    assert_eq!(resp.step(Event::Clock(3)), Action::Send(3));
    assert_eq!(resp.min_diff, 8);
}

#[test]
fn initiator_runs_exact_round_trips() {
    let mut ini = Initiator::new();
    assert_eq!(ini.step(Event::Start), Action::ReadClock);
    for i in 0..ROUND_TRIPS {
        assert_eq!(ini.step(Event::Clock(i)), Action::Send(i));
        assert_eq!(ini.step(Event::Sent), Action::Receive);
        let next = ini.step(Event::Received(i + 5));
        if i + 1 < ROUND_TRIPS {
            assert_eq!(next, Action::ReadClock);
        } else {
            assert_eq!(next, Action::Done);
        }
    }
    assert_eq!(ini.completed, ROUND_TRIPS);
    assert_eq!(ini.phase, InitiatorPhase::Finished);
}

#[test]
fn initiator_aborts_when_peer_closed() {
    let mut ini = Initiator::new();
    ini.step(Event::Start);
    ini.step(Event::Clock(1));
    assert_eq!(ini.step(Event::ChannelClosed), Action::Abort);
    assert_eq!(ini.phase, InitiatorPhase::Failed);
    assert_eq!(ini.step(Event::Sent), Action::Abort);
    assert_eq!(ini.step(Event::Received(3)), Action::Abort);
}

#[test]
fn responder_aborts_when_peer_closed() {
    let mut resp = Responder::new();
    resp.step(Event::Start);
    assert_eq!(resp.step(Event::ChannelClosed), Action::Abort);
    assert_eq!(resp.phase, ResponderPhase::Failed);
    assert_eq!(resp.step(Event::Received(3)), Action::Abort);
}

#[test]
fn unexpected_event_aborts() {
    let mut ini = Initiator::new();
    assert_eq!(ini.step(Event::Sent), Action::Abort);
    let mut resp = Responder::new();
    resp.step(Event::Start);
    assert_eq!(resp.step(Event::Clock(4)), Action::Abort);
}
