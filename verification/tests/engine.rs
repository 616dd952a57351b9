use coroutine::asymmetric::panic_report;
use coroutine::asymmetric::Coroutine;
use coroutine::error::Error;
use coroutine::options::Options;
use coroutine::options::DEFAULT_STACK_SIZE;
use coroutine::record::Exit;
use coroutine::record::ForceUnwind;
use coroutine::record::State;
use coroutine::stack::AllocError;
use coroutine::stack::StackPool;

type Adder = Coroutine<&'static str, i32, String>;

fn small() -> Options {
    Options::new().stack_size(16384)
}

fn spawn_small(pool: &mut StackPool) -> Adder {
    Coroutine::spawn_opts("body", small(), pool).unwrap()
}

/// One resume of a coroutine whose body has ended, as the two sides play it.
fn resume_ended(co: &mut Adder, sent: Option<i32>) -> Result<Option<i32>, Error<String>> {
    if let Some(v) = sent {
        co.resume_with(v);
    }
    co.park();
    co.resume()
}

#[test]
fn a_new_coroutine_is_created_and_holds_nothing() {
    let mut pool = StackPool::new();
    let mut co = spawn_small(&mut pool);
    assert_eq!(co.state(), State::Created);
    assert_eq!(co.name(), None);
    assert_eq!(co.stack().map(|s| s.size()), Some(16384));
    assert_eq!(co.take_data(), None);
    assert!(co.switch_in().is_none());
    assert!(co.switch_out().is_none());
}

#[test]
fn spawn_uses_the_default_options() {
    let mut pool = StackPool::new();
    let co: Adder = Coroutine::spawn("body", &mut pool).unwrap();
    assert_eq!(co.stack().map(|s| s.size()), Some(DEFAULT_STACK_SIZE));
    assert_eq!(DEFAULT_STACK_SIZE, 2097152);
    assert_eq!(co.name(), None);
    assert_eq!(co.state(), State::Created);
}

#[test]
fn spawn_fails_only_with_the_allocator() {
    let mut pool = StackPool::new();
    let refused: Result<Adder, AllocError> =
        Coroutine::spawn_opts("body", Options::new().stack_size(usize::MAX), &mut pool);
    assert!(matches!(refused, Err(AllocError::ExceedsMaximumSize(_))));
}

#[test]
fn the_entry_function_is_handed_out_once() {
    let mut pool = StackPool::new();
    let mut co = spawn_small(&mut pool);
    assert_eq!(co.start(), Some("body"));
    assert_eq!(co.state(), State::Running);
    assert_eq!(co.start(), None);
    assert_eq!(co.state(), State::Running);
    assert_eq!(co.finish(Exit::Returned), None);
    assert_eq!(co.start(), None);
    assert_eq!(co.state(), State::Finished);
}

#[test]
fn the_adder_answers_each_value_with_its_successor() {
    let mut pool = StackPool::new();
    let mut co = spawn_small(&mut pool);

    // resume(): the body is entered and yields at once, with nothing to add to.
    assert!(co.start().is_some());
    assert_eq!(co.resume(), Ok(None));

    for sent in [1, 2, 3] {
        co.resume_with(sent);
        // The body wakes, adds one and yields the sum.
        let seen = co.yield_back();
        assert_eq!(seen, Ok(Some(sent)));
        co.yield_with(seen.unwrap().unwrap() + 1);
        assert_eq!(co.resume(), Ok(Some(sent + 1)));
    }
    assert_eq!(co.state(), State::Running);
}

#[test]
fn a_body_that_returns_at_once_leaves_no_value() {
    let mut pool = StackPool::new();
    let mut co = spawn_small(&mut pool);
    assert!(co.start().is_some());
    assert_eq!(co.finish(Exit::Returned), None);
    assert_eq!(co.resume(), Ok(None));
    assert_eq!(co.state(), State::Finished);
    assert_eq!(resume_ended(&mut co, None), Ok(None));
    assert_eq!(resume_ended(&mut co, None), Ok(None));
}

#[test]
fn a_body_that_returns_on_a_sent_value_leaves_no_value() {
    let mut pool = StackPool::new();
    let mut co = spawn_small(&mut pool);
    co.resume_with(5);
    assert!(co.start().is_some());
    assert_eq!(co.finish(Exit::Returned), None);
    assert_eq!(co.resume(), Ok(None));
}

#[test]
fn exhaustion_is_permanent() {
    let mut pool = StackPool::new();
    let mut co = spawn_small(&mut pool);
    co.start();
    co.finish(Exit::Returned);
    assert_eq!(co.resume(), Ok(None));
    for round in 0..10 {
        let sent = if round % 2 == 0 { Some(round) } else { None };
        assert_eq!(resume_ended(&mut co, sent), Ok(None));
        assert_eq!(co.state(), State::Finished);
    }
}

#[test]
fn values_are_seen_once_and_in_order() {
    let mut pool = StackPool::new();
    let mut co = spawn_small(&mut pool);
    co.start();
    assert_eq!(co.resume(), Ok(None));
    let sent = [7, -3, 0, 7, 1000];
    let replies = [Some(1), None, Some(-1), None, Some(0)];
    for i in 0..sent.len() {
        co.resume_with(sent[i]);
        assert_eq!(co.yield_back(), Ok(Some(sent[i])));
        // A second look finds nothing: the value was taken.
        assert_eq!(co.take_data(), None);
        if let Some(w) = replies[i] {
            co.yield_with(w);
        }
        assert_eq!(co.resume(), Ok(replies[i]));
    }
}

#[test]
fn a_plain_resume_wakes_the_body_with_no_value() {
    let mut pool = StackPool::new();
    let mut co = spawn_small(&mut pool);
    co.start();
    assert_eq!(co.resume(), Ok(None));
    assert_eq!(co.yield_back(), Ok(None));
    assert_eq!(co.resume(), Ok(None));
}

#[test]
fn the_value_of_the_first_resume_is_there_to_take() {
    let mut pool = StackPool::new();
    let mut co = spawn_small(&mut pool);
    co.resume_with(41);
    assert!(co.start().is_some());
    assert_eq!(co.take_data(), Some(41));
    assert_eq!(co.take_data(), None);
    co.yield_with(42);
    assert_eq!(co.resume(), Ok(Some(42)));
}

#[test]
fn a_resumer_is_not_handed_back_its_own_first_value() {
    let mut pool = StackPool::new();
    let mut co = spawn_small(&mut pool);
    co.resume_with(7);
    assert!(co.start().is_some());
    // The body yields at once, without taking what it was entered with.
    assert_eq!(co.resume(), Ok(None));
    // The value is still the body's to take, once.
    co.resume_with(8);
    assert_eq!(co.yield_back(), Ok(Some(8)));
    assert_eq!(co.take_data(), Some(7));
    assert_eq!(co.take_data(), None);
    assert_eq!(co.resume(), Ok(None));
}

#[test]
fn a_first_value_that_is_never_taken_never_reaches_the_resumer() {
    let mut pool = StackPool::new();
    let mut co = spawn_small(&mut pool);
    co.resume_with(7);
    co.start();
    assert_eq!(co.resume(), Ok(None));
    assert_eq!(co.yield_back(), Ok(None));
    co.yield_with(1);
    assert_eq!(co.resume(), Ok(Some(1)));
    assert_eq!(co.yield_back(), Ok(None));
    co.finish(Exit::Returned);
    assert_eq!(co.resume(), Ok(None));
    assert_eq!(resume_ended(&mut co, None), Ok(None));
}

#[test]
fn a_resumer_is_not_handed_back_what_it_sent_to_an_unwinding_body() {
    let mut pool = StackPool::new();
    let mut co = spawn_small(&mut pool);
    co.start();
    assert!(co.force_unwind());
    co.resume_with(3);
    assert_eq!(co.yield_back(), Err(ForceUnwind));
    // The body yields once more on its way out.
    assert_eq!(co.resume(), Ok(None));
}

#[test]
fn a_later_value_replaces_one_that_was_not_taken() {
    let mut pool = StackPool::new();
    let mut co = spawn_small(&mut pool);
    co.start();
    co.resume_with(1);
    co.resume_with(2);
    assert_eq!(co.yield_back(), Ok(Some(2)));
}

#[test]
fn a_failure_is_delivered_once_and_then_the_sentinel() {
    let mut pool = StackPool::new();
    let mut co = spawn_small(&mut pool);
    co.start();
    assert_eq!(co.resume(), Ok(None));

    co.resume_with(1);
    assert_eq!(co.yield_back(), Ok(Some(1)));
    let report = co.finish(Exit::Panicked {
        payload: String::from("boom"),
        message: Some(String::from("boom")),
    });
    assert_eq!(
        report,
        Some(String::from("Coroutine '<unnamed>' panicked at 'boom'"))
    );
    assert_eq!(co.state(), State::Finished);
    assert_eq!(co.resume(), Err(Error::Panicking(String::from("boom"))));

    for sent in [None, Some(3), None, Some(4)] {
        assert_eq!(resume_ended(&mut co, sent), Err(Error::Panicked));
        assert_eq!(co.state(), State::Finished);
    }
}

#[test]
fn a_failure_replaces_a_value_that_was_not_taken() {
    let mut pool = StackPool::new();
    let mut co = spawn_small(&mut pool);
    co.resume_with(9);
    co.start();
    co.finish(Exit::Panicked { payload: String::from("p"), message: None });
    assert_eq!(co.resume(), Err(Error::Panicking(String::from("p"))));
}

#[test]
fn a_failure_in_the_slot_is_not_the_bodys_to_take() {
    let mut pool = StackPool::new();
    let mut co = spawn_small(&mut pool);
    co.start();
    co.finish(Exit::Panicked { payload: String::from("p"), message: None });
    assert_eq!(co.take_data(), None);
    assert_eq!(co.yield_back(), Ok(None));
    assert_eq!(co.resume(), Err(Error::Panicking(String::from("p"))));
    assert_eq!(co.resume(), Ok(None));
}

#[test]
fn the_report_names_the_coroutine_and_the_message() {
    let mut pool = StackPool::new();
    let opts = small().name(String::from("worker"));
    let mut co: Adder = Coroutine::spawn_opts("body", opts, &mut pool).unwrap();
    assert_eq!(co.name(), Some("worker"));
    co.start();
    let report = co.finish(Exit::Panicked { payload: String::from("x"), message: None });
    assert_eq!(
        report,
        Some(String::from("Coroutine 'worker' panicked at 'Box<Any>'"))
    );
}

#[test]
fn the_report_line_is_exact() {
    assert_eq!(
        panic_report(Some("a"), Some("b")),
        "Coroutine 'a' panicked at 'b'"
    );
    assert_eq!(
        panic_report(None, Some("index out of bounds")),
        "Coroutine '<unnamed>' panicked at 'index out of bounds'"
    );
    assert_eq!(
        panic_report(Some("a"), None),
        "Coroutine 'a' panicked at 'Box<Any>'"
    );
    assert_eq!(
        panic_report(None, None),
        "Coroutine '<unnamed>' panicked at 'Box<Any>'"
    );
    assert_eq!(panic_report(Some(""), Some("")), "Coroutine '' panicked at ''");
}

#[test]
fn a_coroutine_is_shown_by_its_name() {
    let mut pool = StackPool::new();
    let named: Adder =
        Coroutine::spawn_opts("body", small().name(String::from("gen")), &mut pool).unwrap();
    assert_eq!(named.to_string(), "Coroutine(gen)");
    let unnamed = spawn_small(&mut pool);
    assert_eq!(unnamed.to_string(), "Coroutine(<unnamed>)");
}

#[test]
fn an_abandoned_body_is_unwound_before_its_stack_is_reclaimed() {
    let mut pool = StackPool::new();
    let mut co = spawn_small(&mut pool);
    let mut cleanups = 0;

    co.start();
    assert_eq!(co.resume(), Ok(None));

    // The owner lets go while the body is parked in a yield.
    assert!(co.force_unwind());
    assert_eq!(co.state(), State::ForceUnwind);
    co.resume_with(5);
    // The body wakes to the signal, not to a value, and cleans up as it unwinds.
    match co.yield_back() {
        Err(ForceUnwind) => cleanups += 1,
        Ok(_) => panic!("the body went on instead of unwinding"),
    }
    assert_eq!(co.finish(Exit::Unwound), None);
    assert_eq!(co.resume(), Ok(None));
    assert_eq!(co.state(), State::Finished);
    assert_eq!(cleanups, 1);

    co.reclaim(&mut pool);
    assert_eq!(pool.len(), 1);
    assert!(co.stack().is_none());
}

#[test]
fn the_signal_to_unwind_is_seen_at_every_wake() {
    let mut pool = StackPool::new();
    let mut co = spawn_small(&mut pool);
    co.start();
    assert!(co.force_unwind());
    assert_eq!(co.yield_back(), Err(ForceUnwind));
    assert_eq!(co.yield_back(), Err(ForceUnwind));
    assert!(!co.force_unwind());
    assert_eq!(co.state(), State::ForceUnwind);
}

#[test]
fn only_a_running_body_is_asked_to_unwind() {
    let mut pool = StackPool::new();
    let mut created = spawn_small(&mut pool);
    assert!(!created.force_unwind());
    assert_eq!(created.state(), State::Created);

    let mut finished = spawn_small(&mut pool);
    finished.start();
    finished.finish(Exit::Returned);
    assert!(!finished.force_unwind());
    assert_eq!(finished.state(), State::Finished);

    let mut failed = spawn_small(&mut pool);
    failed.start();
    failed.finish(Exit::Panicked { payload: String::from("p"), message: None });
    assert!(!failed.force_unwind());
    assert_eq!(failed.resume(), Err(Error::Panicking(String::from("p"))));
}

#[test]
fn a_failure_while_unwinding_is_captured_like_any_other() {
    let mut pool = StackPool::new();
    let mut co = spawn_small(&mut pool);
    co.start();
    assert!(co.force_unwind());
    assert_eq!(co.yield_back(), Err(ForceUnwind));
    let report = co.finish(Exit::Panicked {
        payload: String::from("late"),
        message: Some(String::from("late")),
    });
    assert!(report.is_some());
    assert_eq!(co.resume(), Err(Error::Panicking(String::from("late"))));
}

#[test]
fn a_stack_makes_the_round_trip_through_the_pool() {
    let mut pool = StackPool::new();
    let mut first: Adder =
        Coroutine::spawn_opts("body", Options::new().stack_size(40000), &mut pool).unwrap();
    assert_eq!(pool.len(), 0);
    first.start();
    first.finish(Exit::Returned);
    assert_eq!(first.resume(), Ok(None));
    assert!(!first.force_unwind());
    first.reclaim(&mut pool);
    assert_eq!(pool.len(), 1);

    let second: Adder =
        Coroutine::spawn_opts("body", Options::new().stack_size(40000), &mut pool).unwrap();
    assert_eq!(pool.len(), 0);
    assert_eq!(second.stack().map(|s| s.size()), Some(40000));

    // A smaller request is served by the idle segment as well.
    let mut second = second;
    second.reclaim(&mut pool);
    let third: Adder =
        Coroutine::spawn_opts("body", Options::new().stack_size(100), &mut pool).unwrap();
    assert_eq!(pool.len(), 0);
    assert_eq!(third.stack().map(|s| s.size()), Some(40000));
}

#[test]
fn a_stack_with_a_suspended_body_is_not_reclaimed() {
    let mut pool = StackPool::new();
    let mut co = spawn_small(&mut pool);
    co.start();
    assert_eq!(co.resume(), Ok(None));
    assert_eq!(co.state(), State::Running);

    co.reclaim(&mut pool);
    assert_eq!(pool.len(), 0);
    assert_eq!(co.stack().map(|s| s.size()), Some(16384));
    assert_eq!(co.state(), State::Running);

    assert!(co.force_unwind());
    co.reclaim(&mut pool);
    assert_eq!(pool.len(), 0);
    assert_eq!(co.stack().map(|s| s.size()), Some(16384));
    assert_eq!(co.state(), State::ForceUnwind);

    assert_eq!(co.yield_back(), Err(ForceUnwind));
    co.finish(Exit::Unwound);
    assert_eq!(co.resume(), Ok(None));
    co.reclaim(&mut pool);
    assert_eq!(pool.len(), 1);
    assert!(co.stack().is_none());
}

#[test]
fn a_coroutine_that_was_never_entered_gives_its_stack_back() {
    let mut pool = StackPool::new();
    let mut co = spawn_small(&mut pool);
    assert_eq!(co.state(), State::Created);
    co.reclaim(&mut pool);
    assert_eq!(pool.len(), 1);
    assert!(co.stack().is_none());
}

#[test]
fn a_failed_coroutine_gives_its_stack_back() {
    let mut pool = StackPool::new();
    let mut co = spawn_small(&mut pool);
    co.start();
    co.finish(Exit::Panicked { payload: String::from("p"), message: None });
    co.reclaim(&mut pool);
    assert_eq!(pool.len(), 1);
}

#[test]
fn reclaiming_twice_gives_the_stack_back_once() {
    let mut pool = StackPool::new();
    let mut co = spawn_small(&mut pool);
    co.reclaim(&mut pool);
    co.reclaim(&mut pool);
    assert_eq!(pool.len(), 1);
    assert!(co.switch_in().is_none());
}

#[test]
fn the_produced_values_read_as_a_sequence() {
    let mut pool = StackPool::new();
    let mut co = spawn_small(&mut pool);
    co.start();
    let mut items = Vec::new();
    for v in [10, 20, 30] {
        co.yield_with(v);
        match co.next() {
            Some(item) => items.push(item),
            None => panic!("the sequence ended early"),
        }
        assert_eq!(co.yield_back(), Ok(None));
    }
    co.finish(Exit::Returned);
    assert_eq!(co.next(), None);
    co.park();
    assert_eq!(co.next(), None);
    assert_eq!(items, vec![Ok(10), Ok(20), Ok(30)]);
}

#[test]
fn a_failure_is_one_item_of_the_sequence() {
    let mut pool = StackPool::new();
    let mut co = spawn_small(&mut pool);
    co.start();
    co.yield_with(1);
    assert_eq!(co.next(), Some(Ok(1)));
    co.finish(Exit::Panicked { payload: String::from("p"), message: None });
    assert_eq!(co.next(), Some(Err(Error::Panicking(String::from("p")))));
    co.park();
    assert_eq!(co.next(), None);
    for sent in [None, Some(2), None] {
        if let Some(v) = sent {
            co.resume_with(v);
        }
        co.park();
        assert_eq!(co.next(), None);
    }
    // A plain resume still tells that the body failed earlier.
    assert_eq!(resume_ended(&mut co, None), Err(Error::Panicked));
}

#[test]
fn the_sequence_of_a_failing_body_is_its_values_and_one_failure() {
    let mut pool = StackPool::new();
    let mut co = spawn_small(&mut pool);
    co.start();
    let mut items = Vec::new();
    // The body yields 1 and 2 and fails when it is resumed again.
    for step in 0..6 {
        match step {
            0 => co.yield_with(1),
            1 => {
                assert_eq!(co.yield_back(), Ok(None));
                co.yield_with(2);
            }
            2 => {
                assert_eq!(co.yield_back(), Ok(None));
                co.finish(Exit::Panicked { payload: String::from("p"), message: None });
            }
            _ => co.park(),
        }
        match co.next() {
            Some(item) => items.push(item),
            None => break,
        }
    }
    assert_eq!(
        items,
        vec![Ok(1), Ok(2), Err(Error::Panicking(String::from("p")))]
    );
}

#[test]
fn failures_describe_themselves() {
    let fresh: Error<String> = Error::Panicking(String::from("p"));
    let stale: Error<String> = Error::Panicked;
    assert_eq!(fresh.description(), "Panicking(..)");
    assert_eq!(stale.description(), "Panicked");
}
