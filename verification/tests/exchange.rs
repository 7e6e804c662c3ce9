use potency::exchange::{Action, Event, Exchange, Phase};

type Call = Exchange<u32, String, &'static str>;
type Told = Event<u32, String, &'static str>;
type Asked = Action<u32, String, &'static str>;

fn fetching() -> Call {
    let (exchange, _) = Call::begin();
    exchange.step(Told::SessionAcquired).unwrap().0
}

fn computing() -> Call {
    fetching().step(Told::Fetched(Ok(None))).unwrap().0
}

fn encoding() -> Call {
    computing().step(Told::Computed(Ok(6))).unwrap().0
}

fn storing() -> Call {
    encoding().step(Told::Encoded(Ok("6".to_string()))).unwrap().0
}

#[test]
fn a_call_begins_by_acquiring_the_session() {
    let (exchange, action) = Call::begin();
    assert_eq!(Phase::Acquiring, exchange.phase);
    assert_eq!(Asked::AcquireSession, action);
}

#[test]
fn with_the_session_the_entry_is_fetched() {
    let (exchange, _) = Call::begin();
    let (exchange, action) = exchange.step(Told::SessionAcquired).unwrap();
    assert_eq!(Phase::Fetching, exchange.phase);
    assert_eq!(Asked::Fetch, action);
}

#[test]
fn a_failed_fetch_ends_the_call() {
    let (exchange, action) = fetching().step(Told::Fetched(Err("io"))).unwrap();
    assert_eq!(Phase::Finished, exchange.phase);
    assert_eq!(Asked::Finish(Err("io")), action);
}

#[test]
fn an_entry_is_decoded_and_returned() {
    let (exchange, action) = fetching()
        .step(Told::Fetched(Ok(Some("6".to_string()))))
        .unwrap();
    assert_eq!(Phase::Decoding, exchange.phase);
    assert_eq!(Asked::Decode("6".to_string()), action);
    let (exchange, action) = exchange.step(Told::Decoded(Ok(6))).unwrap();
    assert_eq!(Phase::Finished, exchange.phase);
    assert_eq!(Asked::Finish(Ok(6)), action);
}

#[test]
fn a_failed_decode_ends_the_call() {
    let (exchange, _) = fetching()
        .step(Told::Fetched(Ok(Some("x".to_string()))))
        .unwrap();
    let (exchange, action) = exchange.step(Told::Decoded(Err("not a number"))).unwrap();
    assert_eq!(Phase::Finished, exchange.phase);
    assert_eq!(Asked::Finish(Err("not a number")), action);
}

#[test]
fn without_an_entry_the_computation_runs() {
    let (exchange, action) = fetching().step(Told::Fetched(Ok(None))).unwrap();
    assert_eq!(Phase::Computing, exchange.phase);
    assert_eq!(Asked::Compute, action);
}

#[test]
fn a_failed_computation_ends_the_call_without_a_store() {
    let (exchange, action) = computing().step(Told::Computed(Err("boom"))).unwrap();
    assert_eq!(Phase::Finished, exchange.phase);
    assert_eq!(Asked::Finish(Err("boom")), action);
}

#[test]
fn a_computed_value_is_encoded() {
    let (exchange, action) = computing().step(Told::Computed(Ok(6))).unwrap();
    assert_eq!(Phase::Encoding { value: 6 }, exchange.phase);
    assert_eq!(Asked::Encode, action);
    assert_eq!(Some(&6), exchange.pending());
}

#[test]
fn a_failed_encoding_ends_the_call_without_a_store() {
    let (exchange, action) = encoding().step(Told::Encoded(Err("cannot write"))).unwrap();
    assert_eq!(Phase::Finished, exchange.phase);
    assert_eq!(Asked::Finish(Err("cannot write")), action);
}

#[test]
fn an_encoded_value_is_stored() {
    let (exchange, action) = encoding().step(Told::Encoded(Ok("6".to_string()))).unwrap();
    assert_eq!(Phase::Storing { value: 6 }, exchange.phase);
    assert_eq!(Asked::Store("6".to_string()), action);
}

#[test]
fn a_stored_value_is_returned() {
    let (exchange, action) = storing().step(Told::Stored(Ok(()))).unwrap();
    assert_eq!(Phase::Finished, exchange.phase);
    assert_eq!(Asked::Finish(Ok(6)), action);
}

#[test]
fn a_failed_store_ends_the_call() {
    let (exchange, action) = storing().step(Told::Stored(Err("disk full"))).unwrap();
    assert_eq!(Phase::Finished, exchange.phase);
    assert_eq!(Asked::Finish(Err("disk full")), action);
}

#[test]
fn nothing_waits_to_be_encoded_outside_that_phase() {
    assert_eq!(None, Call::begin().0.pending());
    assert_eq!(None, fetching().pending());
    assert_eq!(None, computing().pending());
    assert_eq!(None, storing().pending());
}

#[test]
fn an_event_out_of_turn_is_refused() {
    assert!(Call::begin().0.step(Told::Fetched(Ok(None))).is_none());
    assert!(fetching().step(Told::SessionAcquired).is_none());
    assert!(fetching().step(Told::Computed(Ok(1))).is_none());
    assert!(computing().step(Told::Stored(Ok(()))).is_none());
    assert!(computing().step(Told::Decoded(Ok(1))).is_none());
    assert!(encoding().step(Told::Computed(Ok(1))).is_none());
    assert!(storing().step(Told::Encoded(Ok("1".to_string()))).is_none());
}

#[test]
fn a_finished_call_takes_no_more_events() {
    let (finished, _) = storing().step(Told::Stored(Ok(()))).unwrap();
    assert!(finished.step(Told::SessionAcquired).is_none());
    let (finished, _) = computing().step(Told::Computed(Err("boom"))).unwrap();
    assert!(finished.step(Told::Computed(Ok(1))).is_none());
}
