use std::cell::Cell;
use std::time::{Duration, Instant};

use potency::cpu_store::CpuStore;
use potency::exchange::{Action, Event, Exchange};
use potency::json::{AsJson, JsonDeserialized, JsonError, JsonSerialized};
use potency::key::join_strings;
use potency::{fetch_or_else, AsKey, DeserializeFrom, IsStore, SerializeTo, Store};

/// A value of three parts, the middle one a float, with serde's JSON form of
/// the tuple of the three.
#[derive(Debug, PartialEq, Clone)]
struct Triple(u32, f32, String);

impl AsJson for Triple {
    fn to_json(&self) -> Result<serde_json::Value, serde_json::Error> {
        serde_json::to_value((self.0, self.1, self.2.clone()))
    }

    fn from_json(value: serde_json::Value) -> Result<Self, serde_json::Error> {
        let (a, b, c): (u32, f32, String) = serde_json::from_value(value)?;
        Ok(Triple(a, b, c))
    }
}

/// A float as a parameter of a cached call, rendered as the float prints.
struct Float(f32);

impl AsKey for Float {
    fn as_key(&self) -> String {
        self.0.to_string()
    }
}

/// Drives one cached call whose computation is a pending operation.
async fn run_async<O, Fut>(
    session: &mut CpuStore,
    key: &str,
    f: impl FnOnce() -> Fut,
) -> Result<O, JsonError>
where
    O: AsJson,
    Fut: std::future::Future<Output = Result<O, JsonError>>,
{
    let mut f = Some(f);
    let (mut exchange, mut action) =
        Exchange::<JsonDeserialized<O>, JsonSerialized, JsonError>::begin();
    loop {
        let event = match action {
            Action::AcquireSession => Event::SessionAcquired,
            Action::Fetch => Event::Fetched(session.fetch_serialized_by_key(key)),
            Action::Decode(stored) => {
                Event::Decoded(JsonDeserialized::<O>::try_from_store_value(stored))
            }
            Action::Compute => {
                let compute = f.take().expect("the computation runs at most once");
                Event::Computed(compute().await.map(JsonDeserialized))
            }
            Action::Encode => {
                let value = exchange.pending().expect("a value waits to be encoded");
                Event::Encoded(value.try_into_store_value())
            }
            Action::Store(encoded) => Event::Stored(session.store_serialized_by_key(key, encoded)),
            Action::Finish(outcome) => return outcome.map(|value| value.0),
        };
        match exchange.step(event) {
            Some((next, then)) => {
                exchange = next;
                action = then;
            }
            None => panic!("the event answers the pending action"),
        }
    }
}

async fn wait(millis_to_wait: u32) {
    smol::Timer::after(Duration::from_millis(millis_to_wait as u64)).await;
}

async fn test_function(millis_to_wait: u32, string: String) -> Result<String, JsonError> {
    wait(millis_to_wait).await;
    Ok(format!("{millis_to_wait} {string}"))
}

#[test]
fn cpu_store_sanity() {
    smol::block_on(async {
        let mut store = CpuStore::new();
        {
            let maybe_value = store.fetch_serialized_by_key("hello").unwrap();
            assert_eq!(None, maybe_value);

            let value = JsonDeserialized(Triple(0u32, 1.0f32, "goodbye".to_string()));
            let result: Result<JsonSerialized, JsonError> = value.try_into_store_value();
            let store_value = result.unwrap();
            store
                .store_serialized_by_key("hello", store_value)
                .unwrap();

            let stored = store.fetch_serialized_by_key("hello").unwrap().unwrap();
            let result: Result<JsonDeserialized<Triple>, JsonError> =
                JsonDeserialized::try_from_store_value(stored);

            let stored_value = result.unwrap();
            assert_eq!(value.0, stored_value.0);
        }

        let key = join_strings(&vec!["the".to_string(), "key".to_string()], ",");
        let millis_to_wait = 500;
        let input_string = "To each their own.".to_string();
        let start = Instant::now();
        let output_string = run_async(&mut store, &key, || {
            test_function(millis_to_wait, input_string.clone())
        })
        .await
        .unwrap();
        let elapsed = start.elapsed();
        assert_eq!("500 To each their own.", &output_string);
        assert!(elapsed.as_millis() >= 500);

        let start = Instant::now();
        let _output_string = run_async(&mut store, &key, || {
            test_function(millis_to_wait, input_string)
        })
        .await
        .unwrap();
        let elapsed = start.elapsed();
        assert!(
            elapsed.as_millis() < 500,
            "elapsed: {}",
            elapsed.as_millis()
        );
    });
}

async fn test_async_function_no_params_no_return() -> Result<(), JsonError> {
    println!("done!");
    Ok(())
}

async fn test_async_function_one_param_string(name: String) -> Result<String, JsonError> {
    Ok(format!(
        "{name} - this is a test of the emergency pants system",
    ))
}

async fn test_async_function_one_param_string_2(millis_to_wait: u32) -> Result<String, JsonError> {
    wait(millis_to_wait).await;
    Ok(format!(
        "{millis_to_wait} - this is a timed test of the emergency pants system"
    ))
}

fn test_function_three_params_string(a: Float, b: u32, c: String) -> Result<String, JsonError> {
    Ok(format!("({}, {b}, {c})", a.0))
}

#[test]
fn builder_sanity() {
    smol::block_on(async {
        let mut session = CpuStore::new();
        let store = Store::new(());
        {
            let store = store.namespace("async-param0");
            let (_, key, _input, pair) = store
                .entry_async(test_async_function_no_params_no_return)
                .into_parts();
            assert_eq!("async-param0", key);
            let f = pair.into_function();
            run_async(&mut session, &key, f).await.unwrap();
        }

        {
            let store = store.namespace("async-param1-andparam2");
            let builder = store
                .entry_async(test_async_function_one_param_string)
                .param("Bill".to_string());
            let (_, key, input, pair) = builder.into_parts();
            assert_eq!("async-param1-andparam2,Bill", key);
            let f = pair.into_function();
            run_async(&mut session, &key, || f(input.0)).await.unwrap();

            let (_, key, input, pair) = store
                .entry_async(test_async_function_one_param_string_2)
                .param(300u32)
                .into_parts();
            assert_eq!("async-param1-andparam2,300", key);
            let f = pair.into_function();
            run_async(&mut session, &key, || f(input.0)).await.unwrap();
        }

        {
            let store = store.namespace("sync-param3");
            let result = store
                .entry(test_function_three_params_string)
                .param(Float(69.0f32))
                .param(666u32)
                .param("Late Night".to_string())
                .run_with(&mut session)
                .unwrap();
            assert_eq!("(69, 666, Late Night)", &result);
        }
    });
}

#[test]
fn second_call_is_a_hit() {
    let mut session = CpuStore::new();
    let calls = Cell::new(0u32);
    let compute = || -> Result<String, JsonError> {
        calls.set(calls.get() + 1);
        Ok("500 hello".to_string())
    };
    let first = fetch_or_else(&mut session, "500,hello", compute).unwrap();
    assert_eq!("500 hello", first);
    assert_eq!(1, calls.get());
    let second = fetch_or_else(&mut session, "500,hello", compute).unwrap();
    assert_eq!("500 hello", second);
    assert_eq!(1, calls.get());
}
