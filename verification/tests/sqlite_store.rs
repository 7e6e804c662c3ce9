use std::cell::Cell;

use potency::exchange::{Action, Event, Exchange};
use potency::json::{AsJson, JsonDeserialized, JsonError, JsonSerialized};
use potency::sqlite_store::{
    insert, read_row, select, Bound, SqliteError, CREATE_TABLE, INSERT_ENTRY, SELECT_VALUE,
};
use potency::{fetch_or_else, DeserializeFrom, IsStore, SerializeTo, Store};

/// A held session of a sqlite database with the store's table in it.
struct SqliteSession {
    connection: sqlite::Connection,
}

impl SqliteSession {
    fn open(path: &str) -> Result<Self, SqliteError> {
        let connection = sqlite::Connection::open_with_flags(
            path,
            sqlite::OpenFlags::default().with_create().with_read_write(),
        )?;
        connection.execute(CREATE_TABLE)?;
        Ok(SqliteSession { connection })
    }
}

impl SqliteSession {
    fn prepare(&self, bound: &Bound) -> Result<sqlite::Statement<'_>, SqliteError> {
        let mut statement = self.connection.prepare(bound.statement)?;
        for (name, text) in bound.parameters.iter() {
            statement.bind((*name, text.as_str()))?;
        }
        Ok(statement)
    }
}

impl IsStore for SqliteSession {
    type Error = SqliteError;
    type StoreValue = JsonSerialized;

    fn fetch_serialized_by_key(&self, key: &str) -> Result<Option<JsonSerialized>, SqliteError> {
        let mut statement = self.prepare(&select(key))?;
        let row = match statement.next()? {
            sqlite::State::Row => Some(statement.read::<String, _>("value")?),
            sqlite::State::Done => None,
        };
        read_row(row)
    }

    fn store_serialized_by_key(
        &mut self,
        key: &str,
        serialized_value: JsonSerialized,
    ) -> Result<(), SqliteError> {
        let mut statement = self.prepare(&insert(key, &serialized_value)?)?;
        statement.next()?;
        Ok(())
    }
}

/// Drives one cached call whose computation is a pending operation.
async fn run_async<O, Fut>(
    session: &mut SqliteSession,
    key: &str,
    f: impl FnOnce() -> Fut,
) -> Result<O, SqliteError>
where
    O: AsJson,
    Fut: std::future::Future<Output = Result<O, SqliteError>>,
{
    let mut f = Some(f);
    let (mut exchange, mut action) =
        Exchange::<JsonDeserialized<O>, JsonSerialized, SqliteError>::begin();
    loop {
        let event = match action {
            Action::AcquireSession => Event::SessionAcquired,
            Action::Fetch => Event::Fetched(session.fetch_serialized_by_key(key)),
            Action::Decode(stored) => {
                Event::Decoded(JsonDeserialized::<O>::try_from_store_value(stored))
            }
            Action::Compute => {
                let compute = f.take().expect("the computation runs at most once");
                Event::Computed(compute().await.map(JsonDeserialized))
            }
            Action::Encode => {
                let value = exchange.pending().expect("a value waits to be encoded");
                Event::Encoded(value.try_into_store_value())
            }
            Action::Store(encoded) => Event::Stored(session.store_serialized_by_key(key, encoded)),
            Action::Finish(outcome) => return outcome.map(|value| value.0),
        };
        match exchange.step(event) {
            Some((next, then)) => {
                exchange = next;
                action = then;
            }
            None => panic!("the event answers the pending action"),
        }
    }
}

async fn three(a: u32, b: u32, c: u32) -> Result<u32, SqliteError> {
    Ok(a + b + c)
}

#[test]
fn sqlite_sanity() {
    smol::block_on(async {
        let mut session = match SqliteSession::open(":memory:") {
            Ok(s) => s,
            Err(e) => panic!("{e}", e = e.message()),
        };
        let store = Store::new(());
        let (_, key, input, pair) = store
            .entry_async(three)
            .param(1)
            .param(2)
            .param(3)
            .into_parts();
        let f = pair.into_function();
        let sum = run_async(&mut session, &key, || f(input.0, input.1, input.2))
            .await
            .unwrap();
        assert_eq!(6, sum);
    });
}

#[test]
fn sqlite_second_call_does_not_compute() {
    let mut session = SqliteSession::open(":memory:").unwrap();
    let store = Store::new(());
    let calls = Cell::new(0u32);
    let sum3 = |a: u32, b: u32, c: u32| -> Result<u32, SqliteError> {
        calls.set(calls.get() + 1);
        Ok(a + b + c)
    };
    let first = store
        .entry(sum3)
        .param(1u32)
        .param(2u32)
        .param(3u32)
        .run_with(&mut session)
        .unwrap();
    assert_eq!(6, first);
    assert_eq!(1, calls.get());
    let second = store
        .entry(sum3)
        .param(1u32)
        .param(2u32)
        .param(3u32)
        .run_with(&mut session)
        .unwrap();
    assert_eq!(6, second);
    assert_eq!(1, calls.get());
}

#[test]
fn sqlite_row_holds_key_and_json_text() {
    let mut session = SqliteSession::open(":memory:").unwrap();
    let value = fetch_or_else(&mut session, "a,b,1,x", || -> Result<String, SqliteError> {
        Ok("hello".to_string())
    })
    .unwrap();
    assert_eq!("hello", value);
    let mut statement = session
        .connection
        .prepare("SELECT key, value FROM potency")
        .unwrap();
    assert!(matches!(statement.next(), Ok(sqlite::State::Row)));
    assert_eq!("a,b,1,x", statement.read::<String, _>("key").unwrap());
    assert_eq!("\"hello\"", statement.read::<String, _>("value").unwrap());
    assert!(matches!(statement.next(), Ok(sqlite::State::Done)));
}

#[test]
fn sqlite_insert_under_a_key_that_is_there_fails() {
    let mut session = SqliteSession::open(":memory:").unwrap();
    let one = JsonSerialized::parse("1").unwrap();
    let two = JsonSerialized::parse("2").unwrap();
    session.store_serialized_by_key("k", one).unwrap();
    let again = session.store_serialized_by_key("k", two);
    assert!(matches!(again, Err(SqliteError::Sqlite { .. })));
    let kept = session.fetch_serialized_by_key("k").unwrap();
    assert_eq!(Some(JsonSerialized::parse("1").unwrap()), kept);
}

#[test]
fn sqlite_row_that_is_not_json_is_a_deserialize_error() {
    let session = SqliteSession::open(":memory:").unwrap();
    session
        .connection
        .execute("INSERT INTO potency (key, value) VALUES ('k', 'not json')")
        .unwrap();
    let fetched = session.fetch_serialized_by_key("k");
    assert!(matches!(
        fetched,
        Err(SqliteError::Json {
            source: JsonError::Deserialize { .. }
        })
    ));
}

#[test]
fn read_row_without_a_row_is_none() {
    assert_eq!(None, read_row(None).unwrap());
}

#[test]
fn read_row_parses_the_text() {
    let value = read_row(Some("[1,\"x\"]".to_string())).unwrap().unwrap();
    assert_eq!(serde_json::from_str::<serde_json::Value>("[1, \"x\"]").unwrap(), value.0);
}

#[test]
fn select_binds_the_key() {
    let bound = select("a,b,1,x");
    assert_eq!(SELECT_VALUE, bound.statement);
    assert_eq!("SELECT value FROM potency WHERE key = :key", bound.statement);
    assert_eq!(vec![(":key", "a,b,1,x".to_string())], bound.parameters);
}

#[test]
fn insert_binds_the_key_and_the_json_text() {
    let value = JsonSerialized(serde_json::Value::from(vec![1u32, 2u32]));
    let bound = insert("k", &value).unwrap();
    assert_eq!(INSERT_ENTRY, bound.statement);
    assert_eq!(
        "INSERT INTO potency (key, value) VALUES (:key, :value)",
        bound.statement
    );
    assert_eq!(
        vec![(":key", "k".to_string()), (":value", "[1,2]".to_string())],
        bound.parameters
    );
}

#[test]
fn sqlite_error_from_json_error() {
    let source = JsonSerialized::parse("{").unwrap_err();
    let error = SqliteError::from(source);
    assert!(matches!(
        error,
        SqliteError::Json {
            source: JsonError::Deserialize { .. }
        }
    ));
}

#[test]
fn sqlite_error_from_database_error() {
    let session = SqliteSession::open(":memory:").unwrap();
    let refused = session.connection.execute("NOT SQL").unwrap_err();
    assert!(matches!(SqliteError::from(refused), SqliteError::Sqlite { .. }));
}

#[test]
fn create_table_is_idempotent() {
    let session = SqliteSession::open(":memory:").unwrap();
    session.connection.execute(CREATE_TABLE).unwrap();
    session.connection.execute(CREATE_TABLE).unwrap();
}

#[test]
fn sqlite_error_messages_name_the_layer_and_the_source() {
    let source = serde_json::from_str::<serde_json::Value>("{").unwrap_err();
    let expected = format!("Json storage error: Error deserializing: {source}");
    let error = SqliteError::from(JsonSerialized::parse("{").unwrap_err());
    assert_eq!(expected, error.message());

    let session = SqliteSession::open(":memory:").unwrap();
    let refused = session.connection.execute("NOT SQL").unwrap_err();
    let expected = format!("Sqlite error: {refused}");
    assert_eq!(expected, SqliteError::from(refused).message());
}
