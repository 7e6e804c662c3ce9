//! Durable memoization: a computation becomes a cached lookup keyed by its
//! arguments, with the result kept behind a pluggable storage backend.
//!
//! A cached call is built on a [`Store`], a handle with a namespace: the
//! function, then its parameters one by one, each of which is both bound to
//! the function and rendered into the call's key ([`key`]). Making the call
//! follows one protocol ([`exchange`]): under the backend's session, fetch
//! the entry under the key; if it is there, decode and return it; if not, run
//! the function, encode and store what it returned, and return that.
//!
//! What a backend has to offer is [`IsStore`], and what a codec,
//! [`SerializeTo`] and [`DeserializeFrom`]. [`fetch_or_compute`] makes a call
//! through a backend whose session the caller holds. Where acquiring the
//! session or running the function has to be waited for, the caller drives
//! an [`exchange::Exchange`] itself. [`json`] is the JSON codec,
//! [`cpu_store`] a backend in memory, and [`sqlite_store`] what a backend in
//! a sqlite table says to its database.

use vstd::prelude::*;
use vstd::std_specs::convert::FromSpec;

use std::marker::PhantomData;

pub mod cpu_store;
pub mod exchange;
pub mod json;
pub mod key;
pub mod sqlite_store;
mod sync_impl;
mod tuple;

pub use crate::key::AsKey;
pub use crate::tuple::Bundle;

use crate::exchange::{lookup, Action, Event, Exchange, World};
use crate::json::JsonDeserialized;
use crate::key::{
    free_of, join, join_strings, lemma_join_injective, lemma_join_split, lemma_order_matters, texts,
};

verus! {

/// A typed value that can be encoded as a backend's stored value `T`.
pub trait SerializeTo<T, E> {
    /// Whether `encoded` is something that encoding the value may come to.
    /// An impl states it; where none does, anything may.
    open spec fn encoding(&self, encoded: Result<T, E>) -> bool {
        true
    }

    /// Encodes the value.
    fn try_into_store_value(&self) -> (encoded: Result<T, E>)
        ensures
            self.encoding(encoded),
    ;
}

/// A typed value that can be decoded from a backend's stored value `T`.
pub trait DeserializeFrom<T, E>: Sized {
    /// Whether `decoded` is something that decoding `stored` may come to. An
    /// impl states it; where none does, anything may.
    open spec fn decoding(stored: T, decoded: Result<Self, E>) -> bool {
        true
    }

    /// Decodes a stored value.
    fn try_from_store_value(stored: T) -> (decoded: Result<Self, E>)
        ensures
            Self::decoding(stored, decoded),
    ;
}

/// A storage backend whose session is held.
///
/// Exclusive access to the value is the session: whoever holds `&mut` to it
/// is the only one talking to the backend.
pub trait IsStore {
    /// What the backend's operations fail with.
    type Error;

    /// The serialized form in which the backend keeps a value.
    type StoreValue;

    /// Whether the backend is in order: what its operations rely on and
    /// keep up. An impl states it; where none does, nothing is asked.
    open spec fn well_formed(&self) -> bool {
        true
    }

    /// The entries that the backend holds, by key: at most one per key. An
    /// impl states them; where none does, nothing is known of them.
    open spec fn entries(&self) -> Map<Seq<char>, Self::StoreValue> {
        arbitrary()
    }

    /// Fetches the entry under `key`. When the backend answers at all, it
    /// answers with what it holds.
    fn fetch_serialized_by_key(&self, key: &str) -> (fetched: Result<
        Option<Self::StoreValue>,
        Self::Error,
    >)
        requires
            self.well_formed(),
        ensures
            fetched matches Ok(found) ==> found == lookup(self.entries(), key@),
    ;

    /// Stores `serialized_value` under `key`, in place of whatever was there.
    /// A store that fails leaves every entry as it was.
    fn store_serialized_by_key(&mut self, key: &str, serialized_value: Self::StoreValue) -> (stored:
        Result<(), Self::Error>)
        requires
            old(self).well_formed(),
        ensures
            final(self).well_formed(),
            stored is Ok ==> final(self).entries() == old(self).entries().insert(
                key@,
                serialized_value,
            ),
            stored is Err ==> final(self).entries() == old(self).entries(),
    ;
}

/// Marks a function that returns a pending operation.
pub struct Async;

/// Marks a function that returns its value at once.
pub struct Sync;

/// A function together with the shape of the parameters it is called on.
pub struct FnPair<I, F, C> {
    f: F,
    _input: PhantomData<(C, I)>,
}

impl<I, F, C> FnPair<I, F, C> {
    /// The function.
    pub closed spec fn function(self) -> F {
        self.f
    }

    /// The pair that holds `f`.
    pub closed spec fn of(f: F) -> Self {
        FnPair { f, _input: PhantomData }
    }

    /// The pair that holds `f` holds `f`.
    pub proof fn lemma_of_function(f: F)
        ensures
            Self::of(f).function() == f,
    {
    }

    /// Takes the function out.
    pub fn into_function(self) -> (f: F)
        ensures
            f == self.function(),
    {
        self.f
    }
}

/// A function that can be called on parameters bundled as `I`.
pub trait IsStoreFunction<I>: Sized {
    /// What the function returns.
    type Output;

    /// Whether the function may be called on `input`.
    spec fn accepts(&self, input: I) -> bool;

    /// Whether `output` is something that the function may return on `input`.
    spec fn yields(&self, input: I, output: Self::Output) -> bool;

    /// Calls the function on `input`.
    fn call(self, input: I) -> (output: Self::Output)
        requires
            self.accepts(input),
        ensures
            self.yields(input, output),
    ;
}

/// The error of an answer that failed.
spec fn failure<T, E>(answer: Result<T, E>) -> Option<E> {
    match answer {
        Ok(_) => None,
        Err(error) => Some(error),
    }
}

/// A codec's answer without the typed wrapper around its value.
spec fn unwrapped<T, E>(answer: Result<JsonDeserialized<T>, E>) -> Result<T, E> {
    match answer {
        Ok(value) => Ok(value.0),
        Err(error) => Err(error),
    }
}

/// An answer with the codec's typed wrapper around its value.
pub open spec fn wrapped<T, E>(answer: Result<T, E>) -> Result<JsonDeserialized<T>, E> {
    match answer {
        Ok(value) => Ok(JsonDeserialized(value)),
        Err(error) => Err(error),
    }
}

/// Whether `error` is something that the backend's fetch under `key` may
/// fail with.
pub open spec fn fetch_fails_with<B: IsStore>(session: B, key: Seq<char>, error: B::Error) -> bool {
    exists|text: &str|
        text@ == key && #[trigger] call_ensures(
            B::fetch_serialized_by_key,
            (&session, text),
            Err::<Option<B::StoreValue>, B::Error>(error),
        )
}

/// Whether `decoded` is something that the codec may decode `stored` to.
pub open spec fn decodes_to<O, V, X>(stored: V, decoded: Result<O, X>) -> bool where
    JsonDeserialized<O>: DeserializeFrom<V, X>,
 {
    <JsonDeserialized<O> as DeserializeFrom<V, X>>::decoding(stored, wrapped(decoded))
}

/// Whether `encoded` is something that the codec may encode `value` as.
pub open spec fn encodes_as<O, V, X>(value: O, encoded: Result<V, X>) -> bool where
    JsonDeserialized<O>: SerializeTo<V, X>,
 {
    JsonDeserialized(value).encoding(encoded)
}

/// Whether `computed` is what calling `function` on `input` came to: a value
/// as the function returned it, or an error of the function converted into
/// the backend's error.
pub open spec fn computed_by<I, D, O, E, X: From<E>>(
    function: D,
    input: I,
    computed: Result<O, X>,
) -> bool where D: IsStoreFunction<I, Output = Result<O, E>> {
    match computed {
        Ok(value) => function.yields(input, Ok::<O, E>(value)),
        Err(error) => exists|cause: E| #[trigger]
            function.yields(input, Err::<O, E>(cause)) && (X::obeys_from_spec() ==> error
                == X::from_spec(cause)),
    }
}

/// Whether `world` accounts for a cached call through `session` under `key`.
///
/// It starts from the entries that the backend held. Whatever the protocol
/// meets in it is an answer of the real thing to what the protocol hands it:
/// a failure of the fetch is one of the backend's fetch under `key`; what
/// the entry under `key` decodes to is the codec's answer on that entry; what
/// is computed is `function`'s return on `input`; what a computed value is
/// encoded as is the codec's answer on that value. And the protocol in it
/// ends with `outcome` and with the entries `after`.
pub open spec fn accounts_for<B, I, D, O, E>(
    world: World<O, B::StoreValue, B::Error>,
    session: B,
    key: Seq<char>,
    function: D,
    input: I,
    outcome: Result<O, B::Error>,
    after: Map<Seq<char>, B::StoreValue>,
) -> bool where
    B: IsStore,
    D: IsStoreFunction<I, Output = Result<O, E>>,
    B::Error: From<E>,
    JsonDeserialized<O>: SerializeTo<B::StoreValue, B::Error> + DeserializeFrom<
        B::StoreValue,
        B::Error,
    >,
 {
    let played = world.call(key);
    &&& world.entries == session.entries()
    &&& world.fetch_failure matches Some(error) ==> fetch_fails_with(session, key, error)
    &&& world.fetch_failure is None && world.entries.contains_key(key) ==> decodes_to(
        world.entries[key],
        (world.decode)(world.entries[key]),
    )
    &&& played.computations > 0 ==> computed_by(function, input, world.computed)
    &&& played.computations > 0 ==> (world.computed matches Ok(value) ==> encodes_as(
        value,
        (world.encode)(value),
    ))
    &&& played.outcome == outcome
    &&& played.entries == after
}

/// What a cached call promises whatever the backend, the codec and the
/// function answer: the call follows the protocol of [`World::call`] in some
/// world that accounts for it. In particular a value comes either from an
/// entry that was there, which is then left alone, or from the function,
/// after something was stored under the key; and no failure leaves an entry
/// behind.
pub open spec fn follows_protocol<B, I, D, O, E>(
    session: B,
    key: Seq<char>,
    function: D,
    input: I,
    outcome: Result<O, B::Error>,
    after: Map<Seq<char>, B::StoreValue>,
) -> bool where
    B: IsStore,
    D: IsStoreFunction<I, Output = Result<O, E>>,
    B::Error: From<E>,
    JsonDeserialized<O>: SerializeTo<B::StoreValue, B::Error> + DeserializeFrom<
        B::StoreValue,
        B::Error,
    >,
 {
    let before = session.entries();
    &&& exists|world: World<O, B::StoreValue, B::Error>| #[trigger]
        accounts_for(world, session, key, function, input, outcome, after)
    &&& match outcome {
        Ok(value) => {
            ||| before.contains_key(key) && after == before
            ||| !before.contains_key(key) && function.yields(input, Ok::<O, E>(value))
                && exists|stored: B::StoreValue| after == before.insert(key, stored)
        },
        Err(_) => after == before,
    }
}

/// Takes in an event that answers the pending action.
fn advance<T, V, E>(exchange: Exchange<T, V, E>, event: Event<T, V, E>) -> (decided: (
    Exchange<T, V, E>,
    Action<T, V, E>,
))
    requires
        exchange.next(event) is Some,
    ensures
        exchange.next(event) == Some(decided),
{
    match exchange.step(event) {
        Some(decided) => decided,
        None => vstd::pervasive::unreached(),
    }
}

/// Returns the value cached under `key`, computing and caching it first when
/// the backend holds none.
///
/// The caller holds the backend's session for the whole call. The computation
/// is `function` called on `input`; it is called at most once, and only when
/// the backend holds nothing under `key`.
pub fn fetch_or_compute<B, I, D, O, E>(
    session: &mut B,
    key: &str,
    function: D,
    input: I,
) -> (outcome: Result<O, B::Error>) where
    B: IsStore,
    D: IsStoreFunction<I, Output = Result<O, E>>,
    B::Error: From<E>,
    JsonDeserialized<O>: SerializeTo<B::StoreValue, B::Error> + DeserializeFrom<
        B::StoreValue,
        B::Error,
    >,

    requires
        old(session).well_formed(),
        function.accepts(input),
    ensures
        final(session).well_formed(),
        follows_protocol(
            *old(session),
            key@,
            function,
            input,
            outcome,
            final(session).entries(),
        ),
{
    let ghost before = *session;
    let ghost mut world: World<O, B::StoreValue, B::Error> = World {
        entries: before.entries(),
        fetch_failure: None,
        store_failure: None,
        decode: |stored: B::StoreValue| arbitrary(),
        encode: |value: O| arbitrary(),
        computed: arbitrary(),
    };
    let (exchange, action) = Exchange::<JsonDeserialized<O>, B::StoreValue, B::Error>::begin();
    let (exchange, action) = advance(exchange, Event::SessionAcquired);
    let fetched = session.fetch_serialized_by_key(key);
    proof {
        world = World { fetch_failure: failure(fetched), ..world };
    }
    let (exchange, action) = advance(exchange, Event::Fetched(fetched));
    let (exchange, action) = match action {
        Action::Decode(stored) => {
            let decoded = JsonDeserialized::<O>::try_from_store_value(stored);
            proof {
                world = World { decode: |stored: B::StoreValue| unwrapped(decoded), ..world };
            }
            advance(exchange, Event::Decoded(decoded))
        },
        Action::Compute => {
            let computed = match function.call(input) {
                Ok(value) => Ok(JsonDeserialized(value)),
                Err(error) => Err(B::Error::from(error)),
            };
            proof {
                world = World { computed: unwrapped(computed), ..world };
                assert(computed_by(function, input, world.computed));
            }
            let (exchange, action) = advance(exchange, Event::Computed(computed));
            match action {
                Action::Encode => {
                    let encoded = match exchange.pending() {
                        Some(value) => value.try_into_store_value(),
                        None => vstd::pervasive::unreached(),
                    };
                    proof {
                        world = World { encode: |value: O| encoded, ..world };
                    }
                    let (exchange, action) = advance(exchange, Event::Encoded(encoded));
                    match action {
                        Action::Store(encoded) => {
                            let stored = session.store_serialized_by_key(key, encoded);
                            proof {
                                world = World { store_failure: failure(stored), ..world };
                            }
                            advance(exchange, Event::Stored(stored))
                        },
                        finished => (exchange, finished),
                    }
                },
                finished => (exchange, finished),
            }
        },
        finished => (exchange, finished),
    };
    let outcome = match action {
        Action::Finish(Ok(value)) => Ok(value.0),
        Action::Finish(Err(error)) => Err(error),
        _ => vstd::pervasive::unreached(),
    };
    assert(accounts_for(world, before, key@, function, input, outcome, session.entries()));
    outcome
}

/// Returns the value cached under `key`, computing it with `f` and caching
/// it first when the backend holds none.
pub fn fetch_or_else<B, O, E, F>(session: &mut B, key: &str, f: F) -> (outcome: Result<
    O,
    B::Error,
>) where
    B: IsStore,
    F: FnOnce() -> Result<O, E>,
    B::Error: From<E>,
    JsonDeserialized<O>: SerializeTo<B::StoreValue, B::Error> + DeserializeFrom<
        B::StoreValue,
        B::Error,
    >,

    requires
        old(session).well_formed(),
        call_requires(f, ()),
    ensures
        final(session).well_formed(),
        follows_protocol(
            *old(session),
            key@,
            FnPair::<(), F, Sync>::of(f),
            (),
            outcome,
            final(session).entries(),
        ),
{
    let fn_pair: FnPair<(), F, Sync> = FnPair { f, _input: PhantomData };
    fetch_or_compute(session, key, fn_pair, ())
}

/// The delimiter between the segments of a cache key.
pub open spec fn delimiter() -> Seq<char> {
    seq![',']
}

/// The cache key of a call: the namespace's segments, then the fragments of
/// the call's parameters, in order, joined with the delimiter.
pub open spec fn cache_key(namespace: Seq<Seq<char>>, fragments: Seq<Seq<char>>) -> Seq<char> {
    join(namespace + fragments, delimiter())
}

/// Appends a copy of every string of `source` to `target`, in order.
fn append_copies(target: &mut Vec<String>, source: &Vec<String>)
    ensures
        texts(final(target)@) == texts(old(target)@) + texts(source@),
{
    let ghost before = texts(target@);
    let mut i: usize = 0;
    while i < source.len()
        invariant
            i <= source.len(),
            target.len() == before.len() + i,
            forall|j: int| 0 <= j < before.len() ==> (#[trigger] target@[j])@ == before[j],
            forall|j: int|
                before.len() <= j < before.len() + i ==> (#[trigger] target@[j])@ == source@[j
                    - before.len()]@,
        decreases source.len() - i,
    {
        target.push(source[i].clone());
        i = i + 1;
    }
    assert(texts(target@) =~= before + texts(source@));
}

/// A handle on one backend, with the namespace under which it caches.
///
/// The handle is cheap to derive from: a child shares the backend and adds a
/// segment to the namespace. It does not reach into the backend itself; a
/// call built on it is made through a session of that backend.
#[derive(Clone)]
pub struct Store<S> {
    key: Vec<String>,
    inner: S,
}

impl<S> Store<S> {
    /// The segments of the handle's namespace, outermost first.
    pub closed spec fn segments(&self) -> Seq<Seq<char>> {
        texts(self.key@)
    }

    /// The backend that the handle is on.
    pub closed spec fn backend(&self) -> S {
        self.inner
    }

    /// A handle on `inner` with an empty namespace.
    pub fn new(inner: S) -> (store: Self)
        ensures
            store.segments() == Seq::<Seq<char>>::empty(),
            store.backend() == inner,
    {
        let store = Store { key: Vec::new(), inner };
        assert(store.segments() =~= Seq::<Seq<char>>::empty());
        store
    }

    /// A handle on the same backend whose namespace has `namespace` as one
    /// more segment at its end.
    pub fn namespace(&self, namespace: &str) -> (store: Self) where S: Clone
        ensures
            store.segments() == self.segments().push(namespace@),
            cloned(self.backend(), store.backend()),
    {
        let mut key: Vec<String> = Vec::new();
        append_copies(&mut key, &self.key);
        key.push(String::from_str(namespace));
        let store = Store { key, inner: self.inner.clone() };
        assert(store.segments() =~= self.segments().push(namespace@));
        store
    }

    /// Starts a cached call of `f`, a function that returns its value at
    /// once, with no parameter bound yet.
    pub fn entry<F>(&self, f: F) -> (builder: Builder<'_, S, (), F>)
        ensures
            builder.store() == self,
            builder.fragments() == Seq::<Seq<char>>::empty(),
            builder.input() == (),
            builder.function() == f,
    {
        let builder = Builder {
            store: self,
            key: Vec::new(),
            input: (),
            fn_pair: FnPair { f, _input: PhantomData },
        };
        assert(builder.fragments() =~= Seq::<Seq<char>>::empty());
        builder
    }

    /// Starts a cached call of `f`, a function that returns a pending
    /// operation, with no parameter bound yet.
    pub fn entry_async<F>(&self, f: F) -> (builder: Builder<'_, S, (), F, Async>)
        ensures
            builder.store() == self,
            builder.fragments() == Seq::<Seq<char>>::empty(),
            builder.input() == (),
            builder.function() == f,
    {
        let builder = Builder {
            store: self,
            key: Vec::new(),
            input: (),
            fn_pair: FnPair { f, _input: PhantomData },
        };
        assert(builder.fragments() =~= Seq::<Seq<char>>::empty());
        builder
    }

    /// The backend that the handle is on.
    pub fn inner(&self) -> (inner: &S)
        ensures
            *inner == self.backend(),
    {
        &self.inner
    }
}

/// A cached call in the making: a function, the parameters bound to it so
/// far, and their fragments of the key.
pub struct Builder<'a, S, I, F, C = Sync> {
    store: &'a Store<S>,
    key: Vec<String>,
    input: I,
    fn_pair: FnPair<I, F, C>,
}

impl<'a, S, C, I, F> Builder<'a, S, I, F, C> {
    /// The handle that the call goes through.
    pub closed spec fn store(&self) -> &'a Store<S> {
        self.store
    }

    /// The key fragments of the parameters bound so far, in order.
    pub closed spec fn fragments(&self) -> Seq<Seq<char>> {
        texts(self.key@)
    }

    /// The parameters bound so far.
    pub closed spec fn input(&self) -> I {
        self.input
    }

    /// The function to be called.
    pub closed spec fn function(&self) -> F {
        self.fn_pair.f
    }

    /// The key under which the call's result is cached.
    pub open spec fn derived_key(&self) -> Seq<char> {
        cache_key(self.store().segments(), self.fragments())
    }

    /// Binds `element` as the next parameter, without a fragment of the key.
    fn suffix<T>(self, element: T) -> (builder: Builder<'a, S, I::Suffixed, F, C>) where
        I: Bundle<T>,

        ensures
            builder.store() == self.store(),
            builder.fragments() == self.fragments(),
            builder.input() == self.input().suffixed(element),
            builder.function() == self.function(),
    {
        Builder {
            store: self.store,
            key: self.key,
            input: self.input.suffix(element),
            fn_pair: FnPair { f: self.fn_pair.f, _input: PhantomData },
        }
    }

    /// Binds `input` as the next parameter of the call and appends its
    /// fragment to the key.
    pub fn param<T: AsKey>(self, input: T) -> (builder: Builder<'a, S, I::Suffixed, F, C>) where
        I: Bundle<T>,

        ensures
            builder.store() == self.store(),
            builder.fragments() == self.fragments().push(input.key_fragment()),
            builder.input() == self.input().suffixed(input),
            builder.function() == self.function(),
    {
        let mut extended = self;
        let fragment = input.as_key();
        extended.key.push(fragment);
        assert(extended.fragments() =~= self.fragments().push(input.key_fragment()));
        extended.suffix(input)
    }

    /// Renders the key under which the call's result is cached.
    pub fn key(&self) -> (key: String)
        ensures
            key@ == self.derived_key(),
    {
        let mut segments: Vec<String> = Vec::new();
        append_copies(&mut segments, &self.store.key);
        append_copies(&mut segments, &self.key);
        proof {
            reveal_strlit(",");
            assert(","@ =~= delimiter());
        }
        join_strings(&segments, ",")
    }

    /// Takes the call apart: the handle it goes through, its key, the
    /// parameters bound to it, and the function with the shape of its
    /// parameters.
    pub fn into_parts(self) -> (parts: (&'a Store<S>, String, I, FnPair<I, F, C>))
        ensures
            parts.0 == self.store(),
            parts.1@ == self.derived_key(),
            parts.2 == self.input(),
            parts.3.function() == self.function(),
    {
        let key = self.key();
        (self.store, key, self.input, self.fn_pair)
    }
}

impl<'a, S, I, F> Builder<'a, S, I, F, Sync> {
    /// Makes the call through a backend whose session the caller holds: the
    /// cached value if there is one under the call's key, else what the
    /// function returns on the parameters bound to it, cached first.
    pub fn run_with<B, O, E>(self, session: &mut B) -> (outcome: Result<O, B::Error>) where
        FnPair<I, F, Sync>: IsStoreFunction<I, Output = Result<O, E>>,
        B: IsStore,
        B::Error: From<E>,
        JsonDeserialized<O>: SerializeTo<B::StoreValue, B::Error> + DeserializeFrom<
            B::StoreValue,
            B::Error,
        >,

        requires
            old(session).well_formed(),
            FnPair::<I, F, Sync>::of(self.function()).accepts(self.input()),
        ensures
            final(session).well_formed(),
            follows_protocol(
                *old(session),
                self.derived_key(),
                FnPair::<I, F, Sync>::of(self.function()),
                self.input(),
                outcome,
                final(session).entries(),
            ),
    {
        let key = self.key();
        fetch_or_compute(session, key.as_str(), self.fn_pair, self.input)
    }
}

/// Whether the codec between `O` and `V` round-trips: whatever it may encode
/// a value as, it decodes to that value and to nothing else.
pub open spec fn codec_round_trips<O, V, X>() -> bool where
    JsonDeserialized<O>: SerializeTo<V, X> + DeserializeFrom<V, X>,
 {
    forall|value: O, encoded: V, decoded: Result<O, X>|
        #![trigger encodes_as(value, Ok::<V, X>(encoded)), decodes_to(encoded, decoded)]
        encodes_as(value, Ok::<V, X>(encoded)) && decodes_to(encoded, decoded) ==> decoded
            == Ok::<O, X>(value)
}

/// Cache hit skips computation, for calls as they are made. Take a key
/// without an entry and a first call under it that returned `value`. Then a
/// second call under the same key, made through what the first call left in
/// the backend and with a codec that round-trips, is accounted for only by
/// worlds in which the computation does not run; it leaves the entries
/// alone; and it returns a value equal to `value`, unless the backend's
/// fetch fails, in which case it returns that failure.
pub proof fn lemma_second_call_returns_the_cached_value<B, I, D, E, J, G, H, O>(
    first: B,
    second: B,
    key: Seq<char>,
    function: D,
    input: I,
    value: O,
    again: G,
    again_input: J,
    outcome: Result<O, B::Error>,
    after: Map<Seq<char>, B::StoreValue>,
) where
    B: IsStore,
    D: IsStoreFunction<I, Output = Result<O, E>>,
    G: IsStoreFunction<J, Output = Result<O, H>>,
    B::Error: From<E> + From<H>,
    JsonDeserialized<O>: SerializeTo<B::StoreValue, B::Error> + DeserializeFrom<
        B::StoreValue,
        B::Error,
    >,

    requires
        !first.entries().contains_key(key),
        follows_protocol(
            first,
            key,
            function,
            input,
            Ok::<O, B::Error>(value),
            second.entries(),
        ),
        follows_protocol(second, key, again, again_input, outcome, after),
        codec_round_trips::<O, B::StoreValue, B::Error>(),
    ensures
        after == second.entries(),
        match outcome {
            Ok(cached) => cached == value,
            Err(error) => fetch_fails_with(second, key, error),
        },
        forall|world: World<O, B::StoreValue, B::Error>| #[trigger]
            accounts_for(world, second, key, again, again_input, outcome, after)
                ==> world.call(key).computations == 0,
{
    let earlier = choose|world: World<O, B::StoreValue, B::Error>| #[trigger]
        accounts_for(
            world,
            first,
            key,
            function,
            input,
            Ok::<O, B::Error>(value),
            second.entries(),
        );
    let encoded = (earlier.encode)(value)->Ok_0;
    assert(earlier.computed == Ok::<O, B::Error>(value));
    assert(encodes_as(value, Ok::<B::StoreValue, B::Error>(encoded)));
    assert(second.entries() == first.entries().insert(key, encoded));
    assert(second.entries()[key] == encoded);
    let later = choose|world: World<O, B::StoreValue, B::Error>| #[trigger]
        accounts_for(world, second, key, again, again_input, outcome, after);
    if later.fetch_failure is None {
        assert(decodes_to(encoded, (later.decode)(encoded)));
    }
}

/// Failure is not cached, for calls as they are made. Take a key without an
/// entry and a first call under it that failed, for whatever reason. Then
/// the backend holds what it held, so the entry is still absent; and a
/// second call under the same key, made through what the first call left, is
/// accounted for only by worlds in which the computation runs once, unless
/// the backend's fetch fails.
pub proof fn lemma_failed_call_is_not_cached<B, I, D, E, J, G, H, O>(
    first: B,
    second: B,
    key: Seq<char>,
    function: D,
    input: I,
    error: B::Error,
    again: G,
    again_input: J,
    outcome: Result<O, B::Error>,
    after: Map<Seq<char>, B::StoreValue>,
) where
    B: IsStore,
    D: IsStoreFunction<I, Output = Result<O, E>>,
    G: IsStoreFunction<J, Output = Result<O, H>>,
    B::Error: From<E> + From<H>,
    JsonDeserialized<O>: SerializeTo<B::StoreValue, B::Error> + DeserializeFrom<
        B::StoreValue,
        B::Error,
    >,

    requires
        !first.entries().contains_key(key),
        follows_protocol(
            first,
            key,
            function,
            input,
            Err::<O, B::Error>(error),
            second.entries(),
        ),
        follows_protocol(second, key, again, again_input, outcome, after),
    ensures
        second.entries() == first.entries(),
        !second.entries().contains_key(key),
        forall|world: World<O, B::StoreValue, B::Error>| #[trigger]
            accounts_for(world, second, key, again, again_input, outcome, after)
                && world.fetch_failure is None ==> world.call(key).computations == 1,
{
}

/// Namespacing composes: a handle that was given the segments `inner` and
/// then `innermost` derives, for any parameters, the key of a handle whose
/// namespace is that of `store` followed by the two.
pub proof fn lemma_namespaces_compose<S>(
    store: Store<S>,
    child: Store<S>,
    grandchild: Store<S>,
    inner: Seq<char>,
    innermost: Seq<char>,
    fragments: Seq<Seq<char>>,
)
    requires
        child.segments() == store.segments().push(inner),
        grandchild.segments() == child.segments().push(innermost),
    ensures
        grandchild.segments() == store.segments() + seq![inner, innermost],
        cache_key(grandchild.segments(), fragments) == cache_key(
            store.segments() + seq![inner, innermost],
            fragments,
        ),
{
    assert(grandchild.segments() =~= store.segments() + seq![inner, innermost]);
}

/// Parameter order sensitivity: two parameters whose fragments differ, and
/// hold no delimiter, derive different keys in their two orders, under any
/// namespace and after any parameters bound before them.
pub proof fn lemma_parameter_order_matters(
    namespace: Seq<Seq<char>>,
    bound: Seq<Seq<char>>,
    first: Seq<char>,
    second: Seq<char>,
)
    requires
        first != second,
        free_of(first, ','),
        free_of(second, ','),
    ensures
        cache_key(namespace, bound.push(first).push(second)) != cache_key(
            namespace,
            bound.push(second).push(first),
        ),
{
    let front = namespace + bound;
    let one = seq![first, second];
    let other = seq![second, first];
    assert(namespace + bound.push(first).push(second) =~= front + one);
    assert(namespace + bound.push(second).push(first) =~= front + other);
    lemma_order_matters(first, second, ',');
    if front.len() > 0 {
        lemma_join_split(front, one, delimiter());
        lemma_join_split(front, other, delimiter());
        let head = join(front, delimiter()) + delimiter();
        let left = head + join(one, delimiter());
        let right = head + join(other, delimiter());
        if left == right {
            assert(left.subrange(head.len() as int, left.len() as int) =~= join(
                one,
                delimiter(),
            ));
            assert(right.subrange(head.len() as int, right.len() as int) =~= join(
                other,
                delimiter(),
            ));
        }
    } else {
        assert(front + one =~= one);
        assert(front + other =~= other);
    }
}

/// Whether every fragment of `fragments` is free of the key delimiter.
pub open spec fn all_free(fragments: Seq<Seq<char>>) -> bool {
    forall|i: int| 0 <= i < fragments.len() ==> free_of(#[trigger] fragments[i], ',')
}

/// Different parameters derive different keys: under one namespace, two
/// calls whose parameters' fragments hold no delimiter derive the same key
/// only if they have the same fragments in the same order. The one exception
/// is left out: with an empty namespace, a call without parameters and a
/// call with one parameter whose fragment is empty both derive the empty
/// key.
pub proof fn lemma_keys_tell_parameters_apart(
    namespace: Seq<Seq<char>>,
    one: Seq<Seq<char>>,
    other: Seq<Seq<char>>,
)
    requires
        all_free(one),
        all_free(other),
        namespace.len() > 0 || (one.len() > 0 && other.len() > 0),
        cache_key(namespace, one) == cache_key(namespace, other),
    ensures
        one == other,
{
    if namespace.len() == 0 {
        assert(namespace + one =~= one);
        assert(namespace + other =~= other);
        lemma_join_injective(one, other, ',');
    } else {
        let head = join(namespace, delimiter()) + delimiter();
        if one.len() > 0 {
            lemma_join_split(namespace, one, delimiter());
        } else {
            assert(namespace + one =~= namespace);
        }
        if other.len() > 0 {
            lemma_join_split(namespace, other, delimiter());
        } else {
            assert(namespace + other =~= namespace);
        }
        if one.len() > 0 && other.len() > 0 {
            let left = head + join(one, delimiter());
            let right = head + join(other, delimiter());
            assert(left.subrange(head.len() as int, left.len() as int) =~= join(
                one,
                delimiter(),
            ));
            assert(right.subrange(head.len() as int, right.len() as int) =~= join(
                other,
                delimiter(),
            ));
            lemma_join_injective(one, other, ',');
        } else if one.len() > 0 {
            assert(cache_key(namespace, one).len() > cache_key(namespace, other).len());
        } else if other.len() > 0 {
            assert(cache_key(namespace, other).len() > cache_key(namespace, one).len());
        } else {
            assert(one =~= other);
        }
    }
}

} // verus!
