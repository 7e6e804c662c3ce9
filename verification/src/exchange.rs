//! The fetch-or-compute protocol as a state machine.
//!
//! One [`Exchange`] follows one cached call. It never touches a backend, a
//! codec or the computation itself: it hands out an [`Action`], is told what
//! came of it as an [`Event`], and decides what happens next. Whoever drives
//! it, blocking or not, gets the same decisions.

use std::marker::PhantomData;
use vstd::prelude::*;

verus! {

/// What the driver reports back after performing an [`Action`].
#[derive(Debug, PartialEq)]
pub enum Event<T, V, E> {
    /// The backend's session is now held.
    SessionAcquired,
    /// The backend answered the fetch: the stored value, if there is one.
    Fetched(Result<Option<V>, E>),
    /// The codec decoded the stored value, or failed to.
    Decoded(Result<T, E>),
    /// The computation ran and returned.
    Computed(Result<T, E>),
    /// The codec encoded the computed value, or failed to.
    Encoded(Result<V, E>),
    /// The backend answered the store.
    Stored(Result<(), E>),
}

/// What the driver is asked to do next.
#[derive(Debug, PartialEq)]
pub enum Action<T, V, E> {
    /// Acquire the backend's session and hold it until the call finishes.
    AcquireSession,
    /// Fetch the entry under the call's key.
    Fetch,
    /// Decode this stored value.
    Decode(V),
    /// Run the computation.
    Compute,
    /// Encode the computed value, which [`Exchange::pending`] lends.
    Encode,
    /// Store this value under the call's key.
    Store(V),
    /// Release the session and return this to the caller.
    Finish(Result<T, E>),
}

/// How far one cached call has come.
#[derive(Debug, PartialEq)]
pub enum Phase<T> {
    /// Waiting for the backend's session.
    Acquiring,
    /// Waiting for the backend's answer to the fetch.
    Fetching,
    /// The entry was found; waiting for the codec to decode it.
    Decoding,
    /// No entry was found; waiting for the computation.
    Computing,
    /// The computation returned `value`; waiting for its encoding.
    Encoding { value: T },
    /// Waiting for the backend to store the encoding of `value`.
    Storing { value: T },
    /// The call has finished.
    Finished,
}

impl<T> Phase<T> {
    /// The decision table: the phase and action that follow when `event`
    /// arrives in phase `self`, or `None` when `event` does not answer the
    /// action that is pending in that phase.
    pub open spec fn next<V, E>(self, event: Event<T, V, E>) -> Option<(Self, Action<T, V, E>)> {
        match (self, event) {
            (Phase::Acquiring, Event::SessionAcquired) => Some((Phase::Fetching, Action::Fetch)),
            (Phase::Fetching, Event::Fetched(Ok(Some(stored)))) => Some(
                (Phase::Decoding, Action::Decode(stored)),
            ),
            (Phase::Fetching, Event::Fetched(Ok(None))) => Some(
                (Phase::Computing, Action::Compute),
            ),
            (Phase::Fetching, Event::Fetched(Err(error))) => Some(
                (Phase::Finished, Action::Finish(Err(error))),
            ),
            (Phase::Decoding, Event::Decoded(decoded)) => Some(
                (Phase::Finished, Action::Finish(decoded)),
            ),
            (Phase::Computing, Event::Computed(Ok(value))) => Some(
                (Phase::Encoding { value }, Action::Encode),
            ),
            (Phase::Computing, Event::Computed(Err(error))) => Some(
                (Phase::Finished, Action::Finish(Err(error))),
            ),
            (Phase::Encoding { value }, Event::Encoded(Ok(encoded))) => Some(
                (Phase::Storing { value }, Action::Store(encoded)),
            ),
            (Phase::Encoding { value }, Event::Encoded(Err(error))) => Some(
                (Phase::Finished, Action::Finish(Err(error))),
            ),
            (Phase::Storing { value }, Event::Stored(Ok(_))) => Some(
                (Phase::Finished, Action::Finish(Ok(value))),
            ),
            (Phase::Storing { value }, Event::Stored(Err(error))) => Some(
                (Phase::Finished, Action::Finish(Err(error))),
            ),
            _ => None,
        }
    }

    /// The value that is waiting to be encoded, if the call is in that phase.
    pub open spec fn waiting(self) -> Option<T> {
        match self {
            Phase::Encoding { value } => Some(value),
            _ => None,
        }
    }
}

/// One cached call in progress, between a typed value `T`, a backend's
/// stored value `V` and its error `E`.
pub struct Exchange<T, V, E> {
    /// How far the call has come.
    pub phase: Phase<T>,
    /// Ties the call to the stored value and the error of its backend.
    pub marker: PhantomData<(V, E)>,
}

impl<T, V, E> Exchange<T, V, E> {
    /// A call in the given phase.
    pub open spec fn at(phase: Phase<T>) -> Self {
        Exchange { phase, marker: PhantomData }
    }

    /// The call and the action that follow when `event` arrives, as
    /// [`Phase::next`] decides.
    pub open spec fn next(self, event: Event<T, V, E>) -> Option<(Self, Action<T, V, E>)> {
        match self.phase.next(event) {
            Some((phase, action)) => Some((Self::at(phase), action)),
            None => None,
        }
    }

    /// Starts a call: nothing has happened yet, and the first thing to do is
    /// to acquire the backend's session.
    pub fn begin() -> (started: (Self, Action<T, V, E>))
        ensures
            started == (Self::at(Phase::Acquiring), Action::<T, V, E>::AcquireSession),
    {
        (Exchange { phase: Phase::Acquiring, marker: PhantomData }, Action::AcquireSession)
    }

    /// Takes in what came of the pending action and decides what follows.
    ///
    /// Returns `None`, and forgets the call, when `event` is not an answer to
    /// the pending action.
    pub fn step(self, event: Event<T, V, E>) -> (decided: Option<(Self, Action<T, V, E>)>)
        ensures
            decided == self.next(event),
    {
        let (phase, action) = match (self.phase, event) {
            (Phase::Acquiring, Event::SessionAcquired) => (Phase::Fetching, Action::Fetch),
            (Phase::Fetching, Event::Fetched(Ok(Some(stored)))) => (
                Phase::Decoding,
                Action::Decode(stored),
            ),
            (Phase::Fetching, Event::Fetched(Ok(None))) => (Phase::Computing, Action::Compute),
            (Phase::Fetching, Event::Fetched(Err(error))) => (
                Phase::Finished,
                Action::Finish(Err(error)),
            ),
            (Phase::Decoding, Event::Decoded(decoded)) => (
                Phase::Finished,
                Action::Finish(decoded),
            ),
            (Phase::Computing, Event::Computed(Ok(value))) => (
                Phase::Encoding { value },
                Action::Encode,
            ),
            (Phase::Computing, Event::Computed(Err(error))) => (
                Phase::Finished,
                Action::Finish(Err(error)),
            ),
            (Phase::Encoding { value }, Event::Encoded(Ok(encoded))) => (
                Phase::Storing { value },
                Action::Store(encoded),
            ),
            (Phase::Encoding { value }, Event::Encoded(Err(error))) => (
                Phase::Finished,
                Action::Finish(Err(error)),
            ),
            (Phase::Storing { value }, Event::Stored(Ok(_))) => (
                Phase::Finished,
                Action::Finish(Ok(value)),
            ),
            (Phase::Storing { value }, Event::Stored(Err(error))) => (
                Phase::Finished,
                Action::Finish(Err(error)),
            ),
            _ => { return None; },
        };
        Some((Exchange { phase, marker: PhantomData }, action))
    }

    /// Lends the value that is waiting to be encoded.
    pub fn pending(&self) -> (value: Option<&T>)
        ensures
            value == match self.phase.waiting() {
                Some(value) => Some(&value),
                None => None,
            },
    {
        match &self.phase {
            Phase::Encoding { value } => Some(value),
            _ => None,
        }
    }
}

/// The entry of `entries` under `key`, if there is one.
pub open spec fn lookup<V>(entries: Map<Seq<char>, V>, key: Seq<char>) -> Option<V> {
    if entries.contains_key(key) {
        Some(entries[key])
    } else {
        None
    }
}

/// Everything that one call can meet outside the protocol: what the backend
/// holds and whether it fails, what the codec makes of a value, and what the
/// computation returns if it is run.
#[verifier::reject_recursive_types(T)]
#[verifier::reject_recursive_types(V)]
pub struct World<T, V, E> {
    /// The backend's entries, by key.
    pub entries: Map<Seq<char>, V>,
    /// The error with which the backend's fetch fails, if it does.
    pub fetch_failure: Option<E>,
    /// The error with which the backend's store fails, if it does.
    pub store_failure: Option<E>,
    /// What the codec decodes a stored value to.
    pub decode: spec_fn(V) -> Result<T, E>,
    /// What the codec encodes a typed value as.
    pub encode: spec_fn(T) -> Result<V, E>,
    /// What the computation returns.
    pub computed: Result<T, E>,
}

/// How one call ended.
pub struct Played<T, V, E> {
    /// What the caller got.
    pub outcome: Result<T, E>,
    /// What the backend holds afterwards.
    pub entries: Map<Seq<char>, V>,
    /// How many times the computation was run.
    pub computations: nat,
}

impl<T, V, E> World<T, V, E> {
    /// The protocol: what a call under `key` comes to in this world.
    ///
    /// A failed fetch ends the call. An entry that is there is decoded and
    /// returned, and the computation is not run. Where there is none, the
    /// computation is run once; its value is encoded and stored, and only
    /// when all of that succeeded is the value returned and the entry there.
    /// Every failure leaves the entries as they were.
    pub open spec fn call(self, key: Seq<char>) -> Played<T, V, E> {
        let untouched = self.entries;
        match self.fetch_failure {
            Some(error) => Played { outcome: Err(error), entries: untouched, computations: 0 },
            None => match lookup(self.entries, key) {
                Some(stored) => Played {
                    outcome: (self.decode)(stored),
                    entries: untouched,
                    computations: 0,
                },
                None => match self.computed {
                    Err(error) => Played {
                        outcome: Err(error),
                        entries: untouched,
                        computations: 1,
                    },
                    Ok(value) => match (self.encode)(value) {
                        Err(error) => Played {
                            outcome: Err(error),
                            entries: untouched,
                            computations: 1,
                        },
                        Ok(encoded) => match self.store_failure {
                            Some(error) => Played {
                                outcome: Err(error),
                                entries: untouched,
                                computations: 1,
                            },
                            None => Played {
                                outcome: Ok(value),
                                entries: self.entries.insert(key, encoded),
                                computations: 1,
                            },
                        },
                    },
                },
            },
        }
    }

    /// What the driver reports when it performs `action` in this world, with
    /// the call in `phase`.
    pub open spec fn answer(
        self,
        key: Seq<char>,
        phase: Phase<T>,
        action: Action<T, V, E>,
    ) -> Event<T, V, E> {
        match action {
            Action::AcquireSession => Event::SessionAcquired,
            Action::Fetch => Event::Fetched(
                match self.fetch_failure {
                    Some(error) => Err(error),
                    None => Ok(lookup(self.entries, key)),
                },
            ),
            Action::Decode(stored) => Event::Decoded((self.decode)(stored)),
            Action::Compute => Event::Computed(self.computed),
            Action::Encode => Event::Encoded(
                match phase.waiting() {
                    Some(value) => (self.encode)(value),
                    None => arbitrary(),
                },
            ),
            Action::Store(_) => Event::Stored(
                match self.store_failure {
                    Some(error) => Err(error),
                    None => Ok(()),
                },
            ),
            Action::Finish(_) => arbitrary(),
        }
    }

    /// The world after the driver performed `action`: a store that succeeds
    /// puts its value under `key`, and nothing else changes anything.
    pub open spec fn after(self, key: Seq<char>, action: Action<T, V, E>) -> Self {
        match action {
            Action::Store(encoded) if self.store_failure is None => World {
                entries: self.entries.insert(key, encoded),
                ..self
            },
            _ => self,
        }
    }

    /// Drives the state machine through this world for at most `fuel`
    /// actions, starting with `action` pending in `phase`. `None` when the
    /// call does not finish within them.
    pub open spec fn drive(
        self,
        key: Seq<char>,
        phase: Phase<T>,
        action: Action<T, V, E>,
        fuel: nat,
    ) -> Option<Played<T, V, E>>
        decreases fuel,
    {
        match action {
            Action::Finish(outcome) => Some(
                Played { outcome, entries: self.entries, computations: 0 },
            ),
            _ => if fuel == 0 {
                None
            } else {
                match phase.next(self.answer(key, phase, action)) {
                    None => None,
                    Some((phase_after, action_after)) => match self.after(key, action).drive(
                        key,
                        phase_after,
                        action_after,
                        (fuel - 1) as nat,
                    ) {
                        None => None,
                        Some(played) => Some(
                            Played {
                                computations: played.computations + if action is Compute {
                                    1nat
                                } else {
                                    0nat
                                },
                                ..played
                            },
                        ),
                    },
                }
            },
        }
    }

    /// The state machine implements the protocol: driven through any world
    /// from its start, it finishes within six actions, and with the outcome,
    /// the entries and the number of computations that [`World::call`] gives.
    pub proof fn lemma_machine_follows_protocol(self, key: Seq<char>)
        ensures
            self.drive(key, Phase::Acquiring, Action::AcquireSession, 6) == Some(self.call(key)),
    {
        reveal_with_fuel(World::drive, 7);
    }

    /// A call that finds an entry under its key does not run the
    /// computation and leaves the entries alone; if the backend answers, the
    /// caller gets what the codec decodes the entry to.
    pub proof fn lemma_hit_skips_computation(self, key: Seq<char>)
        requires
            self.entries.contains_key(key),
        ensures
            self.call(key).computations == 0,
            self.call(key).entries == self.entries,
            self.fetch_failure is None ==> self.call(key).outcome == (self.decode)(
                self.entries[key],
            ),
    {
    }

    /// A call that finds no entry under its key, with a backend that answers
    /// the fetch, runs the computation exactly once.
    pub proof fn lemma_miss_computes_once(self, key: Seq<char>)
        requires
            !self.entries.contains_key(key),
            self.fetch_failure is None,
        ensures
            self.call(key).computations == 1,
    {
    }

    /// A call returns a value that was not cached before only after the
    /// value's encoding has been stored under the key; a call that fails,
    /// for whatever reason, leaves every entry as it was.
    pub proof fn lemma_only_success_is_cached(self, key: Seq<char>)
        ensures
            self.call(key).outcome is Err ==> self.call(key).entries == self.entries,
            self.call(key).entries != self.entries ==> !self.entries.contains_key(key)
                && self.call(key).outcome == self.computed && (self.encode)(
                self.computed->Ok_0,
            ) == Ok::<V, E>(self.call(key).entries[key]),
    {
        if self.call(key).entries != self.entries {
            let value = self.computed->Ok_0;
            let encoded = (self.encode)(value)->Ok_0;
            assert(self.call(key).entries == self.entries.insert(key, encoded));
        }
    }
}

/// Whether a codec round-trips: whatever `encode` makes of a value, `decode`
/// makes that value of it again.
pub open spec fn round_trips<T, V, E>(
    encode: spec_fn(T) -> Result<V, E>,
    decode: spec_fn(V) -> Result<T, E>,
) -> bool {
    forall|value: T|
        (#[trigger] encode(value)) matches Ok(encoded) ==> decode(encoded) == Ok::<T, E>(value)
}

/// Cache hit skips computation. Take a key with no entry, and a first call
/// under it that returns a value. Then the first call ran the computation
/// exactly once. A second call under the same key, made on what the first
/// left in a backend that answers the fetch, and with a codec that
/// round-trips, does not run the computation and returns an equal value.
pub proof fn lemma_second_call_is_a_hit<T, V, E>(
    first: World<T, V, E>,
    second: World<T, V, E>,
    key: Seq<char>,
)
    requires
        !first.entries.contains_key(key),
        first.call(key).outcome is Ok,
        second.entries == first.call(key).entries,
        second.fetch_failure is None,
        round_trips(first.encode, second.decode),
    ensures
        first.call(key).computations == 1,
        second.call(key).computations == 0,
        second.call(key).outcome == first.call(key).outcome,
        second.call(key).entries == second.entries,
{
    let value = first.computed->Ok_0;
    let encoded = (first.encode)(value)->Ok_0;
    assert(first.call(key).entries == first.entries.insert(key, encoded));
    assert((second.decode)(encoded) == Ok::<T, E>(value));
}

/// What a miss returns is what a hit will return: where a call stored a new
/// entry and the codec round-trips, the value that the call returned is the
/// value that the codec decodes the entry to.
pub proof fn lemma_miss_returns_what_is_stored<T, V, E>(world: World<T, V, E>, key: Seq<char>)
    requires
        world.call(key).entries != world.entries,
        round_trips(world.encode, world.decode),
    ensures
        world.call(key).entries.contains_key(key),
        world.call(key).outcome == (world.decode)(world.call(key).entries[key]),
{
    world.lemma_only_success_is_cached(key);
}

/// Failure is not cached. Take a key with no entry, and a first call under
/// it whose computation fails. Then the caller gets that failure and the
/// entry is still absent; a second call under the same key, made on what the
/// first left in a backend that answers the fetch, runs the computation
/// again.
pub proof fn lemma_failure_is_not_cached<T, V, E>(
    first: World<T, V, E>,
    second: World<T, V, E>,
    key: Seq<char>,
)
    requires
        !first.entries.contains_key(key),
        first.fetch_failure is None,
        first.computed is Err,
        second.entries == first.call(key).entries,
        second.fetch_failure is None,
    ensures
        first.call(key).computations == 1,
        first.call(key).outcome == first.computed,
        first.call(key).entries == first.entries,
        !second.entries.contains_key(key),
        second.call(key).computations == 1,
{
}

} // verus!
