//! Calling a function that returns at once on the parameters bound to it.
//!
//! A function of up to twelve parameters is called on the tuple of them.

use vstd::prelude::*;

use crate::{FnPair, IsStoreFunction, Sync};

verus! {

impl<O, Func: FnOnce() -> O> IsStoreFunction<()> for FnPair<(), Func, Sync> {
    type Output = O;

    open spec fn accepts(&self, input: ()) -> bool {
        call_requires(self.function(), ())
    }

    open spec fn yields(&self, input: (), output: O) -> bool {
        call_ensures(self.function(), (), output)
    }

    fn call(self, input: ()) -> (output: O) {
        let f = self.into_function();
        f()
    }
}

impl<A, O, Func> IsStoreFunction<(A,)> for FnPair<(A,), Func, Sync> where
    Func: FnOnce(A) -> O,
 {
    type Output = O;

    open spec fn accepts(&self, input: (A,)) -> bool {
        call_requires(self.function(), input)
    }

    open spec fn yields(&self, input: (A,), output: O) -> bool {
        call_ensures(self.function(), input, output)
    }

    fn call(self, input: (A,)) -> (output: O) {
        let f = self.into_function();
        f(input.0)
    }
}

impl<A, B, O, Func> IsStoreFunction<(A, B)> for FnPair<(A, B), Func, Sync> where
    Func: FnOnce(A, B) -> O,
 {
    type Output = O;

    open spec fn accepts(&self, input: (A, B)) -> bool {
        call_requires(self.function(), input)
    }

    open spec fn yields(&self, input: (A, B), output: O) -> bool {
        call_ensures(self.function(), input, output)
    }

    fn call(self, input: (A, B)) -> (output: O) {
        let f = self.into_function();
        f(input.0, input.1)
    }
}

impl<A, B, C, O, Func> IsStoreFunction<(A, B, C)> for FnPair<(A, B, C), Func, Sync> where
    Func: FnOnce(A, B, C) -> O,
 {
    type Output = O;

    open spec fn accepts(&self, input: (A, B, C)) -> bool {
        call_requires(self.function(), input)
    }

    open spec fn yields(&self, input: (A, B, C), output: O) -> bool {
        call_ensures(self.function(), input, output)
    }

    fn call(self, input: (A, B, C)) -> (output: O) {
        let f = self.into_function();
        f(input.0, input.1, input.2)
    }
}

impl<A, B, C, D, O, Func> IsStoreFunction<(A, B, C, D)> for FnPair<(A, B, C, D), Func, Sync> where
    Func: FnOnce(A, B, C, D) -> O,
 {
    type Output = O;

    open spec fn accepts(&self, input: (A, B, C, D)) -> bool {
        call_requires(self.function(), input)
    }

    open spec fn yields(&self, input: (A, B, C, D), output: O) -> bool {
        call_ensures(self.function(), input, output)
    }

    fn call(self, input: (A, B, C, D)) -> (output: O) {
        let f = self.into_function();
        f(input.0, input.1, input.2, input.3)
    }
}

impl<A, B, C, D, E, O, Func> IsStoreFunction<(A, B, C, D, E)>
    for FnPair<(A, B, C, D, E), Func, Sync> where
    Func: FnOnce(A, B, C, D, E) -> O,
 {
    type Output = O;

    open spec fn accepts(&self, input: (A, B, C, D, E)) -> bool {
        call_requires(self.function(), input)
    }

    open spec fn yields(&self, input: (A, B, C, D, E), output: O) -> bool {
        call_ensures(self.function(), input, output)
    }

    fn call(self, input: (A, B, C, D, E)) -> (output: O) {
        let f = self.into_function();
        f(input.0, input.1, input.2, input.3, input.4)
    }
}

impl<A, B, C, D, E, F, O, Func> IsStoreFunction<(A, B, C, D, E, F)>
    for FnPair<(A, B, C, D, E, F), Func, Sync> where
    Func: FnOnce(A, B, C, D, E, F) -> O,
 {
    type Output = O;

    open spec fn accepts(&self, input: (A, B, C, D, E, F)) -> bool {
        call_requires(self.function(), input)
    }

    open spec fn yields(&self, input: (A, B, C, D, E, F), output: O) -> bool {
        call_ensures(self.function(), input, output)
    }

    fn call(self, input: (A, B, C, D, E, F)) -> (output: O) {
        let f = self.into_function();
        f(input.0, input.1, input.2, input.3, input.4, input.5)
    }
}

impl<A, B, C, D, E, F, G, O, Func> IsStoreFunction<(A, B, C, D, E, F, G)>
    for FnPair<(A, B, C, D, E, F, G), Func, Sync> where
    Func: FnOnce(A, B, C, D, E, F, G) -> O,
 {
    type Output = O;

    open spec fn accepts(&self, input: (A, B, C, D, E, F, G)) -> bool {
        call_requires(self.function(), input)
    }

    open spec fn yields(&self, input: (A, B, C, D, E, F, G), output: O) -> bool {
        call_ensures(self.function(), input, output)
    }

    fn call(self, input: (A, B, C, D, E, F, G)) -> (output: O) {
        let f = self.into_function();
        f(input.0, input.1, input.2, input.3, input.4, input.5, input.6)
    }
}

impl<A, B, C, D, E, F, G, H, O, Func> IsStoreFunction<(A, B, C, D, E, F, G, H)>
    for FnPair<(A, B, C, D, E, F, G, H), Func, Sync> where
    Func: FnOnce(A, B, C, D, E, F, G, H) -> O,
 {
    type Output = O;

    open spec fn accepts(&self, input: (A, B, C, D, E, F, G, H)) -> bool {
        call_requires(self.function(), input)
    }

    open spec fn yields(&self, input: (A, B, C, D, E, F, G, H), output: O) -> bool {
        call_ensures(self.function(), input, output)
    }

    fn call(self, input: (A, B, C, D, E, F, G, H)) -> (output: O) {
        let f = self.into_function();
        f(input.0, input.1, input.2, input.3, input.4, input.5, input.6, input.7)
    }
}

impl<A, B, C, D, E, F, G, H, I, O, Func> IsStoreFunction<(A, B, C, D, E, F, G, H, I)>
    for FnPair<(A, B, C, D, E, F, G, H, I), Func, Sync> where
    Func: FnOnce(A, B, C, D, E, F, G, H, I) -> O,
 {
    type Output = O;

    open spec fn accepts(&self, input: (A, B, C, D, E, F, G, H, I)) -> bool {
        call_requires(self.function(), input)
    }

    open spec fn yields(&self, input: (A, B, C, D, E, F, G, H, I), output: O) -> bool {
        call_ensures(self.function(), input, output)
    }

    fn call(self, input: (A, B, C, D, E, F, G, H, I)) -> (output: O) {
        let f = self.into_function();
        f(input.0, input.1, input.2, input.3, input.4, input.5, input.6, input.7, input.8)
    }
}

impl<A, B, C, D, E, F, G, H, I, J, O, Func> IsStoreFunction<(A, B, C, D, E, F, G, H, I, J)>
    for FnPair<(A, B, C, D, E, F, G, H, I, J), Func, Sync> where
    Func: FnOnce(A, B, C, D, E, F, G, H, I, J) -> O,
 {
    type Output = O;

    open spec fn accepts(&self, input: (A, B, C, D, E, F, G, H, I, J)) -> bool {
        call_requires(self.function(), input)
    }

    open spec fn yields(&self, input: (A, B, C, D, E, F, G, H, I, J), output: O) -> bool {
        call_ensures(self.function(), input, output)
    }

    fn call(self, input: (A, B, C, D, E, F, G, H, I, J)) -> (output: O) {
        let f = self.into_function();
        f(input.0, input.1, input.2, input.3, input.4, input.5, input.6, input.7, input.8, input.9)
    }
}

impl<A, B, C, D, E, F, G, H, I, J, K, O, Func> IsStoreFunction<(A, B, C, D, E, F, G, H, I, J, K)>
    for FnPair<(A, B, C, D, E, F, G, H, I, J, K), Func, Sync> where
    Func: FnOnce(A, B, C, D, E, F, G, H, I, J, K) -> O,
 {
    type Output = O;

    open spec fn accepts(&self, input: (A, B, C, D, E, F, G, H, I, J, K)) -> bool {
        call_requires(self.function(), input)
    }

    open spec fn yields(&self, input: (A, B, C, D, E, F, G, H, I, J, K), output: O) -> bool {
        call_ensures(self.function(), input, output)
    }

    fn call(self, input: (A, B, C, D, E, F, G, H, I, J, K)) -> (output: O) {
        let f = self.into_function();
        f(
            input.0, input.1, input.2, input.3, input.4, input.5, input.6, input.7, input.8,
            input.9, input.10,
        )
    }
}

impl<A, B, C, D, E, F, G, H, I, J, K, L, O, Func> IsStoreFunction<(A, B, C, D, E, F, G, H, I, J, K, L)>
    for FnPair<(A, B, C, D, E, F, G, H, I, J, K, L), Func, Sync> where
    Func: FnOnce(A, B, C, D, E, F, G, H, I, J, K, L) -> O,
 {
    type Output = O;

    open spec fn accepts(&self, input: (A, B, C, D, E, F, G, H, I, J, K, L)) -> bool {
        call_requires(self.function(), input)
    }

    open spec fn yields(&self, input: (A, B, C, D, E, F, G, H, I, J, K, L), output: O) -> bool {
        call_ensures(self.function(), input, output)
    }

    fn call(self, input: (A, B, C, D, E, F, G, H, I, J, K, L)) -> (output: O) {
        let f = self.into_function();
        f(
            input.0, input.1, input.2, input.3, input.4, input.5, input.6, input.7, input.8,
            input.9, input.10, input.11,
        )
    }
}

} // verus!
