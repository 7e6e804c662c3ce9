//! Growing a tuple by one element.
//!
//! The parameters bound into a cached call are kept as a tuple, which gains
//! one element with every parameter that is appended.

use vstd::prelude::*;

verus! {

/// A tuple that can take one more element of type `T` at its end.
pub trait Bundle<T>: Sized {
    /// The tuple with the element appended.
    type Suffixed;

    /// The elements of `self`, in order, followed by `element`.
    spec fn suffixed(self, element: T) -> Self::Suffixed;

    /// Appends `element`.
    fn suffix(self, element: T) -> (bundle: Self::Suffixed)
        ensures
            bundle == self.suffixed(element),
    ;
}

impl<T> Bundle<T> for () {
    type Suffixed = (T,);

    open spec fn suffixed(self, element: T) -> (T,) {
        (element,)
    }

    fn suffix(self, element: T) -> (bundle: (T,)) {
        (element,)
    }
}

impl<A, T> Bundle<T> for (A,) {
    type Suffixed = (A, T);

    open spec fn suffixed(self, element: T) -> (A, T) {
        (self.0, element)
    }

    fn suffix(self, element: T) -> (bundle: (A, T)) {
        (self.0, element)
    }
}

impl<A, B, T> Bundle<T> for (A, B) {
    type Suffixed = (A, B, T);

    open spec fn suffixed(self, element: T) -> (A, B, T) {
        (self.0, self.1, element)
    }

    fn suffix(self, element: T) -> (bundle: (A, B, T)) {
        (self.0, self.1, element)
    }
}

impl<A, B, C, T> Bundle<T> for (A, B, C) {
    type Suffixed = (A, B, C, T);

    open spec fn suffixed(self, element: T) -> (A, B, C, T) {
        (self.0, self.1, self.2, element)
    }

    fn suffix(self, element: T) -> (bundle: (A, B, C, T)) {
        (self.0, self.1, self.2, element)
    }
}

impl<A, B, C, D, T> Bundle<T> for (A, B, C, D) {
    type Suffixed = (A, B, C, D, T);

    open spec fn suffixed(self, element: T) -> (A, B, C, D, T) {
        (self.0, self.1, self.2, self.3, element)
    }

    fn suffix(self, element: T) -> (bundle: (A, B, C, D, T)) {
        (self.0, self.1, self.2, self.3, element)
    }
}

impl<A, B, C, D, E, T> Bundle<T> for (A, B, C, D, E) {
    type Suffixed = (A, B, C, D, E, T);

    open spec fn suffixed(self, element: T) -> (A, B, C, D, E, T) {
        (self.0, self.1, self.2, self.3, self.4, element)
    }

    fn suffix(self, element: T) -> (bundle: (A, B, C, D, E, T)) {
        (self.0, self.1, self.2, self.3, self.4, element)
    }
}

impl<A, B, C, D, E, F, T> Bundle<T> for (A, B, C, D, E, F) {
    type Suffixed = (A, B, C, D, E, F, T);

    open spec fn suffixed(self, element: T) -> (A, B, C, D, E, F, T) {
        (self.0, self.1, self.2, self.3, self.4, self.5, element)
    }

    fn suffix(self, element: T) -> (bundle: (A, B, C, D, E, F, T)) {
        (self.0, self.1, self.2, self.3, self.4, self.5, element)
    }
}

impl<A, B, C, D, E, F, G, T> Bundle<T> for (A, B, C, D, E, F, G) {
    type Suffixed = (A, B, C, D, E, F, G, T);

    open spec fn suffixed(self, element: T) -> (A, B, C, D, E, F, G, T) {
        (self.0, self.1, self.2, self.3, self.4, self.5, self.6, element)
    }

    fn suffix(self, element: T) -> (bundle: (A, B, C, D, E, F, G, T)) {
        (self.0, self.1, self.2, self.3, self.4, self.5, self.6, element)
    }
}

impl<A, B, C, D, E, F, G, H, T> Bundle<T> for (A, B, C, D, E, F, G, H) {
    type Suffixed = (A, B, C, D, E, F, G, H, T);

    open spec fn suffixed(self, element: T) -> (A, B, C, D, E, F, G, H, T) {
        (self.0, self.1, self.2, self.3, self.4, self.5, self.6, self.7, element)
    }

    fn suffix(self, element: T) -> (bundle: (A, B, C, D, E, F, G, H, T)) {
        (self.0, self.1, self.2, self.3, self.4, self.5, self.6, self.7, element)
    }
}

impl<A, B, C, D, E, F, G, H, I, T> Bundle<T> for (A, B, C, D, E, F, G, H, I) {
    type Suffixed = (A, B, C, D, E, F, G, H, I, T);

    open spec fn suffixed(self, element: T) -> (A, B, C, D, E, F, G, H, I, T) {
        (self.0, self.1, self.2, self.3, self.4, self.5, self.6, self.7, self.8, element)
    }

    fn suffix(self, element: T) -> (bundle: (A, B, C, D, E, F, G, H, I, T)) {
        (self.0, self.1, self.2, self.3, self.4, self.5, self.6, self.7, self.8, element)
    }
}

impl<A, B, C, D, E, F, G, H, I, J, T> Bundle<T> for (A, B, C, D, E, F, G, H, I, J) {
    type Suffixed = (A, B, C, D, E, F, G, H, I, J, T);

    open spec fn suffixed(self, element: T) -> (A, B, C, D, E, F, G, H, I, J, T) {
        (self.0, self.1, self.2, self.3, self.4, self.5, self.6, self.7, self.8, self.9, element)
    }

    fn suffix(self, element: T) -> (bundle: (A, B, C, D, E, F, G, H, I, J, T)) {
        (self.0, self.1, self.2, self.3, self.4, self.5, self.6, self.7, self.8, self.9, element)
    }
}

impl<A, B, C, D, E, F, G, H, I, J, K, T> Bundle<T> for (A, B, C, D, E, F, G, H, I, J, K) {
    type Suffixed = (A, B, C, D, E, F, G, H, I, J, K, T);

    open spec fn suffixed(self, element: T) -> (A, B, C, D, E, F, G, H, I, J, K, T) {
        (self.0, self.1, self.2, self.3, self.4, self.5, self.6, self.7, self.8, self.9, self.10, element)
    }

    fn suffix(self, element: T) -> (bundle: (A, B, C, D, E, F, G, H, I, J, K, T)) {
        (self.0, self.1, self.2, self.3, self.4, self.5, self.6, self.7, self.8, self.9, self.10, element)
    }
}

} // verus!
