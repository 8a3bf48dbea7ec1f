//! Async state types: the externally visible resolution state of a key, and
//! the stored outcome of one producer run.

use vstd::prelude::*;
use vstd::std_specs::cmp::PartialEqSpec;

verus! {

/// The common shape of async state types: loading, success, or error.
pub trait AsyncState {
    /// The type of successful data.
    type Data;

    /// The type of error.
    type Error;

    /// Whether the state is loading.
    spec fn spec_is_loading(&self) -> bool;

    /// Whether the state holds successful data.
    spec fn spec_is_success(&self) -> bool;

    /// Whether the state holds an error.
    spec fn spec_is_error(&self) -> bool;

    /// The successful data, if any.
    spec fn spec_data(&self) -> Option<Self::Data>;

    /// The error, if any.
    spec fn spec_error(&self) -> Option<Self::Error>;

    /// Reports whether the state is loading.
    fn is_loading(&self) -> (r: bool)
        ensures
            r == self.spec_is_loading(),
    ;

    /// Reports whether the state holds successful data.
    fn is_success(&self) -> (r: bool)
        ensures
            r == self.spec_is_success(),
    ;

    /// Reports whether the state holds an error.
    fn is_error(&self) -> (r: bool)
        ensures
            r == self.spec_is_error(),
    ;

    /// The successful data, if any.
    fn data(&self) -> (r: Option<&Self::Data>)
        ensures
            match r {
                Some(d) => self.spec_data() == Some(*d),
                None => self.spec_data() is None,
            },
    ;

    /// The error, if any.
    fn error(&self) -> (r: Option<&Self::Error>)
        ensures
            match r {
                Some(e) => self.spec_error() == Some(*e),
                None => self.spec_error() is None,
            },
    ;
}

/// The externally visible state of one key's resolution.
#[derive(Clone, PartialEq, Debug)]
pub enum State<T, E> {
    /// The producer is running and no previous value is shown.
    Loading,
    /// The resolution completed with data.
    Success(T),
    /// The resolution failed with an error.
    Error(E),
}

impl<T, E> AsyncState for State<T, E> {
    type Data = T;

    type Error = E;

    open spec fn spec_is_loading(&self) -> bool {
        self is Loading
    }

    open spec fn spec_is_success(&self) -> bool {
        self is Success
    }

    open spec fn spec_is_error(&self) -> bool {
        self is Error
    }

    open spec fn spec_data(&self) -> Option<T> {
        match self {
            State::Success(d) => Some(*d),
            _ => None,
        }
    }

    open spec fn spec_error(&self) -> Option<E> {
        match self {
            State::Error(e) => Some(*e),
            _ => None,
        }
    }

    fn is_loading(&self) -> (r: bool) {
        match self {
            State::Loading => true,
            _ => false,
        }
    }

    fn is_success(&self) -> (r: bool) {
        match self {
            State::Success(_) => true,
            _ => false,
        }
    }

    fn is_error(&self) -> (r: bool) {
        match self {
            State::Error(_) => true,
            _ => false,
        }
    }

    fn data(&self) -> (r: Option<&T>) {
        match self {
            State::Success(d) => Some(d),
            _ => None,
        }
    }

    fn error(&self) -> (r: Option<&E>) {
        match self {
            State::Error(e) => Some(e),
            _ => None,
        }
    }
}

impl<T, E> State<T, E> {
    /// Reports whether the state is loading.
    pub fn is_loading(&self) -> (r: bool)
        ensures
            r == (self is Loading),
    {
        <Self as AsyncState>::is_loading(self)
    }

    /// Reports whether the state holds successful data.
    pub fn is_success(&self) -> (r: bool)
        ensures
            r == (self is Success),
    {
        <Self as AsyncState>::is_success(self)
    }

    /// Reports whether the state holds an error.
    pub fn is_error(&self) -> (r: bool)
        ensures
            r == (self is Error),
    {
        <Self as AsyncState>::is_error(self)
    }

    /// The successful data, if any.
    pub fn data(&self) -> (r: Option<&T>)
        ensures
            match r {
                Some(d) => self matches State::Success(x) && x == *d,
                None => !(self is Success),
            },
    {
        match self {
            State::Success(d) => Some(d),
            _ => None,
        }
    }

    /// The error, if any.
    pub fn error(&self) -> (r: Option<&E>)
        ensures
            match r {
                Some(e) => self matches State::Error(x) && x == *e,
                None => !(self is Error),
            },
    {
        match self {
            State::Error(e) => Some(e),
            _ => None,
        }
    }

    /// Applies `op` to the data of a successful state; other states pass
    /// through.
    pub fn map<U, F: FnOnce(T) -> U>(self, op: F) -> (r: State<U, E>)
        requires
            forall|d: T| self == State::<T, E>::Success(d) ==> call_requires(op, (d,)),
        ensures
            match (self, r) {
                (State::Success(d), State::Success(u)) => call_ensures(op, (d,), u),
                (State::Error(e), State::Error(e2)) => e == e2,
                (State::Loading, State::Loading) => true,
                _ => false,
            },
    {
        match self {
            State::Success(data) => State::Success(op(data)),
            State::Error(e) => State::Error(e),
            State::Loading => State::Loading,
        }
    }

    /// Applies `op` to the error of a failed state; other states pass
    /// through.
    pub fn map_err<F, O: FnOnce(E) -> F>(self, op: O) -> (r: State<T, F>)
        requires
            forall|e: E| self == State::<T, E>::Error(e) ==> call_requires(op, (e,)),
        ensures
            match (self, r) {
                (State::Success(d), State::Success(d2)) => d == d2,
                (State::Error(e), State::Error(f)) => call_ensures(op, (e,), f),
                (State::Loading, State::Loading) => true,
                _ => false,
            },
    {
        match self {
            State::Success(data) => State::Success(data),
            State::Error(e) => State::Error(op(e)),
            State::Loading => State::Loading,
        }
    }

    /// Chains `op` onto the data of a successful state; other states pass
    /// through.
    pub fn and_then<U, F: FnOnce(T) -> State<U, E>>(self, op: F) -> (r: State<U, E>)
        requires
            forall|d: T| self == State::<T, E>::Success(d) ==> call_requires(op, (d,)),
        ensures
            match self {
                State::Success(d) => call_ensures(op, (d,), r),
                State::Error(e) => r == State::<U, E>::Error(e),
                State::Loading => r == State::<U, E>::Loading,
            },
    {
        match self {
            State::Success(data) => op(data),
            State::Error(e) => State::Error(e),
            State::Loading => State::Loading,
        }
    }
}

/// The stored outcome of one producer run: data or an error.  Producer
/// failures are cached exactly like successes, so the cache's value type is
/// this enum rather than the success payload alone.
#[derive(Debug)]
pub enum Outcome<T, E> {
    /// The producer returned data.
    Success(T),
    /// The producer failed.
    Failure(E),
}

/// Whether `b` is a clone of `a`: the same variant, its payload a clone of
/// `a`'s payload.
pub open spec fn outcome_cloned<T: Clone, E: Clone>(a: Outcome<T, E>, b: Outcome<T, E>) -> bool {
    match a {
        Outcome::Success(x) => match b {
            Outcome::Success(y) => cloned(x, y),
            Outcome::Failure(_) => false,
        },
        Outcome::Failure(x) => match b {
            Outcome::Success(_) => false,
            Outcome::Failure(y) => cloned(x, y),
        },
    }
}

impl<T: Clone, E: Clone> Clone for Outcome<T, E> {
    fn clone(&self) -> (r: Self)
        ensures
            outcome_cloned(*self, r),
    {
        match self {
            Outcome::Success(d) => Outcome::Success(d.clone()),
            Outcome::Failure(e) => Outcome::Failure(e.clone()),
        }
    }
}

impl<T: PartialEqSpec, E: PartialEqSpec> PartialEq for Outcome<T, E> {
    fn eq(&self, other: &Self) -> (r: bool) {
        match self {
            Outcome::Success(a) => match other {
                Outcome::Success(b) => *a == *b,
                Outcome::Failure(_) => false,
            },
            Outcome::Failure(a) => match other {
                Outcome::Success(_) => false,
                Outcome::Failure(b) => *a == *b,
            },
        }
    }
}

impl<T: PartialEqSpec, E: PartialEqSpec> vstd::std_specs::cmp::PartialEqSpecImpl for Outcome<T, E> {
    open spec fn obeys_eq_spec() -> bool {
        T::obeys_eq_spec() && E::obeys_eq_spec()
    }

    open spec fn eq_spec(&self, other: &Self) -> bool {
        match self {
            Outcome::Success(a) => match other {
                Outcome::Success(b) => T::eq_spec(a, b),
                Outcome::Failure(_) => false,
            },
            Outcome::Failure(a) => match other {
                Outcome::Success(_) => false,
                Outcome::Failure(b) => E::eq_spec(a, b),
            },
        }
    }
}

impl<T, E> Outcome<T, E> {
    /// Whether the outcome holds data.
    pub fn is_success(&self) -> (r: bool)
        ensures
            r == (self is Success),
    {
        match self {
            Outcome::Success(_) => true,
            _ => false,
        }
    }

    /// Whether the outcome holds an error.
    pub fn is_failure(&self) -> (r: bool)
        ensures
            r == (self is Failure),
    {
        match self {
            Outcome::Failure(_) => true,
            _ => false,
        }
    }
}

} // verus!

