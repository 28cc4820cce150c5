use vstd::prelude::*;

verus! {

/// The outcome of one asynchronous fetch: still loading, loaded, or failed.
#[derive(Debug, Clone)]
pub enum Loadable<T, E> {
    Loading,
    Ready(T),
    Error(E),
}

impl<T, E> Loadable<T, E> {
    pub open spec fn spec_is_ready(&self) -> bool {
        self is Ready
    }

    pub open spec fn spec_is_err(&self) -> bool {
        self is Error
    }

    pub open spec fn spec_is_loading(&self) -> bool {
        self is Loading
    }

    pub fn is_ready(&self) -> (r: bool)
        ensures
            r == self.spec_is_ready(),
    {
        match self {
            Loadable::Ready(_) => true,
            _ => false,
        }
    }

    pub fn is_err(&self) -> (r: bool)
        ensures
            r == self.spec_is_err(),
    {
        match self {
            Loadable::Error(_) => true,
            _ => false,
        }
    }

    pub fn is_loading(&self) -> (r: bool)
        ensures
            r == self.spec_is_loading(),
    {
        match self {
            Loadable::Loading => true,
            _ => false,
        }
    }
}

} // verus!
