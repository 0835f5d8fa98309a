//! The progress of an asynchronous fetch.
use vstd::prelude::*;

verus! {

/// An error reported by the database engine, carried by its message.
#[derive(Debug, Clone)]
pub struct EngineError {
    pub message: String,
}

/// The state of a fetch. Flow: `Idle` → `Loading` → `Loaded(data)` or `Error`.
#[derive(Debug, Clone)]
pub enum LoadState<T> {
    /// No fetch started yet.
    Idle,
    /// The data is being fetched.
    Loading,
    /// The fetched data.
    Loaded(T),
    /// The fetch failed.
    Error(EngineError),
}

impl<T> LoadState<T> {
    pub fn is_loading(&self) -> (r: bool)
        ensures
            r == (*self is Loading),
    {
        matches!(self, LoadState::Loading)
    }

    pub fn is_loaded(&self) -> (r: bool)
        ensures
            r == (*self is Loaded),
    {
        matches!(self, LoadState::Loaded(_))
    }

    pub fn is_idle(&self) -> (r: bool)
        ensures
            r == (*self is Idle),
    {
        matches!(self, LoadState::Idle)
    }

    pub fn is_error(&self) -> (r: bool)
        ensures
            r == (*self is Error),
    {
        matches!(self, LoadState::Error(_))
    }

    /// The fetched data, if loaded.
    pub fn as_loaded(&self) -> (r: Option<&T>)
        ensures
            match *self {
                LoadState::Loaded(d) => r matches Some(x) && *x == d,
                _ => r is None,
            },
    {
        match self {
            LoadState::Loaded(data) => Some(data),
            _ => None,
        }
    }

    /// The fetched data, if loaded, to change in place.
    pub fn as_loaded_mut(&mut self) -> (r: Option<&mut T>)
        ensures
            match *old(self) {
                LoadState::Loaded(d) => r matches Some(x) && *x == d && *final(self)
                    == LoadState::Loaded::<T>(*final(x)),
                _ => r is None && *final(self) == *old(self),
            },
    {
        match self {
            LoadState::Loaded(data) => Some(data),
            _ => None,
        }
    }

    /// The error, if the fetch failed.
    pub fn as_error(&self) -> (r: Option<&EngineError>)
        ensures
            match *self {
                LoadState::Error(e) => r matches Some(x) && *x == e,
                _ => r is None,
            },
    {
        match self {
            LoadState::Error(err) => Some(err),
            _ => None,
        }
    }

    /// Starts a fetch when none was started: `Idle` becomes `Loading` and the
    /// answer is `true`; any other state stays and the answer is `false`.
    pub fn begin_load(&mut self) -> (started: bool)
        ensures
            started == (*old(self) is Idle),
            started ==> *final(self) is Loading,
            !started ==> *final(self) == *old(self),
    {
        if self.is_idle() {
            *self = LoadState::Loading;
            true
        } else {
            false
        }
    }
}

} // verus!
