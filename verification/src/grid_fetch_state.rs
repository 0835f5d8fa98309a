//! Where a grid's data fetch stands.
use vstd::prelude::*;
use crate::grid_error::GridError;

verus! {

/// The state of fetching a grid's data.
#[derive(Debug, Clone)]
pub enum GridFetchState {
    Idle,
    Loading,
    Loaded,
    Error(GridError),
}

impl GridFetchState {
    pub fn is_loading(&self) -> (r: bool)
        ensures
            r == (*self is Loading),
    {
        matches!(self, GridFetchState::Loading)
    }

    pub fn is_idle(&self) -> (r: bool)
        ensures
            r == (*self is Idle),
    {
        matches!(self, GridFetchState::Idle)
    }

    pub fn is_loaded(&self) -> (r: bool)
        ensures
            r == (*self is Loaded),
    {
        matches!(self, GridFetchState::Loaded)
    }

    pub fn is_error(&self) -> (r: bool)
        ensures
            r == (*self is Error),
    {
        matches!(self, GridFetchState::Error(_))
    }

    pub fn is_fatal(&self) -> (r: bool)
        ensures
            r == (*self matches GridFetchState::Error(GridError::Fatal(_))),
    {
        matches!(self, GridFetchState::Error(GridError::Fatal(_)))
    }

    /// Whether data fetched earlier can be shown: after a load, after a
    /// failed refresh (the old data stays) and after a failed commit (the data
    /// is valid); not while idle, loading, or after a fatal error.
    pub open spec fn has_displayable_data_spec(&self) -> bool {
        match self {
            GridFetchState::Loaded => true,
            GridFetchState::Error(GridError::Refresh(_)) => true,
            GridFetchState::Error(GridError::Commit(_)) => true,
            _ => false,
        }
    }

    pub fn has_displayable_data(&self) -> (r: bool)
        ensures
            r == self.has_displayable_data_spec(),
    {
        match self {
            GridFetchState::Loaded => true,
            GridFetchState::Error(GridError::Refresh(_)) => true,
            GridFetchState::Error(GridError::Commit(_)) => true,
            _ => false,
        }
    }

    /// The error, if the fetch failed.
    pub fn as_error(&self) -> (r: Option<&GridError>)
        ensures
            r matches Some(e) ==> *self == GridFetchState::Error(*e),
            r is None <==> !(*self is Error),
    {
        match self {
            GridFetchState::Error(e) => Some(e),
            _ => None,
        }
    }
}

} // verus!
