//! Errors of the data grid.
use vstd::prelude::*;

verus! {

/// Why a cell edit could not be staged.
#[derive(Debug)]
pub enum StageError {
    /// The typed value does not fit the column's type; holds the explanation.
    InvalidData(String),
    /// No cell is being edited.
    NoActiveEdit,
}

impl StageError {
    /// The text that the error displays.
    pub open spec fn message_spec(&self) -> Seq<char> {
        match self {
            StageError::InvalidData(m) => "Dữ liệu không hợp lệ: "@ + m@,
            StageError::NoActiveEdit => "Không có phiên chỉnh sửa nào đang hoạt động"@,
        }
    }

    /// The text that the error displays.
    pub fn to_message(&self) -> (r: String)
        ensures
            r@ == self.message_spec(),
    {
        match self {
            StageError::InvalidData(m) => {
                let mut s = String::from_str("Dữ liệu không hợp lệ: ");
                s.append(m.as_str());
                s
            },
            StageError::NoActiveEdit => String::from_str(
                "Không có phiên chỉnh sửa nào đang hoạt động",
            ),
        }
    }
}

/// An error shown by the grid.
#[derive(Clone, Debug)]
pub enum GridError {
    /// The table could not be loaded at all (usually on first load).
    Fatal(String),
    /// A refresh failed; the data loaded before is still shown.
    Refresh(String),
    /// Committing the changes failed.
    Commit(String),
}

impl GridError {
    /// The error keeps the table from being shown.
    pub fn is_fatal(&self) -> (r: bool)
        ensures
            r == (*self is Fatal),
    {
        matches!(self, GridError::Fatal(_))
    }

    /// The message the error carries.
    pub open spec fn message_spec(&self) -> Seq<char> {
        match self {
            GridError::Fatal(m) => m@,
            GridError::Refresh(m) => m@,
            GridError::Commit(m) => m@,
        }
    }

    /// The message the error carries.
    pub fn message(&self) -> (r: String)
        ensures
            r@ == self.message_spec(),
    {
        match self {
            GridError::Fatal(m) => m.clone(),
            GridError::Refresh(m) => m.clone(),
            GridError::Commit(m) => m.clone(),
        }
    }
}

} // verus!
