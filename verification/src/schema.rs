//! The result-set shapes that the grid and the query views work with.
use vstd::prelude::*;

verus! {

/// A column of a result set: its name and, where the database reports one,
/// its declared SQL type.
#[derive(Debug, Clone)]
pub struct Column {
    pub name: String,
    pub declared_type: Option<String>,
}

impl Column {
    /// The declared type, or the empty text when there is none.
    pub open spec fn type_text(&self) -> Seq<char> {
        match self.declared_type {
            Some(t) => t@,
            None => Seq::<char>::empty(),
        }
    }

    /// `declared_type.clone().unwrap_or_default()`.
    pub fn declared_type_or_empty(&self) -> (r: String)
        ensures
            r@ == self.type_text(),
    {
        match &self.declared_type {
            Some(t) => t.clone(),
            None => String::new(),
        }
    }

    pub fn name_clone(&self) -> (r: String)
        ensures
            r@ == self.name@,
    {
        self.name.clone()
    }
}

/// A row of a result set: the display text of each value, `None` for SQL
/// `NULL`.
#[derive(Debug, Clone)]
pub struct Row {
    pub values: Vec<Option<String>>,
}

} // verus!
