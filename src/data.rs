use vstd::prelude::*;

verus! {

/// A stored agent definition.
#[derive(Debug)]
pub struct Agent {
    pub id: i32,
    pub code: String,
    pub display_name: String,
    pub system_prompt: String,
}

/// A tool as the store describes it.
#[derive(Debug)]
pub struct Tool {
    pub name: String,
    pub description: String,
}

/// The store failed, with the database's message.
#[derive(Debug, PartialEq, Eq)]
pub enum DbError {
    SqlError(String),
}

impl DbError {
    /// The text an operator sees.
    pub fn message(&self) -> (r: String)
        ensures
            self matches DbError::SqlError(d) && r@ == "Sql error: "@ + d@,
    {
        match self {
            DbError::SqlError(d) => String::from_str("Sql error: ").concat(d.as_str()),
        }
    }
}

/// Agent definitions kept in one file.
#[derive(Debug)]
pub struct FileBasedAgentStore {
    pub path: String,
}

impl FileBasedAgentStore {
    pub fn new(path: &str) -> (r: Self)
        ensures
            r.path@ == path@,
    {
        FileBasedAgentStore { path: path.to_owned() }
    }
}

} // verus!
