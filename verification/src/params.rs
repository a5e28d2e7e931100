//! The parameters of a query, and the rule that decides whether they name
//! somebody to greet.

use vstd::prelude::*;

verus! {

/// The line of plain text that answers a query without a name.
pub const MISSING_NAME: &'static str = "Missing 'name' parameter";

/// Why a query is turned down.
#[derive(Debug, Clone, Copy, PartialEq, Eq, Structural)]
pub enum GreetError {
    /// The query has no `name`, or has an empty one.
    MissingParameter,
}

impl GreetError {
    /// What the caller is told, as plain text.
    pub fn message(&self) -> (text: &'static str)
        ensures
            text@ == MISSING_NAME@,
    {
        match self {
            GreetError::MissingParameter => MISSING_NAME,
        }
    }
}

/// What a query says, once decoded: the value of its `name` key, or `None`
/// where the key is absent. No other key is read.
#[derive(Debug, PartialEq, Eq)]
pub struct HelloParams {
    pub name: Option<String>,
}

impl View for HelloParams {
    type V = Option<Seq<char>>;

    open spec fn view(&self) -> Option<Seq<char>> {
        match self.name {
            Some(name) => Some(name@),
            None => None,
        }
    }
}

impl HelloParams {
    /// A query names somebody when `name` is there and holds at least one
    /// character. Blanks count: nothing is trimmed.
    pub open spec fn has_name(&self) -> bool {
        self@ matches Some(name) && name.len() > 0
    }

    /// Hands out the name to greet, untouched, or says that there is none.
    pub fn validate(self) -> (checked: Result<String, GreetError>)
        ensures
            checked is Ok <==> self.has_name(),
            checked matches Ok(name) ==> self.name == Some(name),
            checked matches Err(error) ==> error == GreetError::MissingParameter,
    {
        match self.name {
            Some(name) => {
                if name.as_str().is_empty() {
                    Err(GreetError::MissingParameter)
                } else {
                    Ok(name)
                }
            },
            None => Err(GreetError::MissingParameter),
        }
    }
}

} // verus!
