//! What can go wrong while a command line is read or the lists are changed.

use vstd::prelude::*;
use vstd::string::StringExecFns;

verus! {

/// Why a command line was turned down.
#[derive(Clone, Copy, Debug, PartialEq, Eq, Structural)]
pub enum ParseError {
    /// The number of tokens after the program name is not one, two or three.
    Arity,
    /// The first token is none of the known verbs.
    UnknownCommand,
    /// The verb needs a list name and none was given.
    MissingListName,
    /// An item was given to a verb that takes a list alone.
    TooManyArguments,
}

impl ParseError {
    /// The text shown to the user for each error.
    pub open spec fn text(self) -> Seq<char> {
        match self {
            ParseError::Arity => "Wrong number of arguments specified."@,
            ParseError::UnknownCommand => "Invalid Argument."@,
            ParseError::MissingListName => "Please supply a list name."@,
            ParseError::TooManyArguments => "Show only takes one argument: <list>."@,
        }
    }

    /// The message of this error.
    pub fn message(&self) -> (text: &'static str)
        ensures
            text@ == self.text(),
    {
        match self {
            ParseError::Arity => "Wrong number of arguments specified.",
            ParseError::UnknownCommand => "Invalid Argument.",
            ParseError::MissingListName => "Please supply a list name.",
            ParseError::TooManyArguments => "Show only takes one argument: <list>.",
        }
    }
}

/// Why the store could not do what was asked.
#[derive(Clone, Debug, PartialEq, Eq)]
pub enum StoreError {
    /// No list has this name.
    NotFound(String),
    /// The stored text does not hold lists. Holds the detail for the user.
    Serialization(String),
}

impl StoreError {
    /// The text shown to the user for each error.
    pub open spec fn text(self) -> Seq<char> {
        match self {
            StoreError::NotFound(name) => "no list named '"@ + name@ + "' exists"@,
            StoreError::Serialization(detail) => detail@,
        }
    }

    /// The message of this error.
    pub fn message(&self) -> (text: String)
        ensures
            text@ == self.text(),
    {
        match self {
            StoreError::NotFound(name) => String::from_str("no list named '").concat(
                name.as_str(),
            ).concat("' exists"),
            StoreError::Serialization(detail) => detail.clone(),
        }
    }
}

} // verus!
