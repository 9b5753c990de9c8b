//! The ways in which a call fails.

use vstd::prelude::*;
use vstd::string::StringExecFns;
use crate::column::DataType;
use crate::column::TypeTag;

verus! {

/// The place of an argument in a call.
#[derive(Debug, Clone, Copy, PartialEq, Eq, Structural)]
pub enum Position {
    /// The subject texts.
    Input,
    /// The patterns.
    Pattern,
    /// The capture-group indices.
    GroupIndex,
}

/// Why a call failed. Every failure ends the whole call: no row of output is
/// produced.
#[derive(Debug, Clone, PartialEq, Eq)]
pub enum ExtractError {
    /// The subject column is of neither text type; holds the type it has.
    UnsupportedInputType(DataType),
    /// A pattern is not a regular expression that can be compiled; holds the
    /// pattern's text.
    PatternCompileError(String),
    /// An argument is not of the type that its place calls for; holds the
    /// place and the type that was called for.
    RepresentationMismatchError(Position, DataType),
}

/// What an [`ExtractError`] is in contracts.
pub ghost enum Failure {
    UnsupportedInputType(TypeTag),
    PatternCompileError(Seq<char>),
    RepresentationMismatchError(Position, TypeTag),
}

impl View for ExtractError {
    type V = Failure;

    open spec fn view(&self) -> Failure {
        match self {
            ExtractError::UnsupportedInputType(found) => Failure::UnsupportedInputType(found@),
            ExtractError::PatternCompileError(pattern) => Failure::PatternCompileError(pattern@),
            ExtractError::RepresentationMismatchError(position, expected) =>
                Failure::RepresentationMismatchError(*position, expected@),
        }
    }
}

/// How a place is called in a message.
pub open spec fn position_word(position: Position) -> Seq<char> {
    match position {
        Position::Input => "input"@,
        Position::Pattern => "pattern"@,
        Position::GroupIndex => "group index"@,
    }
}

/// How the array of a type is called in a message.
pub open spec fn array_word(expected: TypeTag) -> Seq<char> {
    match expected {
        TypeTag::Utf8 => "string"@,
        TypeTag::LargeUtf8 => "large string"@,
        TypeTag::Int64 => "int64"@,
        TypeTag::Other(name) => name,
    }
}

impl Failure {
    /// The message that describes the failure.
    pub open spec fn message(self) -> Seq<char> {
        match self {
            Failure::UnsupportedInputType(found) => "Unsupported input type: "@ + found.name(),
            Failure::PatternCompileError(pattern) =>
                "Unable to compile pattern '"@ + pattern + "' into regex"@,
            Failure::RepresentationMismatchError(position, expected) =>
                "Failed to downcast "@ + position_word(position) + " array to "@
                    + array_word(expected) + " array"@,
        }
    }
}

fn position_name(position: Position) -> (word: &'static str)
    ensures
        word@ == position_word(position),
{
    match position {
        Position::Input => "input",
        Position::Pattern => "pattern",
        Position::GroupIndex => "group index",
    }
}

fn array_name(expected: &DataType) -> (word: String)
    ensures
        word@ == array_word(expected@),
{
    match expected {
        DataType::Utf8 => "string".to_owned(),
        DataType::LargeUtf8 => "large string".to_owned(),
        DataType::Int64 => "int64".to_owned(),
        DataType::Other(name) => name.clone(),
    }
}

impl ExtractError {
    /// The message that describes the failure, naming the offending type or
    /// pattern.
    pub fn message(&self) -> (text: String)
        ensures
            text@ == self@.message(),
    {
        match self {
            ExtractError::UnsupportedInputType(found) => {
                let name = found.name();
                "Unsupported input type: ".to_owned().concat(name.as_str())
            },
            ExtractError::PatternCompileError(pattern) => {
                "Unable to compile pattern '".to_owned().concat(pattern.as_str()).concat(
                    "' into regex",
                )
            },
            ExtractError::RepresentationMismatchError(position, expected) => {
                let array = array_name(expected);
                "Failed to downcast ".to_owned().concat(position_name(*position)).concat(
                    " array to ",
                ).concat(array.as_str()).concat(" array")
            },
        }
    }
}

} // verus!
