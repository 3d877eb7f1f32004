use vstd::prelude::*;

verus! {

/// Why one field declaration of a schema was rejected.
#[derive(Debug, Clone, Copy, PartialEq, Eq, Structural)]
pub enum ParserError {
    TypeInvalid,
    CharSizeInvalid,
    TypeNotFound,
    SizeNotFound,
    BoundsInvalid,
}

/// The human-readable description of an error.
pub open spec fn error_text(e: ParserError) -> Seq<char> {
    match e {
        ParserError::TypeInvalid => "ParserError: type invalid!"@,
        ParserError::CharSizeInvalid => "ParserError: chars size invalid!"@,
        ParserError::TypeNotFound => "ParserError: type not found!"@,
        ParserError::SizeNotFound => "ParserError: size not found!"@,
        ParserError::BoundsInvalid => "ParserError: bounds invalid!"@,
    }
}

impl ParserError {
    /// Describes the error; this is the text placed in schema error reports.
    pub fn message(&self) -> (r: String)
        ensures
            r@ == error_text(*self),
    {
        match self {
            ParserError::TypeInvalid => "ParserError: type invalid!".to_owned(),
            ParserError::CharSizeInvalid => "ParserError: chars size invalid!".to_owned(),
            ParserError::TypeNotFound => "ParserError: type not found!".to_owned(),
            ParserError::SizeNotFound => "ParserError: size not found!".to_owned(),
            ParserError::BoundsInvalid => "ParserError: bounds invalid!".to_owned(),
        }
    }
}

} // verus!
