use vstd::prelude::*;

verus! {

/// Failures reported by the store, the codec and identifier parsing.
#[derive(Debug, Clone, PartialEq, Eq)]
pub enum Error {
    /// The entry is absent, expired or already burned.
    NotFound,
    /// An entry with the same identifier already exists.
    DuplicateId,
    /// Encoding or decoding the stored text failed.
    Compression(String),
    /// The database reported a failure.
    Database(String),
    /// Opening the database or bringing its schema up to date failed.
    Migration(String),
    /// Rendering an entry failed.
    Render(String),
    /// An identifier text does not have exactly six symbols.
    WrongSize,
    /// An identifier text holds a symbol outside the alphabet.
    IllegalCharacters,
}

} // verus!
