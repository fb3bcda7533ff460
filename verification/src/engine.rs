//! What the grammar engine hands back.
//!
//! The engine is a `nom` parser: it reads statements from the beginning of a source text. It
//! answers with the text that it left unread and the statements that it read, or with an error
//! that holds a code and the input at which it stopped.

use nom::error::ErrorKind;
use vstd::prelude::*;

verus! {

/// `nom::error::ErrorKind`, the code by which a parser says what it failed at. The library hands
/// it on and never looks into it.
#[verifier::external_type_specification]
#[verifier::external_body]
pub struct ExErrorKind(nom::error::ErrorKind);

/// `PartialEq::eq` on `nom::error::ErrorKind`, which `derive` wrote for it: whether the two codes
/// are the same code.
pub assume_specification[ <nom::error::ErrorKind as PartialEq>::eq ](
    kind: &ErrorKind,
    other: &ErrorKind,
) -> (same: bool)
    ensures
        same == (*kind == *other),
;

/// `nom::Needed`, by which a parser says how much more input it asks for. The library never looks
/// into it.
#[verifier::external_type_specification]
#[verifier::external_body]
pub struct ExNeeded(nom::Needed);

/// `nom::error::Error`, with its two public fields: `input`, the input at which the parser
/// stopped, and `code`.
#[verifier::external_type_specification]
#[verifier::reject_recursive_types(I)]
pub struct ExError<I>(nom::error::Error<I>);

/// `nom::Err`, with its three variants: `Incomplete`, `Error` and `Failure`.
#[verifier::external_type_specification]
#[verifier::reject_recursive_types(E)]
pub struct ExErr<E>(nom::Err<E>);

/// What `finish` makes of a parser's answer: the `Ok` side as it is, and the error that
/// `Err::Error` or `Err::Failure` holds. It makes nothing of `Err::Incomplete`, by which a parser
/// asks for more input.
pub open spec fn finished<I, O, E>(answer: Result<(I, O), nom::Err<E>>) -> Option<
    Result<(I, O), E>,
> {
    match answer {
        Ok(read) => Some(Ok(read)),
        Err(nom::Err::Error(error)) => Some(Err(error)),
        Err(nom::Err::Failure(error)) => Some(Err(error)),
        Err(nom::Err::Incomplete(_)) => None,
    }
}

/// `nom::Finish::finish` on a parser's answer. It keeps the `Ok` side and hands out the error
/// that `Err::Error` or `Err::Failure` holds. On `Err::Incomplete` it panics: `requires` leaves
/// that answer out.
#[verifier::external_body]
pub(crate) fn finish<I, O, E>(answer: Result<(I, O), nom::Err<E>>) -> (done: Result<(I, O), E>)
    requires
        finished(answer) is Some,
    ensures
        Some(done) == finished(answer),
{
    nom::Finish::finish(answer)
}

/// What the engine says of a source text, as mathematical values. `S` stands for the statements.
pub enum Outcome<S> {
    /// The engine read `stats` and left `rest` unread.
    Matched { rest: Seq<char>, stats: S },
    /// The engine stopped with the code `kind` and had not read `text`.
    Failed { kind: ErrorKind, text: Seq<char> },
}

/// The [`Outcome`] that a finished answer of the engine stands for.
pub open spec fn outcome_of<'a, S>(
    done: Result<(&'a str, S), nom::error::Error<&'a str>>,
) -> Outcome<S> {
    match done {
        Ok((rest, stats)) => Outcome::Matched { rest: rest@, stats },
        Err(error) => Outcome::Failed { kind: error.code, text: error.input@ },
    }
}

} // verus!
