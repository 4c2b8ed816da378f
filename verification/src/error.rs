//! Failures. They are those of the algorithm library, so that a failure of
//! one of its functions passes through an erased function as it stands.
use vstd::prelude::*;
use vstd::string::*;
use opendp::error::{Error, ErrorVariant, Fallible};

verus! {

/// `opendp::error::ErrorVariant`: the kinds of failure, as the algorithm
/// library lists them.
#[verifier::external_type_specification]
pub struct ExErrorVariant(opendp::error::ErrorVariant);

/// `opendp::error::Error`: a failure, which is its kind, a message for the
/// reader, and the record of where it was raised.
#[verifier::external_type_specification]
pub struct ExError(opendp::error::Error);

/// `backtrace::Backtrace`: the record of where a failure was raised. Nothing
/// here reads it.
#[verifier::external_type_specification]
#[verifier::external_body]
pub struct ExBacktrace(backtrace::Backtrace);

/// `Backtrace::new_unresolved`: records where the call was made. Nothing is
/// claimed of the record.
#[verifier::external_body]
fn capture() -> backtrace::Backtrace {
    backtrace::Backtrace::new_unresolved()
}

/// Whether a result failed with an error of the given kind and message.
pub open spec fn fails<T>(r: Fallible<T>, variant: ErrorVariant, message: Seq<char>) -> bool {
    r matches Err(e) && e.variant == variant && (e.message matches Some(m) && m@ == message)
}

/// An error of the given kind that carries `message`.
pub fn failure(variant: ErrorVariant, message: &str) -> (e: Error)
    ensures
        e.variant == variant,
        (e.message matches Some(m) && m@ == message@),
{
    Error { variant, message: Some(String::from_str(message)), backtrace: capture() }
}

/// The error raised when a payload is asked for as a type it does not have:
/// its message is `context` followed by the descriptor of the type asked
/// for.
pub fn failed_cast(context: &str, asked: &str) -> (e: Error)
    ensures
        e.variant == ErrorVariant::FailedCast,
        (e.message matches Some(m) && m@ == context@ + asked@),
{
    Error {
        variant: ErrorVariant::FailedCast,
        message: Some(String::from_str(context).concat(asked)),
        backtrace: capture(),
    }
}

} // verus!
