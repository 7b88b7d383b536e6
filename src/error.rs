use vstd::prelude::*;
use crate::retry::TransportError;

verus! {

/// Why a call or a property read failed.
#[derive(Debug)]
pub enum Error {
    /// The bus reported a failure that is not retried.
    Transport(TransportError),
    /// Every attempt failed with a transient error.
    RetriesExhausted { attempts: u32 },
    /// The method call could not be built (an invalid path or name).
    MalformedCall { details: String },
    /// A reply did not hold the fields asked for.
    WrongResponseType,
    /// A property's value could not be converted to the type asked for.
    WrongPropertyType { message: String },
    /// A variant did not hold the type asked for.
    VariantTypeMismatch,
    /// A variant did not hold an array.
    VariantNotArray,
    /// A failure, with what was being done when it happened.
    Context { message: String, cause: Box<Error> },
}

} // verus!
