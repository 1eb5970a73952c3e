//! The error type shared by all fallible operations.

use vstd::prelude::*;

verus! {

/// Why an operation failed.
///
/// A read or write that makes no progress is not an error: it returns
/// `Ok(0)`.
#[derive(Clone, Copy, Debug, PartialEq, Eq, Hash, Structural)]
pub enum PhonicError {
    /// A required field of a description was absent when it was built.
    MissingData,
    /// Two descriptions disagree on a field that must have one value.
    ParamMismatch,
    /// The conversion or capability is not available for this codec or tag.
    Unsupported,
    /// The request does not fit the stream it was made of.
    BadRequest,
    /// A transfer ended inside a block.
    StreamMismatch,
    /// A failure of the underlying transport, with its code.
    Io(i32),
}

impl PhonicError {
    /// The error for an absent field.
    pub fn missing_data() -> (e: Self)
        ensures
            e == PhonicError::MissingData,
    {
        PhonicError::MissingData
    }

    /// The error for two descriptions that disagree.
    pub fn param_mismatch() -> (e: Self)
        ensures
            e == PhonicError::ParamMismatch,
    {
        PhonicError::ParamMismatch
    }

    /// The error for a conversion or capability that is not available.
    pub fn unsupported() -> (e: Self)
        ensures
            e == PhonicError::Unsupported,
    {
        PhonicError::Unsupported
    }
}

/// A conversion that cannot fail has no error to convert: there is no value
/// of `Infallible`, so this is never called. It lets a description be merged
/// with one of its own tag type.
impl From<core::convert::Infallible> for PhonicError {
    fn from(never: core::convert::Infallible) -> (e: Self) {
        PhonicError::Unsupported
    }
}

impl vstd::std_specs::convert::FromSpecImpl<core::convert::Infallible> for PhonicError {
    open spec fn obeys_from_spec() -> bool {
        true
    }

    open spec fn from_spec(never: core::convert::Infallible) -> Self {
        PhonicError::Unsupported
    }
}

/// The result of a fallible operation.
pub type PhonicResult<T> = Result<T, PhonicError>;

} // verus!
