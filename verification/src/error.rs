//! Why a declaration gets no builder.
use vstd::prelude::*;

verus! {

/// The reason a declaration is turned down.
#[derive(Clone, Copy, Debug, PartialEq, Eq)]
pub enum Error {
    /// The name of the declared type is a raw identifier, from which the name
    /// of the builder cannot be made.
    RawIdent,
    /// The declaration is not a struct with named fields.
    UnsupportedInput,
    /// An optional field does not say, as the first argument of its type,
    /// which type it wraps, so its setter has no parameter type.
    MissingInnerType,
}

} // verus!
