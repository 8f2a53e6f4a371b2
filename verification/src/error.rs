//! The ways in which compiling a model can fail.
use vstd::prelude::*;

verus! {

/// Why a model could not be compiled. Each is fatal to the model it was found in.
#[derive(Clone, Copy, Debug, PartialEq, Eq, Structural)]
pub enum Error {
    /// A field has no identifier, or the model is not a struct.
    UnsupportedShape,
    /// No field is assigned to the key.
    MissingKeyFields,
    /// A switch was set without the one it builds on.
    MissingDependency,
    /// An annotation value is not of the kind that its place asks for.
    InvalidConfiguration,
}

} // verus!
