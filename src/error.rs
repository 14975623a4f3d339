use vstd::prelude::*;

verus! {

/// Why an operation on a transform or an engine call could not be carried out.
#[derive(Clone, Copy, Debug, PartialEq, Eq, Structural)]
pub enum TransformError {
    /// Fixed and moving rasters differ in shape, a raster buffer does not
    /// hold as many elements as its shape asks for, or a coordinate array
    /// lacks exactly two columns.
    ShapeMismatch,
    /// The linear block of the transform has a determinant of exactly zero.
    NonInvertible,
    /// The engine cannot take the request or its output does not fit the
    /// expected shape and element type.
    EngineFailure,
    /// A persisted transform record is malformed, truncated or unreadable.
    SerializationFailure,
}

impl TransformError {
    /// True for the failures that the caller's input caused, false for those
    /// of the engine or of storage.
    pub fn is_invalid_input(&self) -> (r: bool)
        ensures
            r == (*self == TransformError::ShapeMismatch || *self == TransformError::NonInvertible),
    {
        match self {
            TransformError::ShapeMismatch => true,
            TransformError::NonInvertible => true,
            TransformError::EngineFailure => false,
            TransformError::SerializationFailure => false,
        }
    }
}

} // verus!
