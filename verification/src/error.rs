use vstd::prelude::*;

verus! {

/// Errors reported by the recoverable (`try_*`) entry points of the library.
#[non_exhaustive]
#[derive(Debug, Clone, Copy, PartialEq, Eq, Structural)]
pub enum Error {
    InCallback,
    CreateWorldFailed,
    CreateBodyFailed,
    CreateShapeFailed,
    CreateRecordingFailed,
    CreateDynamicTreeFailed,
    CreateRecPlayerFailed,
    RecordingIoFailed,
    InvalidArgument,
    InvalidWorldId,
    InvalidBodyId,
    InvalidShapeId,
    InvalidJointId,
    InvalidContactId,
    WrongJointType,
    IndexOutOfRange,
    NulByteInString,
    ResourceLifetimeViolation,
    UnsupportedOnWasm,
    CallbackPanicked,
    CallbackSlotsExhausted,
}

/// Result type used across the library.
pub type Result<T> = core::result::Result<T, Error>;

/// Result type of the public API, the same as [`Result`].
pub type ApiResult<T> = Result<T>;

/// Error type of the public API, the same as [`Error`].
pub type ApiError = Error;

/// The human-readable description of each error.
pub open spec fn error_message(e: Error) -> Seq<char> {
    match e {
        Error::InCallback => "boxddd API called from a Box3D callback; Box3D world is locked"@,
        Error::CreateWorldFailed => "failed to create Box3D world"@,
        Error::CreateBodyFailed => "failed to create Box3D body"@,
        Error::CreateShapeFailed => "failed to create Box3D shape"@,
        Error::CreateRecordingFailed => "failed to create Box3D recording"@,
        Error::CreateDynamicTreeFailed => "failed to create Box3D dynamic tree"@,
        Error::CreateRecPlayerFailed => "failed to create Box3D replay player"@,
        Error::RecordingIoFailed => "failed to load or save a Box3D recording"@,
        Error::InvalidArgument => "invalid argument"@,
        Error::InvalidWorldId => "invalid WorldId"@,
        Error::InvalidBodyId => "invalid BodyId"@,
        Error::InvalidShapeId => "invalid ShapeId"@,
        Error::InvalidJointId => "invalid JointId"@,
        Error::InvalidContactId => "invalid ContactId"@,
        Error::WrongJointType => "wrong joint type for this API"@,
        Error::IndexOutOfRange => "index out of range for this API"@,
        Error::NulByteInString => "string contains an interior NUL byte"@,
        Error::ResourceLifetimeViolation => "native resource lifetime would be violated"@,
        Error::UnsupportedOnWasm => "this API is not supported on the current WASM target"@,
        Error::CallbackPanicked => "Rust callback panicked and native traversal was stopped"@,
        Error::CallbackSlotsExhausted => "no callback slot is available"@,
    }
}

impl Error {
    /// The human-readable description of this error (what `Display` prints).
    pub fn message(&self) -> (s: &'static str)
        ensures
            s@ == error_message(*self),
    {
        match self {
            Error::InCallback => "boxddd API called from a Box3D callback; Box3D world is locked",
            Error::CreateWorldFailed => "failed to create Box3D world",
            Error::CreateBodyFailed => "failed to create Box3D body",
            Error::CreateShapeFailed => "failed to create Box3D shape",
            Error::CreateRecordingFailed => "failed to create Box3D recording",
            Error::CreateDynamicTreeFailed => "failed to create Box3D dynamic tree",
            Error::CreateRecPlayerFailed => "failed to create Box3D replay player",
            Error::RecordingIoFailed => "failed to load or save a Box3D recording",
            Error::InvalidArgument => "invalid argument",
            Error::InvalidWorldId => "invalid WorldId",
            Error::InvalidBodyId => "invalid BodyId",
            Error::InvalidShapeId => "invalid ShapeId",
            Error::InvalidJointId => "invalid JointId",
            Error::InvalidContactId => "invalid ContactId",
            Error::WrongJointType => "wrong joint type for this API",
            Error::IndexOutOfRange => "index out of range for this API",
            Error::NulByteInString => "string contains an interior NUL byte",
            Error::ResourceLifetimeViolation => "native resource lifetime would be violated",
            Error::UnsupportedOnWasm => "this API is not supported on the current WASM target",
            Error::CallbackPanicked => "Rust callback panicked and native traversal was stopped",
            Error::CallbackSlotsExhausted => "no callback slot is available",
        }
    }
}

} // verus!
