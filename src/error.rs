//! Errors: the kernel's error codes, the stage at which a call failed, and
//! the conversion of the kernel's error slot into a `Result`.
use vstd::prelude::*;

verus! {

/// An error that the kernel's error slot reports.
#[derive(Clone, Copy, Debug, PartialEq, Eq, Structural)]
pub enum ErrorCode {
    Unknown,
    InvalidArgument,
    InvalidOperation,
    OutOfMemory,
    UnsupportedCpu,
    Cancelled,
}

/// What the error slot reports for a raw value: nothing for zero, `Unknown`
/// for a value the kernel does not define.
pub open spec fn spec_code_of(raw: u32) -> Option<ErrorCode> {
    if raw == 0 {
        None
    } else if raw == 2 {
        Some(ErrorCode::InvalidArgument)
    } else if raw == 3 {
        Some(ErrorCode::InvalidOperation)
    } else if raw == 4 {
        Some(ErrorCode::OutOfMemory)
    } else if raw == 5 {
        Some(ErrorCode::UnsupportedCpu)
    } else if raw == 6 {
        Some(ErrorCode::Cancelled)
    } else {
        Some(ErrorCode::Unknown)
    }
}

impl ErrorCode {
    /// Reads a raw value of the error slot: `None` when it reports no error.
    pub fn from_raw(raw: u32) -> (r: Option<ErrorCode>)
        ensures
            r == spec_code_of(raw),
    {
        match raw {
            0 => None,
            2 => Some(ErrorCode::InvalidArgument),
            3 => Some(ErrorCode::InvalidOperation),
            4 => Some(ErrorCode::OutOfMemory),
            5 => Some(ErrorCode::UnsupportedCpu),
            6 => Some(ErrorCode::Cancelled),
            _ => Some(ErrorCode::Unknown),
        }
    }
}

/// The kinds of failure.
#[derive(Clone, Copy, Debug, PartialEq, Eq, Structural)]
pub enum ErrorKind {
    /// The kernel refused to create a device, scene or geometry, or to set it up.
    ResourceCreation,
    /// The device configuration string was rejected.
    Configuration,
    /// A vertex or index buffer could not be allocated, or its contents are invalid.
    BufferAllocation,
    /// A geometry or scene could not be finalized.
    Commit,
    /// Traversal failed during a query.
    Query,
}

/// The step at which a call into the kernel failed.
#[derive(Clone, Copy, Debug, PartialEq, Eq, Structural)]
pub enum Stage {
    DeviceCreation,
    SceneCreation,
    SceneBuildQuality,
    SceneFlags,
    AttachGeometry,
    SceneCommit,
    Intersect,
    MeshCreation,
    VertexBuffer,
    IndexBuffer,
    MeshIndices,
    MeshCommit,
    UserGeometryCreation,
    UserPrimitiveCount,
    UserData,
    BoundsFunction,
    IntersectFunction,
    UserGeometryCommit,
}

/// The kind of a failure at `stage` with error code `code`. At device
/// creation only a rejected argument, the configuration string, is a
/// configuration error; any other cause is a failure to create the resource.
pub open spec fn spec_kind_of(stage: Stage, code: Option<ErrorCode>) -> ErrorKind {
    match stage {
        Stage::DeviceCreation => if code == Some(ErrorCode::InvalidArgument) {
            ErrorKind::Configuration
        } else {
            ErrorKind::ResourceCreation
        },
        Stage::VertexBuffer | Stage::IndexBuffer | Stage::MeshIndices => ErrorKind::BufferAllocation,
        Stage::SceneCommit | Stage::MeshCommit | Stage::UserGeometryCommit => ErrorKind::Commit,
        Stage::Intersect => ErrorKind::Query,
        _ => ErrorKind::ResourceCreation,
    }
}

/// The description of each stage.
pub open spec fn spec_message(stage: Stage) -> Seq<char> {
    match stage {
        Stage::DeviceCreation => "Failed to create device"@,
        Stage::SceneCreation => "Could not create scene"@,
        Stage::SceneBuildQuality => "Could not set scene build quality"@,
        Stage::SceneFlags => "Could not set scene flags"@,
        Stage::AttachGeometry => "Could not attach geometry"@,
        Stage::SceneCommit => "Could not commit scene"@,
        Stage::Intersect => "Could not intersect ray"@,
        Stage::MeshCreation => "Failed to create triangle mesh geometry"@,
        Stage::VertexBuffer => "Failed to create triangle mesh vertex buffer"@,
        Stage::IndexBuffer => "Failed to create triangle mesh index buffer"@,
        Stage::MeshIndices => "Triangle mesh indices out of range or repeated"@,
        Stage::MeshCommit => "Failed to commit triangle mesh geometry"@,
        Stage::UserGeometryCreation => "Could not create user geometry"@,
        Stage::UserPrimitiveCount => "Could not set user geometry primitive count"@,
        Stage::UserData => "Could not set user geometry data"@,
        Stage::BoundsFunction => "Could not set user geometry bounds function"@,
        Stage::IntersectFunction => "Could not set user geometry intersect function"@,
        Stage::UserGeometryCommit => "Could not commit user geometry"@,
    }
}

impl Stage {
    /// A human-readable description of the failed step.
    pub fn message(&self) -> (r: &'static str)
        ensures
            r@ == spec_message(*self),
    {
        match self {
            Stage::DeviceCreation => "Failed to create device",
            Stage::SceneCreation => "Could not create scene",
            Stage::SceneBuildQuality => "Could not set scene build quality",
            Stage::SceneFlags => "Could not set scene flags",
            Stage::AttachGeometry => "Could not attach geometry",
            Stage::SceneCommit => "Could not commit scene",
            Stage::Intersect => "Could not intersect ray",
            Stage::MeshCreation => "Failed to create triangle mesh geometry",
            Stage::VertexBuffer => "Failed to create triangle mesh vertex buffer",
            Stage::IndexBuffer => "Failed to create triangle mesh index buffer",
            Stage::MeshIndices => "Triangle mesh indices out of range or repeated",
            Stage::MeshCommit => "Failed to commit triangle mesh geometry",
            Stage::UserGeometryCreation => "Could not create user geometry",
            Stage::UserPrimitiveCount => "Could not set user geometry primitive count",
            Stage::UserData => "Could not set user geometry data",
            Stage::BoundsFunction => "Could not set user geometry bounds function",
            Stage::IntersectFunction => "Could not set user geometry intersect function",
            Stage::UserGeometryCommit => "Could not commit user geometry",
        }
    }
}

/// A failed call: the stage that failed and what the error slot held.
#[derive(Clone, Copy, Debug, PartialEq, Eq, Structural)]
pub struct Error {
    pub stage: Stage,
    pub code: Option<ErrorCode>,
}

impl Error {
    /// The kind of this failure, from its stage and its code.
    pub fn kind(&self) -> (r: ErrorKind)
        ensures
            r == spec_kind_of(self.stage, self.code),
    {
        match self.stage {
            Stage::DeviceCreation => match self.code {
                Some(ErrorCode::InvalidArgument) => ErrorKind::Configuration,
                _ => ErrorKind::ResourceCreation,
            },
            Stage::VertexBuffer | Stage::IndexBuffer | Stage::MeshIndices => ErrorKind::BufferAllocation,
            Stage::SceneCommit | Stage::MeshCommit | Stage::UserGeometryCommit => ErrorKind::Commit,
            Stage::Intersect => ErrorKind::Query,
            _ => ErrorKind::ResourceCreation,
        }
    }
}

/// The outcome of a call that produced `ok_value`, given what the error slot
/// reported right after it: the value if nothing was reported, else an error
/// for `stage` that carries the code.
pub fn error_or<T>(error: Option<ErrorCode>, ok_value: T, stage: Stage) -> (r: Result<T, Error>)
    ensures
        error.is_none() ==> r == Ok::<T, Error>(ok_value),
        error.is_some() ==> r == Err::<T, Error>(Error { stage, code: error }),
{
    match error {
        Some(code) => Err(Error { stage, code: Some(code) }),
        None => Ok(ok_value),
    }
}

/// The outcome of a call that creates a handle: it failed if the handle is
/// null or the error slot reported an error right after it.
pub fn check_handle(is_null: bool, error: Option<ErrorCode>, stage: Stage) -> (r: Result<(), Error>)
    ensures
        r.is_ok() <==> (!is_null && error.is_none()),
        r.is_err() ==> r == Err::<(), Error>(Error { stage, code: error }),
{
    if is_null || error.is_some() {
        Err(Error { stage, code: error })
    } else {
        Ok(())
    }
}

} // verus!
