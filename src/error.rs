use vstd::prelude::*;

use crate::status::FunctionAppStatus;

verus! {

/// What can go wrong in the host engine.
#[derive(Clone, Debug, PartialEq, Eq)]
pub enum HostError {
    /// No app has the id or name that was asked for.
    NotFound,
    /// Another app already has this name.
    NameInUse,
    /// A freshly drawn id already belongs to an app.
    IdInUse,
    /// The text is not an app id.
    InvalidId,
    /// The uploaded body is not valid base64.
    InvalidEncoding,
    /// The archive could not be unpacked.
    CorruptArchive,
    /// The unpacked archive does not hold exactly one top-level entry.
    MalformedLayout,
    /// Building the image failed; the build tool's report.
    BuildFailed(String),
    /// Starting the image failed; the runtime's report.
    LaunchFailed(String),
    /// No free host port could be found.
    NoFreePort,
    /// The operation is not legal in the app's current status.
    NotBuildable(FunctionAppStatus),
    /// A stored record breaks the registry's rules.
    CorruptRecord,
}

/// The broad class of an error, which decides how it is reported.
#[derive(Clone, Copy, Debug, PartialEq, Eq, Structural)]
pub enum ErrorClass {
    NotFound,
    Conflict,
    InvalidInput,
    PipelineFailure,
    StateConflict,
    Internal,
}

pub open spec fn error_class(e: HostError) -> ErrorClass {
    match e {
        HostError::NotFound => ErrorClass::NotFound,
        HostError::NameInUse => ErrorClass::Conflict,
        HostError::InvalidId => ErrorClass::InvalidInput,
        HostError::InvalidEncoding => ErrorClass::InvalidInput,
        HostError::CorruptArchive => ErrorClass::PipelineFailure,
        HostError::MalformedLayout => ErrorClass::PipelineFailure,
        HostError::BuildFailed(_) => ErrorClass::PipelineFailure,
        HostError::LaunchFailed(_) => ErrorClass::PipelineFailure,
        HostError::NoFreePort => ErrorClass::PipelineFailure,
        HostError::NotBuildable(_) => ErrorClass::StateConflict,
        HostError::IdInUse => ErrorClass::Internal,
        HostError::CorruptRecord => ErrorClass::Internal,
    }
}

/// The HTTP status under which an error is answered: 404 for an unknown app,
/// 409 for a taken name, 400 for bad input, a bad archive or an illegal
/// state, 500 for a failed build or launch and for internal faults.
pub open spec fn http_status_of(e: HostError) -> u16 {
    match e {
        HostError::NotFound => 404,
        HostError::NameInUse => 409,
        HostError::InvalidId => 400,
        HostError::InvalidEncoding => 400,
        HostError::CorruptArchive => 400,
        HostError::MalformedLayout => 400,
        HostError::NotBuildable(_) => 400,
        HostError::BuildFailed(_) => 500,
        HostError::LaunchFailed(_) => 500,
        HostError::NoFreePort => 500,
        HostError::IdInUse => 500,
        HostError::CorruptRecord => 500,
    }
}

impl HostError {
    /// The class of this error.
    pub fn class(&self) -> (r: ErrorClass)
        ensures
            r == error_class(*self),
    {
        match self {
            HostError::NotFound => ErrorClass::NotFound,
            HostError::NameInUse => ErrorClass::Conflict,
            HostError::InvalidId => ErrorClass::InvalidInput,
            HostError::InvalidEncoding => ErrorClass::InvalidInput,
            HostError::CorruptArchive => ErrorClass::PipelineFailure,
            HostError::MalformedLayout => ErrorClass::PipelineFailure,
            HostError::BuildFailed(_) => ErrorClass::PipelineFailure,
            HostError::LaunchFailed(_) => ErrorClass::PipelineFailure,
            HostError::NoFreePort => ErrorClass::PipelineFailure,
            HostError::NotBuildable(_) => ErrorClass::StateConflict,
            HostError::IdInUse => ErrorClass::Internal,
            HostError::CorruptRecord => ErrorClass::Internal,
        }
    }

    /// The HTTP status that answers this error.
    pub fn http_status(&self) -> (r: u16)
        ensures
            r == http_status_of(*self),
    {
        match self {
            HostError::NotFound => 404,
            HostError::NameInUse => 409,
            HostError::InvalidId => 400,
            HostError::InvalidEncoding => 400,
            HostError::CorruptArchive => 400,
            HostError::MalformedLayout => 400,
            HostError::NotBuildable(_) => 400,
            HostError::BuildFailed(_) => 500,
            HostError::LaunchFailed(_) => 500,
            HostError::NoFreePort => 500,
            HostError::IdInUse => 500,
            HostError::CorruptRecord => 500,
        }
    }
}

} // verus!
