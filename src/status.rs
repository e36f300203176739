use vstd::prelude::*;

verus! {

/// Where a function app stands in its life.
#[derive(Clone, Copy, Debug, PartialEq, Eq, Structural)]
pub enum FunctionAppStatus {
    /// No app has the id that was asked for; never stored.
    NotRegistered,
    /// The app has a name and an id, but no code yet.
    Registered,
    /// Uploaded code is being staged and built into an image.
    Building,
    /// The image is built and can be started.
    Ready,
    /// The image runs, bound to a host port.
    Running,
    /// The last upload failed.
    Error,
}

/// The small integer under which a status is stored.
pub open spec fn status_code(s: FunctionAppStatus) -> int {
    match s {
        FunctionAppStatus::NotRegistered => 0,
        FunctionAppStatus::Registered => 1,
        FunctionAppStatus::Building => 2,
        FunctionAppStatus::Ready => 3,
        FunctionAppStatus::Running => 4,
        FunctionAppStatus::Error => 5,
    }
}

/// The status stored under `code`, if any.
pub open spec fn status_of_code(code: int) -> Option<FunctionAppStatus> {
    if code == 0 {
        Some(FunctionAppStatus::NotRegistered)
    } else if code == 1 {
        Some(FunctionAppStatus::Registered)
    } else if code == 2 {
        Some(FunctionAppStatus::Building)
    } else if code == 3 {
        Some(FunctionAppStatus::Ready)
    } else if code == 4 {
        Some(FunctionAppStatus::Running)
    } else if code == 5 {
        Some(FunctionAppStatus::Error)
    } else {
        None
    }
}

impl FunctionAppStatus {
    /// The code under which this status is stored.
    pub fn code(&self) -> (r: u8)
        ensures
            r as int == status_code(*self),
            r <= 5,
    {
        match self {
            FunctionAppStatus::NotRegistered => 0,
            FunctionAppStatus::Registered => 1,
            FunctionAppStatus::Building => 2,
            FunctionAppStatus::Ready => 3,
            FunctionAppStatus::Running => 4,
            FunctionAppStatus::Error => 5,
        }
    }

    /// The status stored under `code`; `None` for a code that names none.
    pub fn from_code(code: i64) -> (r: Option<FunctionAppStatus>)
        ensures
            r == status_of_code(code as int),
            r is Some <==> 0 <= code <= 5,
    {
        if code == 0 {
            Some(FunctionAppStatus::NotRegistered)
        } else if code == 1 {
            Some(FunctionAppStatus::Registered)
        } else if code == 2 {
            Some(FunctionAppStatus::Building)
        } else if code == 3 {
            Some(FunctionAppStatus::Ready)
        } else if code == 4 {
            Some(FunctionAppStatus::Running)
        } else if code == 5 {
            Some(FunctionAppStatus::Error)
        } else {
            None
        }
    }
}

/// Storing a status and reading its code back gives the same status.
pub proof fn lemma_status_code_round_trip(s: FunctionAppStatus)
    ensures
        status_of_code(status_code(s)) == Some(s),
{
}

/// A code that names a status is the code of that status.
pub proof fn lemma_code_status_round_trip(code: int)
    requires
        status_of_code(code) is Some,
    ensures
        status_code(status_of_code(code)->Some_0) == code,
{
}

} // verus!
