use vstd::prelude::*;

verus! {

/// The status with which the program ends.
#[derive(Clone, Copy, Debug, PartialEq, Eq, Structural)]
pub enum ExitCode {
    Finished,
    WrongArguments,
    FileError,
    AlreadyRunning,
    ServerRunError,
    PathError,
    ResourceNotFound,
}

/// The process status of each exit code: its position in the declaration.
pub open spec fn exit_status(code: ExitCode) -> i32 {
    match code {
        ExitCode::Finished => 0,
        ExitCode::WrongArguments => 1,
        ExitCode::FileError => 2,
        ExitCode::AlreadyRunning => 3,
        ExitCode::ServerRunError => 4,
        ExitCode::PathError => 5,
        ExitCode::ResourceNotFound => 6,
    }
}

impl ExitCode {
    /// The number handed to the operating system for this exit code.
    pub fn code(self) -> (r: i32)
        ensures
            r == exit_status(self),
    {
        match self {
            ExitCode::Finished => 0,
            ExitCode::WrongArguments => 1,
            ExitCode::FileError => 2,
            ExitCode::AlreadyRunning => 3,
            ExitCode::ServerRunError => 4,
            ExitCode::PathError => 5,
            ExitCode::ResourceNotFound => 6,
        }
    }
}

} // verus!
