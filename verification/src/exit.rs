//! Reasons for the program to stop before entering the monitor loop, and
//! the shell exit codes that report them.
use vstd::prelude::*;

verus! {

/// Why the program stops early.
#[derive(Clone, Copy, Debug, PartialEq, Eq, Structural)]
pub enum ExitReason {
    ConfigFileDoesNotExist,
    ConfigDirectoryNotFound,
    ConfigDirectoryNotADirectory,
    FailedToResolveConfigDirectory,
    FailedToLoadConfigFile,
    ConfigSanityCheckFailed,
    FailedToSaveConfigFile,
    FailedToInitializeInputSource,
    InputSourceSanityCheckFailed,
    NoNotifiersConfigured,
}

/// The shell exit code of each reason; every one is distinct and nonzero,
/// so that it cannot be mistaken for success.
pub open spec fn spec_exit_code(reason: ExitReason) -> u8 {
    match reason {
        ExitReason::ConfigFileDoesNotExist => 10,
        ExitReason::ConfigDirectoryNotFound => 11,
        ExitReason::ConfigDirectoryNotADirectory => 12,
        ExitReason::FailedToResolveConfigDirectory => 13,
        ExitReason::FailedToLoadConfigFile => 20,
        ExitReason::ConfigSanityCheckFailed => 21,
        ExitReason::FailedToSaveConfigFile => 22,
        ExitReason::FailedToInitializeInputSource => 30,
        ExitReason::InputSourceSanityCheckFailed => 31,
        ExitReason::NoNotifiersConfigured => 40,
    }
}

impl ExitReason {
    /// The shell exit code that reports this reason.
    pub fn exit_code(&self) -> (code: u8)
        ensures
            code == spec_exit_code(*self),
    {
        match self {
            ExitReason::ConfigFileDoesNotExist => 10,
            ExitReason::ConfigDirectoryNotFound => 11,
            ExitReason::ConfigDirectoryNotADirectory => 12,
            ExitReason::FailedToResolveConfigDirectory => 13,
            ExitReason::FailedToLoadConfigFile => 20,
            ExitReason::ConfigSanityCheckFailed => 21,
            ExitReason::FailedToSaveConfigFile => 22,
            ExitReason::FailedToInitializeInputSource => 30,
            ExitReason::InputSourceSanityCheckFailed => 31,
            ExitReason::NoNotifiersConfigured => 40,
        }
    }
}

/// No early exit is reported as success: each reason has a nonzero code,
/// and no two reasons share one.
pub proof fn exit_codes_are_distinct_failures(a: ExitReason, b: ExitReason)
    ensures
        spec_exit_code(a) != 0,
        spec_exit_code(a) == spec_exit_code(b) ==> a == b,
{
}

} // verus!
