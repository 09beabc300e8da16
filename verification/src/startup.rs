//! Decisions taken before entering the monitor loop.
use vstd::prelude::*;
use crate::exit::ExitReason;

verus! {

/// What to do after checking the settings for errors.
#[derive(Clone, Copy, Debug, PartialEq, Eq, Structural)]
pub enum SanityVerdict {
    /// No errors: go on.
    Proceed,
    /// Errors, but the settings are about to be written out: go on silently.
    IgnoredForSave,
    /// Errors, but this is a dry run: say so and go on.
    ContinueForDryRun,
    /// Errors: stop.
    Exit(ExitReason),
}

/// Decides what the result of checking the settings calls for. Errors stop
/// the program, unless the settings are being saved (`save`) or this is a
/// dry run (`dry_run`), in that order of precedence.
pub fn sanity_verdict(check: &Result<(), Vec<String>>, save: bool, dry_run: bool) -> (v: SanityVerdict)
    ensures
        v == (if check is Ok {
            SanityVerdict::Proceed
        } else if save {
            SanityVerdict::IgnoredForSave
        } else if dry_run {
            SanityVerdict::ContinueForDryRun
        } else {
            SanityVerdict::Exit(ExitReason::ConfigSanityCheckFailed)
        }),
{
    match check {
        Ok(()) => SanityVerdict::Proceed,
        Err(_) => {
            if save {
                SanityVerdict::IgnoredForSave
            } else if dry_run {
                SanityVerdict::ContinueForDryRun
            } else {
                SanityVerdict::Exit(ExitReason::ConfigSanityCheckFailed)
            }
        },
    }
}

/// Whether the monitor loop can start with the notifiers constructed.
#[derive(Clone, Copy, Debug, PartialEq, Eq, Structural)]
pub enum NotifierCheck {
    /// At least one notifier: go on.
    Ready,
    /// No notifier: stop with `ExitReason::NoNotifiersConfigured`, suggesting
    /// to create a configuration file where none exists yet.
    NoneConfigured { suggest_save: bool },
}

/// Decides whether `count` notifiers suffice to start monitoring.
pub fn check_notifiers(count: usize, config_file_exists: bool) -> (c: NotifierCheck)
    ensures
        c == (if count == 0 {
            NotifierCheck::NoneConfigured { suggest_save: !config_file_exists }
        } else {
            NotifierCheck::Ready
        }),
{
    if count == 0 {
        NotifierCheck::NoneConfigured { suggest_save: !config_file_exists }
    } else {
        NotifierCheck::Ready
    }
}

impl NotifierCheck {
    /// The reason to exit that this outcome calls for, if any.
    pub fn exit_reason(&self) -> (r: Option<ExitReason>)
        ensures
            r == (if *self == NotifierCheck::Ready { None } else { Some(ExitReason::NoNotifiersConfigured) }),
    {
        match self {
            NotifierCheck::Ready => None,
            NotifierCheck::NoneConfigured { .. } => Some(ExitReason::NoNotifiersConfigured),
        }
    }
}

} // verus!
