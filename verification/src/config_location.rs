//! Where the configuration file is looked for.
use vstd::prelude::*;
use crate::paths::{join, spec_join};
use crate::exit::ExitReason;

verus! {

broadcast use vstd::string::to_string_from_display_ensures_for_str;

/// The name of the program, `pellxd`, as path bytes.
pub open spec fn program_name() -> Seq<u8> {
    seq![112u8, 101u8, 108u8, 108u8, 120u8, 100u8]
}

/// The name of the configuration file, `pellxd.toml`, as path bytes.
pub open spec fn config_filename() -> Seq<u8> {
    program_name() + seq![46u8, 116u8, 111u8, 109u8, 108u8]
}

/// The system-wide configuration root, `/etc`, as path bytes.
pub open spec fn system_config_root() -> Seq<u8> {
    seq![47u8, 101u8, 116u8, 99u8]
}

/// The per-user configuration directory below `$HOME`, `.config`.
pub open spec fn home_config_dirname() -> Seq<u8> {
    seq![46u8, 99u8, 111u8, 110u8, 102u8, 105u8, 103u8]
}

fn program_name_bytes() -> (r: Vec<u8>)
    ensures
        r@ == program_name(),
{
    let r: Vec<u8> = vec![112u8, 101u8, 108u8, 108u8, 120u8, 100u8];
    r
}

fn config_filename_bytes() -> (r: Vec<u8>)
    ensures
        r@ == config_filename(),
{
    let r: Vec<u8> = vec![112u8, 101u8, 108u8, 108u8, 120u8, 100u8, 46u8, 116u8, 111u8, 109u8, 108u8];
    r
}

fn system_config_root_bytes() -> (r: Vec<u8>)
    ensures
        r@ == system_config_root(),
{
    let r: Vec<u8> = vec![47u8, 101u8, 116u8, 99u8];
    r
}

fn home_config_dirname_bytes() -> (r: Vec<u8>)
    ensures
        r@ == home_config_dirname(),
{
    let r: Vec<u8> = vec![46u8, 99u8, 111u8, 110u8, 102u8, 105u8, 103u8];
    r
}

/// The view of an optional path.
pub open spec fn opt_view(p: Option<Vec<u8>>) -> Option<Seq<u8>> {
    match p {
        Some(v) => Some(v@),
        None => None,
    }
}

/// The configuration directory, or `None` where none can be determined.
///
/// In order of priority: the directory named by `$PELLXD_CONFIG_ROOT`;
/// `/etc/pellxd` when running as root; `$XDG_CONFIG_HOME`; `$HOME/.config`.
pub open spec fn spec_config_directory(
    config_root: Option<Seq<u8>>,
    is_root_user: bool,
    xdg_config_home: Option<Seq<u8>>,
    home: Option<Seq<u8>>,
) -> Option<Seq<u8>> {
    match config_root {
        Some(p) => Some(p),
        None => if is_root_user {
            Some(spec_join(system_config_root(), program_name()))
        } else {
            match xdg_config_home {
                Some(p) => Some(p),
                None => match home {
                    Some(h) => Some(spec_join(h, home_config_dirname())),
                    None => None,
                },
            }
        },
    }
}

/// The message of the error given when no configuration directory can be
/// determined.
pub open spec fn undetermined_directory_message() -> Seq<char> {
    "could not determine directory based on UID nor from environment variables"@
}

/// Whether `r` is what resolving the configuration directory gives for
/// these inputs: the directory where one is determined, else the error.
pub open spec fn is_directory_result(
    r: Result<Vec<u8>, String>,
    config_root: Option<Vec<u8>>,
    is_root_user: bool,
    xdg_config_home: Option<Vec<u8>>,
    home: Option<Vec<u8>>,
) -> bool {
    let expected = spec_config_directory(opt_view(config_root), is_root_user, opt_view(xdg_config_home), opt_view(home));
    match r {
        Ok(p) => expected == Some(p@),
        Err(e) => expected is None && e@ == undetermined_directory_message(),
    }
}

/// Determines the configuration directory from the values of the
/// environment variables `PELLXD_CONFIG_ROOT`, `XDG_CONFIG_HOME` and `HOME`
/// (each `None` where unset) and the user id of the process.
pub fn config_directory_for(
    config_root: Option<Vec<u8>>,
    uid: u32,
    xdg_config_home: Option<Vec<u8>>,
    home: Option<Vec<u8>>,
) -> (r: Result<Vec<u8>, String>)
    ensures
        is_directory_result(r, config_root, uid == 0, xdg_config_home, home),
{
    if let Some(p) = config_root {
        return Ok(p);
    }
    if uid == 0 {
        return Ok(join(&system_config_root_bytes(), &program_name_bytes()));
    }
    if let Some(p) = xdg_config_home {
        return Ok(p);
    }
    if let Some(h) = home {
        return Ok(join(&h, &home_config_dirname_bytes()));
    }
    Err("could not determine directory based on UID nor from environment variables".to_string())
}

/// The real user id of the running process, as `users::get_current_uid`
/// reports it. It depends on the process, so nothing is claimed of it.
#[verifier::external_body]
fn current_uid() -> (uid: u32) {
    users::get_current_uid()
}

/// Determines the configuration directory from the values of the
/// environment variables `PELLXD_CONFIG_ROOT`, `XDG_CONFIG_HOME` and `HOME`
/// (each `None` where unset), asking for the user id of the process only
/// where `PELLXD_CONFIG_ROOT` is unset.
pub fn resolve_config_directory(
    config_root: Option<Vec<u8>>,
    xdg_config_home: Option<Vec<u8>>,
    home: Option<Vec<u8>>,
) -> (r: Result<Vec<u8>, String>)
    ensures
        config_root matches Some(p) ==> r == Ok::<Vec<u8>, String>(p),
        is_directory_result(r, config_root, true, xdg_config_home, home)
            || is_directory_result(r, config_root, false, xdg_config_home, home),
{
    if let Some(p) = config_root {
        return Ok(p);
    }
    let uid = current_uid();
    config_directory_for(config_root, uid, xdg_config_home, home)
}

} // verus!

verus! {

/// `PELLXD_CONFIG_ROOT`, where set, names the configuration directory
/// whoever runs the program and whatever else is set.
pub proof fn law_config_root_takes_priority(
    config_root: Seq<u8>,
    is_root_user: bool,
    xdg_config_home: Option<Seq<u8>>,
    home: Option<Seq<u8>>,
)
    ensures
        spec_config_directory(Some(config_root), is_root_user, xdg_config_home, home) == Some(config_root),
{
}

/// Without `PELLXD_CONFIG_ROOT`, the root user's configuration directory is
/// `/etc/pellxd`.
pub proof fn law_root_user_uses_etc(xdg_config_home: Option<Seq<u8>>, home: Option<Seq<u8>>)
    ensures
        spec_config_directory(None, true, xdg_config_home, home)
            == Some(system_config_root() + seq![47u8] + program_name()),
{
}

/// A configuration directory is determined unless none of the environment
/// variables is set and the program does not run as root.
pub proof fn law_directory_undetermined_only_without_hints(
    config_root: Option<Seq<u8>>,
    is_root_user: bool,
    xdg_config_home: Option<Seq<u8>>,
    home: Option<Seq<u8>>,
)
    ensures
        spec_config_directory(config_root, is_root_user, xdg_config_home, home) is None
            <==> (config_root is None && !is_root_user && xdg_config_home is None && home is None),
{
}

} // verus!

verus! {

/// What the file system says of the configuration directory that was
/// resolved.
pub struct DirectoryProbe {
    pub path: Vec<u8>,
    pub present: bool,
    pub is_dir: bool,
}

/// Where the configuration file is to be found.
pub enum ConfigRequest {
    /// A file named on the command line, and whether it exists.
    Given { path: Vec<u8>, present: bool },
    /// No file named: the configuration directory as it was resolved (see
    /// `resolve_config_directory`) and probed.
    Default(Result<DirectoryProbe, String>),
}

/// Why no configuration file could be settled on.
pub enum ConfigFileError {
    /// The file named on the command line does not exist (and is not about
    /// to be written).
    FileDoesNotExist(Vec<u8>),
    /// The configuration directory does not exist.
    DirectoryNotFound(Vec<u8>),
    /// The configuration directory is not a directory.
    NotADirectory(Vec<u8>),
    /// No configuration directory could be determined; the message says why.
    UnresolvedDirectory(String),
}

impl ConfigFileError {
    /// The reason to exit that this error calls for.
    pub fn exit_reason(&self) -> (reason: ExitReason)
        ensures
            reason == match self {
                ConfigFileError::FileDoesNotExist(_) => ExitReason::ConfigFileDoesNotExist,
                ConfigFileError::DirectoryNotFound(_) => ExitReason::ConfigDirectoryNotFound,
                ConfigFileError::NotADirectory(_) => ExitReason::ConfigDirectoryNotADirectory,
                ConfigFileError::UnresolvedDirectory(_) => ExitReason::FailedToResolveConfigDirectory,
            },
    {
        match self {
            ConfigFileError::FileDoesNotExist(_) => ExitReason::ConfigFileDoesNotExist,
            ConfigFileError::DirectoryNotFound(_) => ExitReason::ConfigDirectoryNotFound,
            ConfigFileError::NotADirectory(_) => ExitReason::ConfigDirectoryNotADirectory,
            ConfigFileError::UnresolvedDirectory(_) => ExitReason::FailedToResolveConfigDirectory,
        }
    }
}

/// Settles on the configuration file.
///
/// A file named on the command line is taken if it exists or is about to be
/// written (`save`). Otherwise the file `pellxd.toml` in the configuration
/// directory is taken, provided that directory exists and is a directory.
pub fn resolve_config_file(request: ConfigRequest, save: bool) -> (r: Result<Vec<u8>, ConfigFileError>)
    ensures
        match request {
            ConfigRequest::Given { path, present } => if present || save {
                r matches Ok(p) && p@ == path@
            } else {
                r matches Err(ConfigFileError::FileDoesNotExist(p)) && p@ == path@
            },
            ConfigRequest::Default(Ok(probe)) => if !probe.present {
                r matches Err(ConfigFileError::DirectoryNotFound(p)) && p@ == probe.path@
            } else if !probe.is_dir {
                r matches Err(ConfigFileError::NotADirectory(p)) && p@ == probe.path@
            } else {
                r matches Ok(p) && p@ == spec_join(probe.path@, config_filename())
            },
            ConfigRequest::Default(Err(message)) =>
                r matches Err(ConfigFileError::UnresolvedDirectory(m)) && m@ == message@,
        },
{
    match request {
        ConfigRequest::Given { path, present } => {
            if present || save {
                Ok(path)
            } else {
                Err(ConfigFileError::FileDoesNotExist(path))
            }
        },
        ConfigRequest::Default(Ok(probe)) => {
            if !probe.present {
                Err(ConfigFileError::DirectoryNotFound(probe.path))
            } else if !probe.is_dir {
                Err(ConfigFileError::NotADirectory(probe.path))
            } else {
                Ok(join(&probe.path, &config_filename_bytes()))
            }
        },
        ConfigRequest::Default(Err(message)) => Err(ConfigFileError::UnresolvedDirectory(message)),
    }
}

} // verus!
