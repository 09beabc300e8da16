use pellxd::config_location::{
    config_directory_for, resolve_config_directory, resolve_config_file, ConfigFileError, ConfigRequest,
    DirectoryProbe,
};
use pellxd::exit::ExitReason;
use pellxd::paths::join;

fn b(s: &str) -> Vec<u8> {
    s.as_bytes().to_vec()
}

const NO_DIRECTORY: &str = "could not determine directory based on UID nor from environment variables";

#[test]
fn join_inserts_one_separator() {
    assert_eq!(join(&b("/home/user"), &b(".config")), b("/home/user/.config"));
    assert_eq!(join(&b("/home/user/"), &b(".config")), b("/home/user/.config"));
    assert_eq!(join(&b(""), &b("pellxd.toml")), b("pellxd.toml"));
    assert_eq!(join(&b("/"), &b("etc")), b("/etc"));
}

#[test]
fn join_absolute_name_replaces_base() {
    assert_eq!(join(&b("/home/user"), &b("/etc/pellxd")), b("/etc/pellxd"));
}

#[test]
fn config_root_takes_priority() {
    let r = config_directory_for(Some(b("/srv/conf")), 0, Some(b("/x")), Some(b("/home/u")));
    assert_eq!(r, Ok(b("/srv/conf")));
}

#[test]
fn root_user_uses_etc() {
    let r = config_directory_for(None, 0, Some(b("/x")), Some(b("/home/u")));
    assert_eq!(r, Ok(b("/etc/pellxd")));
}

#[test]
fn xdg_config_home_before_home() {
    let r = config_directory_for(None, 1000, Some(b("/home/u/.cfg")), Some(b("/home/u")));
    assert_eq!(r, Ok(b("/home/u/.cfg")));
}

#[test]
fn home_falls_back_to_dot_config() {
    let r = config_directory_for(None, 1000, None, Some(b("/home/u")));
    assert_eq!(r, Ok(b("/home/u/.config")));
}

#[test]
fn no_directory_without_hints() {
    let r = config_directory_for(None, 1000, None, None);
    assert_eq!(r, Err(NO_DIRECTORY.to_string()));
}

#[test]
fn resolve_config_directory_prefers_config_root() {
    let r = resolve_config_directory(Some(b("/srv/conf")), None, None);
    assert_eq!(r, Ok(b("/srv/conf")));
}

#[test]
fn resolve_config_directory_asks_for_the_user() {
    // The answer depends on who runs the test: as root it is /etc/pellxd,
    // otherwise the XDG directory.
    let r = resolve_config_directory(None, Some(b("/home/u/.cfg")), None);
    if users::get_current_uid() == 0 {
        assert_eq!(r, Ok(b("/etc/pellxd")));
    } else {
        assert_eq!(r, Ok(b("/home/u/.cfg")));
    }
}

#[test]
fn given_file_is_used_when_present_or_saving() {
    let r = resolve_config_file(ConfigRequest::Given { path: b("/tmp/p.toml"), present: true }, false);
    assert!(matches!(r, Ok(ref p) if *p == b("/tmp/p.toml")));
    let r = resolve_config_file(ConfigRequest::Given { path: b("/tmp/p.toml"), present: false }, true);
    assert!(matches!(r, Ok(ref p) if *p == b("/tmp/p.toml")));
}

#[test]
fn missing_given_file_is_an_error() {
    let r = resolve_config_file(ConfigRequest::Given { path: b("/tmp/p.toml"), present: false }, false);
    match r {
        Err(e) => {
            assert_eq!(e.exit_reason(), ExitReason::ConfigFileDoesNotExist);
            assert!(matches!(e, ConfigFileError::FileDoesNotExist(ref p) if *p == b("/tmp/p.toml")));
        }
        Ok(_) => panic!("expected an error"),
    }
}

#[test]
fn default_file_lies_in_the_directory() {
    let probe = DirectoryProbe { path: b("/home/u/.config"), present: true, is_dir: true };
    let r = resolve_config_file(ConfigRequest::Default(Ok(probe)), false);
    assert!(matches!(r, Ok(ref p) if *p == b("/home/u/.config/pellxd.toml")));
}

#[test]
fn missing_directory_is_an_error() {
    let probe = DirectoryProbe { path: b("/nope"), present: false, is_dir: false };
    match resolve_config_file(ConfigRequest::Default(Ok(probe)), true) {
        Err(e) => {
            assert_eq!(e.exit_reason(), ExitReason::ConfigDirectoryNotFound);
            assert!(matches!(e, ConfigFileError::DirectoryNotFound(ref p) if *p == b("/nope")));
        }
        Ok(_) => panic!("expected an error"),
    }
}

#[test]
fn directory_that_is_a_file_is_an_error() {
    let probe = DirectoryProbe { path: b("/etc/passwd"), present: true, is_dir: false };
    match resolve_config_file(ConfigRequest::Default(Ok(probe)), false) {
        Err(e) => {
            assert_eq!(e.exit_reason(), ExitReason::ConfigDirectoryNotADirectory);
            assert!(matches!(e, ConfigFileError::NotADirectory(ref p) if *p == b("/etc/passwd")));
        }
        Ok(_) => panic!("expected an error"),
    }
}

#[test]
fn unresolved_directory_is_an_error() {
    match resolve_config_file(ConfigRequest::Default(Err(NO_DIRECTORY.to_string())), false) {
        Err(e) => {
            assert_eq!(e.exit_reason(), ExitReason::FailedToResolveConfigDirectory);
            assert!(matches!(e, ConfigFileError::UnresolvedDirectory(ref m) if m == NO_DIRECTORY));
        }
        Ok(_) => panic!("expected an error"),
    }
}
