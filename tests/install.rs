use sidecar_supervisor::install::{is_bundled_binary_name, FileAction, InstallError, Replacement};

#[test]
fn install_over_existing_binary() {
    let mut r = Replacement::new(true);
    assert_eq!(r.action(), FileAction::BackupToOld);
    assert_eq!(r.advance(true), FileAction::WriteNew);
    assert_eq!(r.advance(true), FileAction::MarkExecutable);
    assert_eq!(r.advance(true), FileAction::Finish);
    assert_eq!(r.advance(true), FileAction::Finish);
}

#[test]
fn fresh_install_writes_directly() {
    let r = Replacement::new(false);
    assert_eq!(r.action(), FileAction::WriteNew);
}

#[test]
fn failed_rename_falls_back_to_removal() {
    let mut r = Replacement::new(true);
    assert_eq!(r.advance(false), FileAction::RemoveExisting);
    assert_eq!(r.advance(true), FileAction::WriteNew);
}

#[test]
fn locked_binary_aborts_without_writing() {
    let mut r = Replacement::new(true);
    assert_eq!(r.advance(false), FileAction::RemoveExisting);
    assert_eq!(r.advance(false), FileAction::Abort(InstallError::Locked));
    assert_eq!(r.advance(true), FileAction::Abort(InstallError::Locked));
    assert_eq!(r.action(), FileAction::Abort(InstallError::Locked));
}

#[test]
fn failed_write_aborts() {
    let mut r = Replacement::new(false);
    assert_eq!(r.advance(false), FileAction::Abort(InstallError::WriteFailed));
    let mut r = Replacement::new(false);
    r.advance(true);
    assert_eq!(r.advance(false), FileAction::Abort(InstallError::WriteFailed));
}

#[test]
fn bundled_binary_names() {
    assert!(is_bundled_binary_name("opencode-cli"));
    assert!(is_bundled_binary_name("opencode-cli-x86_64-apple-darwin"));
    assert!(!is_bundled_binary_name("opencode-cli.old"));
    assert!(!is_bundled_binary_name("opencode"));
    assert!(!is_bundled_binary_name("my-opencode-cli"));
}
