use std::io::Write;
use std::path::Path;

use wdi_rs::{
    Action, Device, DriverInstaller, Error, InstallEvent, RunState, TempDirOutcome, WriteOutcome,
};

fn bare_device(vid: u16, pid: u16) -> Device {
    Device {
        vid,
        pid,
        is_composite: false,
        mi: 0,
        desc: None,
        driver: None,
        device_id: None,
        hardware_id: None,
        compatible_id: None,
        upper_filter: None,
        driver_version: 0,
    }
}

/// Performs the write the machine asked for, as the embedding program
/// would: the bytes end up in the file named `filename` inside the
/// temporary directory. Returns that file's path.
fn perform_write(directory: &str, filename: &str, data: &[u8]) -> std::path::PathBuf {
    let target = Path::new(directory).join(filename);
    let mut file = tempfile::NamedTempFile::new_in(directory).expect("create a file in the dir");
    file.write_all(data).expect("write the INF bytes");
    file.persist(&target).expect("move the file into place");
    target
}

#[test]
fn temp_resource_survives_both_native_phases() {
    let installer = DriverInstaller::for_specific_device(bare_device(0x1234, 0x5678))
        .with_inf_data(b"[Version]\n", "dev.inf");
    let (run, action) = installer.install();
    assert!(matches!(action, Action::CreateTempDir));

    let temp = tempfile::TempDir::new().expect("create a temporary directory");
    let dir_string = temp.path().to_str().expect("a UTF-8 path").to_string();
    let (run, action) = run.step(InstallEvent::TempDirCreated(TempDirOutcome::Created(
        dir_string.clone(),
    )));
    let inf_file = match &action {
        Action::WriteInfFile { directory, filename, data, .. } => {
            perform_write(directory, filename, data)
        }
        _ => panic!("an embedded INF must be written"),
    };
    assert!(inf_file.exists());

    let (run, action) = run.step(InstallEvent::InfFileWritten(WriteOutcome::Written));
    assert!(matches!(action, Action::Prepare { .. }));
    // The directory and the written file are both alive while the native
    // prepare operation would run.
    assert!(Path::new(&dir_string).exists());
    assert!(inf_file.exists());

    let (run, action) = run.step(InstallEvent::PrepareDone(0));
    assert!(matches!(action, Action::Install { .. }));
    // ... and while the native install operation would run.
    assert!(Path::new(&dir_string).exists());
    assert!(inf_file.exists());

    let (run, action) = run.step(InstallEvent::InstallDone(0));
    assert!(matches!(action, Action::ReleaseTempDir));
    assert!(Path::new(&dir_string).exists());

    temp.close().expect("release the temporary directory");
    let (run, action) = run.step(InstallEvent::TempDirReleased);
    assert!(matches!(action, Action::Finished(Ok(_))));
    assert!(matches!(run.state, RunState::Finished { result: Ok(_) }));
    // Gone after the run is over.
    assert!(!inf_file.exists());
    assert!(!Path::new(&dir_string).exists());
}

#[test]
fn temp_resource_is_gone_after_a_failed_run() {
    let installer = DriverInstaller::for_specific_device(bare_device(1, 2))
        .with_inf_data(b"[Version]\n", "dev.inf");
    let (run, _action) = installer.install();

    let temp = tempfile::TempDir::new().expect("create a temporary directory");
    let dir_string = temp.path().to_str().expect("a UTF-8 path").to_string();
    let (run, action) = run.step(InstallEvent::TempDirCreated(TempDirOutcome::Created(
        dir_string.clone(),
    )));
    match &action {
        Action::WriteInfFile { directory, filename, data, .. } => {
            perform_write(directory, filename, data);
        }
        _ => panic!("an embedded INF must be written"),
    }
    let (run, _action) = run.step(InstallEvent::InfFileWritten(WriteOutcome::Written));
    let (run, action) = run.step(InstallEvent::PrepareDone(-5));
    // The failure first orders the cleanup, then surfaces the error
    // unchanged.
    assert!(matches!(action, Action::ReleaseTempDir));
    temp.close().expect("release the temporary directory");
    let (run, action) = run.step(InstallEvent::TempDirReleased);
    match action {
        Action::Finished(Err(e)) => assert_eq!(e, Error::NotFound),
        _ => panic!("the original error must be surfaced"),
    }
    assert!(matches!(run.state, RunState::Finished { result: Err(_) }));
    assert!(!Path::new(&dir_string).exists());
}
