use wdi_rs::{
    Action, Device, DeviceList, DriverInstaller, DriverType, Error, ExternalOutcome, InstallEvent,
    PrepareDriverOptions, RunState, TempDirOutcome, WriteOutcome,
};

fn bare_device(vid: u16, pid: u16) -> Device {
    Device {
        vid,
        pid,
        is_composite: false,
        mi: 0,
        desc: None,
        driver: None,
        device_id: None,
        hardware_id: None,
        compatible_id: None,
        upper_filter: None,
        driver_version: 0,
    }
}

#[test]
fn round_trip_embedded_install() {
    let installer = DriverInstaller::for_device(0x1234, 0x5678)
        .with_inf_data(b"[Version]\n", "dev.inf");
    let (run, action) = installer.install();
    match action {
        Action::Enumerate(opts) => {
            assert!(opts.list_all);
            assert!(!opts.list_hubs);
            assert!(opts.trim_whitespaces);
        }
        _ => panic!("the first action must be an enumeration"),
    }

    let list = DeviceList::new(vec![bare_device(0x1234, 0x5678)]);
    let (run, action) = run.step(InstallEvent::Enumerated(Ok(list)));
    assert!(matches!(action, Action::CreateTempDir));

    let (run, action) = run.step(InstallEvent::TempDirCreated(TempDirOutcome::Created(
        String::from("C:\\tmpdir"),
    )));
    match &action {
        Action::WriteInfFile { directory, filename, inf_path, data } => {
            assert_eq!(directory, "C:\\tmpdir");
            assert_eq!(filename, "dev.inf");
            assert_eq!(inf_path, "C:\\tmpdir\\dev.inf");
            assert_eq!(data.as_slice(), b"[Version]\n");
        }
        _ => panic!("an embedded INF must be written next"),
    }

    let (run, action) = run.step(InstallEvent::InfFileWritten(WriteOutcome::Written));
    match &action {
        Action::Prepare { device, directory, inf_path, options, external_inf_overridden } => {
            assert_eq!(device.vid, 0x1234);
            assert_eq!(directory, "C:\\tmpdir");
            assert_eq!(inf_path, "C:\\tmpdir\\dev.inf");
            assert!(options.external_inf);
            assert!(matches!(options.driver_type, DriverType::WinUsb));
            assert!(*external_inf_overridden);
        }
        _ => panic!("the prepare call must come next"),
    }

    let (run, action) = run.step(InstallEvent::PrepareDone(0));
    match &action {
        Action::Install { device, directory, inf_path, options } => {
            assert_eq!(device.pid, 0x5678);
            assert_eq!(directory, "C:\\tmpdir");
            assert_eq!(inf_path, "C:\\tmpdir\\dev.inf");
            assert_eq!(options.pending_install_timeout, 120000);
            assert!(!options.install_filter_driver);
        }
        _ => panic!("the install call must come next"),
    }

    let (run, action) = run.step(InstallEvent::InstallDone(0));
    assert!(matches!(action, Action::ReleaseTempDir));

    let (run, action) = run.step(InstallEvent::TempDirReleased);
    match &action {
        Action::Finished(Ok(device)) => {
            assert_eq!(device.vid, 0x1234);
            assert_eq!(device.pid, 0x5678);
        }
        _ => panic!("the run must finish with the installed device"),
    }
    assert!(matches!(run.state, RunState::Finished { result: Ok(_) }));
}

#[test]
fn predicate_selector_through_the_machine() {
    let installer = wdi_rs::DriverInstaller::new(wdi_rs::DeviceSelector::First(
        |d: &Device| d.pid == 2,
    ));
    let (run, action) = installer.install();
    assert!(matches!(action, Action::Enumerate(_)));
    let list = DeviceList::new(vec![bare_device(1, 1), bare_device(2, 2), bare_device(3, 3)]);
    let (run, action) = run.step(InstallEvent::Enumerated(Ok(list)));
    assert!(matches!(action, Action::CreateTempDir));
    let (_run, action) = run.step(InstallEvent::TempDirCreated(TempDirOutcome::Created(
        String::from("C:\\gen"),
    )));
    match &action {
        Action::Prepare { device, .. } => {
            assert_eq!(device.vid, 2);
            assert_eq!(device.pid, 2);
        }
        _ => panic!("a generated INF moves straight to the prepare call"),
    }
}

#[test]
fn conflict_short_circuits_before_provisioning() {
    let mut device = bare_device(1, 1);
    device.driver = Some(String::from("WinUSB v2"));
    let (run, action) = DriverInstaller::for_specific_device(device).install();
    match action {
        Action::Finished(Err(e)) => assert_eq!(e, Error::Exists),
        _ => panic!("an existing driver must end the run at once"),
    }
    assert!(matches!(
        run.state,
        RunState::Finished { result: Err(Error::Exists) }
    ));
}

#[test]
fn foreign_driver_also_reports_exists() {
    let mut device = bare_device(1, 1);
    device.driver = Some(String::from("VendorKernelDriver 1.0"));
    let (_run, action) = DriverInstaller::for_specific_device(device).install();
    match action {
        Action::Finished(Err(e)) => assert_eq!(e, Error::Exists),
        _ => panic!("a foreign driver must end the run at once"),
    }
}

#[test]
fn generated_inf_keeps_external_inf_false() {
    // The caller forces the flag to true; the derived value wins for a
    // generated INF.
    let mut prepare = PrepareDriverOptions::default();
    prepare.external_inf = true;
    let installer = DriverInstaller::for_specific_device(bare_device(3, 4))
        .with_prepare_options(prepare);
    let (run, action) = installer.install();
    assert!(matches!(action, Action::CreateTempDir));
    let (_run, action) = run.step(InstallEvent::TempDirCreated(TempDirOutcome::Created(
        String::from("C:\\gen"),
    )));
    match &action {
        Action::Prepare { inf_path, options, external_inf_overridden, .. } => {
            assert_eq!(inf_path, "C:\\gen\\generated.inf");
            assert!(!options.external_inf);
            assert!(*external_inf_overridden);
        }
        _ => panic!("a generated INF needs no write step"),
    }
}

#[test]
fn external_inf_sets_external_inf_true() {
    let installer = DriverInstaller::for_specific_device(bare_device(3, 4))
        .with_inf_file(String::from("C:\\drivers\\dev.inf"));
    let (run, action) = installer.install();
    match &action {
        Action::CheckExternalPath { path } => assert_eq!(path, "C:\\drivers\\dev.inf"),
        _ => panic!("an external INF must be checked first"),
    }
    let (_run, action) = run.step(InstallEvent::ExternalChecked(ExternalOutcome::Resolved {
        directory: String::from("C:\\drivers"),
        inf_path: String::from("C:\\drivers\\dev.inf"),
    }));
    match &action {
        Action::Prepare { options, .. } => assert!(options.external_inf),
        _ => panic!("the prepare call must come next"),
    }
}

#[test]
fn missing_external_inf_is_not_found() {
    let installer = DriverInstaller::for_specific_device(bare_device(3, 4))
        .with_inf_file(String::from("C:\\nowhere\\dev.inf"));
    let (run, _action) = installer.install();
    let (run, action) = run.step(InstallEvent::ExternalChecked(ExternalOutcome::Missing));
    match action {
        Action::Finished(Err(e)) => assert_eq!(e, Error::NotFound),
        _ => panic!("a missing external INF fails with NotFound"),
    }
    assert!(matches!(run.state, RunState::Finished { .. }));
}

#[test]
fn external_inf_without_parent_is_invalid_param() {
    let installer = DriverInstaller::for_specific_device(bare_device(3, 4))
        .with_inf_file(String::from("C:\\"));
    let (run, _action) = installer.install();
    let (_run, action) = run.step(InstallEvent::ExternalChecked(ExternalOutcome::NoParent));
    match action {
        Action::Finished(Err(e)) => assert_eq!(e, Error::InvalidParam),
        _ => panic!("a parentless external INF fails with InvalidParam"),
    }
}

#[test]
fn empty_catalog_run_is_not_found() {
    let installer = DriverInstaller::for_device(0x1234, 0x5678);
    let (run, _action) = installer.install();
    let list = DeviceList::new(Vec::new());
    let (run, action) = run.step(InstallEvent::Enumerated(Ok(list)));
    match action {
        Action::Finished(Err(e)) => assert_eq!(e, Error::NotFound),
        _ => panic!("an empty catalog fails with NotFound"),
    }
    assert!(matches!(
        run.state,
        RunState::Finished { result: Err(Error::NotFound) }
    ));
}

#[test]
fn enumeration_error_is_surfaced_unchanged() {
    let installer = DriverInstaller::for_device(1, 1);
    let (run, _action) = installer.install();
    let (_run, action) = run.step(InstallEvent::Enumerated(Err(Error::Busy)));
    match action {
        Action::Finished(Err(e)) => assert_eq!(e, Error::Busy),
        _ => panic!("an enumeration error ends the run"),
    }
}

#[test]
fn prepare_failure_releases_temp_dir_then_surfaces_error() {
    let installer = DriverInstaller::for_specific_device(bare_device(3, 4))
        .with_inf_data(b"x", "a.inf");
    let (run, _action) = installer.install();
    let (run, _action) = run.step(InstallEvent::TempDirCreated(TempDirOutcome::Created(
        String::from("C:\\t"),
    )));
    let (run, _action) = run.step(InstallEvent::InfFileWritten(WriteOutcome::Written));
    let (run, action) = run.step(InstallEvent::PrepareDone(-7));
    assert!(matches!(action, Action::ReleaseTempDir));
    let (run, action) = run.step(InstallEvent::TempDirReleased);
    match action {
        Action::Finished(Err(e)) => assert_eq!(e, Error::Timeout),
        _ => panic!("cleanup must not change the error"),
    }
    assert!(matches!(
        run.state,
        RunState::Finished { result: Err(Error::Timeout) }
    ));
}

#[test]
fn install_failure_with_unknown_code_is_preserved() {
    let installer = DriverInstaller::for_specific_device(bare_device(3, 4))
        .with_inf_data(b"x", "a.inf");
    let (run, _action) = installer.install();
    let (run, _action) = run.step(InstallEvent::TempDirCreated(TempDirOutcome::Created(
        String::from("C:\\t"),
    )));
    let (run, _action) = run.step(InstallEvent::InfFileWritten(WriteOutcome::Written));
    let (run, _action) = run.step(InstallEvent::PrepareDone(0));
    let (run, action) = run.step(InstallEvent::InstallDone(-12345));
    assert!(matches!(action, Action::ReleaseTempDir));
    let (_run, action) = run.step(InstallEvent::TempDirReleased);
    match action {
        Action::Finished(Err(e)) => assert_eq!(e, Error::Unknown(-12345)),
        _ => panic!("an unrecognised code is data, not a panic"),
    }
}

#[test]
fn temp_dir_creation_failure_is_resource() {
    let installer = DriverInstaller::for_specific_device(bare_device(3, 4))
        .with_inf_data(b"x", "a.inf");
    let (run, _action) = installer.install();
    let (_run, action) = run.step(InstallEvent::TempDirCreated(TempDirOutcome::CreationFailed));
    match action {
        Action::Finished(Err(e)) => assert_eq!(e, Error::Resource),
        _ => panic!("a failed temporary directory is a Resource error"),
    }
}

#[test]
fn inf_write_failure_is_resource_after_cleanup() {
    let installer = DriverInstaller::for_specific_device(bare_device(3, 4))
        .with_inf_data(b"x", "a.inf");
    let (run, _action) = installer.install();
    let (run, _action) = run.step(InstallEvent::TempDirCreated(TempDirOutcome::Created(
        String::from("C:\\t"),
    )));
    let (run, action) = run.step(InstallEvent::InfFileWritten(WriteOutcome::WriteFailed));
    assert!(matches!(action, Action::ReleaseTempDir));
    let (_run, action) = run.step(InstallEvent::TempDirReleased);
    match action {
        Action::Finished(Err(e)) => assert_eq!(e, Error::Resource),
        _ => panic!("a failed INF write is a Resource error"),
    }
}

#[test]
fn embedded_nul_fails_fast_with_invalid_param() {
    // The filename carries an embedded terminator: the run must fail
    // before any native call, releasing the temporary directory first.
    let installer = DriverInstaller::for_specific_device(bare_device(3, 4))
        .with_inf_data(b"x", "bad\0name.inf");
    let (run, _action) = installer.install();
    let (run, _action) = run.step(InstallEvent::TempDirCreated(TempDirOutcome::Created(
        String::from("C:\\t"),
    )));
    let (run, action) = run.step(InstallEvent::InfFileWritten(WriteOutcome::Written));
    assert!(matches!(action, Action::ReleaseTempDir));
    let (_run, action) = run.step(InstallEvent::TempDirReleased);
    match action {
        Action::Finished(Err(e)) => assert_eq!(e, Error::InvalidParam),
        _ => panic!("an embedded terminator fails fast with InvalidParam"),
    }
}

#[test]
fn device_string_nul_fails_fast_with_invalid_param() {
    let mut device = bare_device(3, 4);
    device.device_id = Some(String::from("USB\\VID_0\0"));
    let installer = DriverInstaller::for_specific_device(device).with_inf_data(b"x", "a.inf");
    let (run, _action) = installer.install();
    let (run, _action) = run.step(InstallEvent::TempDirCreated(TempDirOutcome::Created(
        String::from("C:\\t"),
    )));
    let (run, action) = run.step(InstallEvent::InfFileWritten(WriteOutcome::Written));
    assert!(matches!(action, Action::ReleaseTempDir));
    let (_run, action) = run.step(InstallEvent::TempDirReleased);
    match action {
        Action::Finished(Err(e)) => assert_eq!(e, Error::InvalidParam),
        _ => panic!("an embedded terminator in a device string fails fast"),
    }
}
