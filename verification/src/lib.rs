//! A safe, verifiable interface for installing Windows device drivers
//! (notably WinUSB) for USB devices on top of a native driver-installation
//! engine.
//!
//! The crate is split in two layers:
//!
//! 1. Core data types mirroring the native engine's surface: devices,
//!    device catalogs, option structs, and the closed result-code taxonomy
//!    ([`Error`]).
//! 2. A high-level [`DriverInstaller`] builder and its installation
//!    state machine ([`InstallRun`]): device selection, existing-driver
//!    conflict detection, INF-file provisioning, and the two-phase
//!    prepare + install protocol with exact temporary-resource lifetime.
//!
//! The native engine's four operations (enumerate, prepare, install,
//! set-log-level) and all filesystem work are performed by the embedding
//! program: the state machine asks for each piece of outside work through
//! an [`Action`] and receives its outcome as an [`InstallEvent`], so that
//! every decision the installer takes is verified code.

mod ffi;
mod installer;
mod wdi;

pub use installer::{
    Action, DeviceSelector, DriverInstaller, ExternalOutcome, InfSource, InstallEvent,
    InstallOptions, InstallRun, RunState, TempDirOutcome, WriteOutcome,
};
pub use wdi::{
    contains_nul, device_strings_ok, prepare_strings_ok, CreateListOptions, Device, DeviceIter,
    DeviceList, DriverType, Error, InstallDriverOptions, LogLevel, PrepareDriverOptions,
    DEFAULT_PENDING_INSTALL_TIMEOUT,
};
pub use ffi::{VsFixedFileInfo, WdiDriverType, WdiError, WdiLogLevel};
