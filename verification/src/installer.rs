//! The high-level driver installer: device selection strategies, INF-file
//! sourcing, the configuration builder, and the installation state machine
//! that sequences selection, conflict checking, provisioning, preparation
//! and installation while keeping the temporary INF directory alive for
//! exactly as long as the native engine needs it.

use vstd::prelude::*;
use vstd::slice::slice_to_vec;
use vstd::string::StringExecFns;

use crate::wdi::{
    prepare_strings_ok, spec_prepare_strings_ok, vid_pid_matches, CreateListOptions, Device,
    DeviceList, DriverType, Error, InstallDriverOptions, PrepareDriverOptions,
};

verus! {

/// Strategy for selecting which USB device to install a driver for.
///
/// The predicate strategy carries a caller-supplied function; the type
/// parameter `F` is that function's type.
pub enum DeviceSelector<F> {
    /// Select a device by USB Vendor ID and Product ID. If multiple
    /// devices match, the first one in enumeration order is used.
    VidPid { vid: u16, pid: u16 },
    /// Select the first device, in enumeration order, matching a
    /// predicate function.
    First(F),
    /// Use a specific device that was previously enumerated.
    Specific(Device),
}

/// Source for the INF file used during driver installation.
#[derive(Debug)]
pub enum InfSource {
    /// Use an embedded INF file from memory. The data is written to a
    /// temporary directory during installation.
    Embedded { data: Vec<u8>, filename: String },
    /// Use an existing INF file from the filesystem.
    External { path: String },
    /// Let the native engine generate the INF file automatically.
    Generated,
}

impl Clone for InfSource {
    /// The clone carries the same bytes, filename or path as the original.
    fn clone(&self) -> (r: InfSource)
        ensures
            match *self {
                InfSource::Embedded { data, filename } => {
                    &&& r matches InfSource::Embedded { data: d, filename: f }
                    &&& d@ == data@
                    &&& f@ == filename@
                },
                InfSource::External { path } => {
                    &&& r matches InfSource::External { path: p }
                    &&& p@ == path@
                },
                InfSource::Generated => r is Generated,
            },
    {
        match self {
            InfSource::Embedded { data, filename } => InfSource::Embedded {
                data: slice_to_vec(data.as_slice()),
                filename: filename.clone(),
            },
            InfSource::External { path } => InfSource::External { path: path.clone() },
            InfSource::Generated => InfSource::Generated,
        }
    }
}

impl Default for InfSource {
    /// The default lets the native engine generate the INF file.
    fn default() -> (r: InfSource)
        ensures
            r is Generated,
    {
        InfSource::Generated
    }
}

/// Options for driver installation: the preparation-phase and
/// installation-phase option structs together.
#[derive(Debug)]
pub struct InstallOptions {
    pub prepare_opts: PrepareDriverOptions,
    pub install_opts: InstallDriverOptions,
}

impl InstallOptions {
    /// The default value of both option structs.
    pub open spec fn spec_default() -> InstallOptions {
        InstallOptions {
            prepare_opts: PrepareDriverOptions {
                driver_type: DriverType::WinUsb,
                vendor_name: None,
                device_guid: None,
                disable_cat: false,
                disable_signing: false,
                cert_subject: None,
                use_wcid_driver: false,
                external_inf: false,
            },
            install_opts: InstallDriverOptions {
                install_filter_driver: false,
                pending_install_timeout: crate::wdi::DEFAULT_PENDING_INSTALL_TIMEOUT,
            },
        }
    }
}

impl Clone for InstallOptions {
    /// The clone is equal to the original in every field.
    fn clone(&self) -> (r: InstallOptions)
        ensures
            r == *self,
    {
        InstallOptions {
            prepare_opts: self.prepare_opts.clone(),
            install_opts: self.install_opts,
        }
    }
}

impl Default for InstallOptions {
    /// Both phases start from their defaults.
    fn default() -> (r: InstallOptions)
        ensures
            r == InstallOptions::spec_default(),
    {
        InstallOptions {
            prepare_opts: PrepareDriverOptions::default(),
            install_opts: InstallDriverOptions::default(),
        }
    }
}

/// The index of the first device, in enumeration order, that matches an
/// identity pair.
pub open spec fn spec_first_vid_pid_index(devices: Seq<Device>, vid: u16, pid: u16) -> Option<int>
    decreases devices.len(),
{
    if devices.len() == 0 {
        None
    } else if vid_pid_matches(devices[0], vid, pid) {
        Some(0int)
    } else {
        match spec_first_vid_pid_index(devices.drop_first(), vid, pid) {
            Some(i) => Some(i + 1),
            None => None,
        }
    }
}

/// An index characterised as "matching, with nothing matching before it"
/// is the first matching index.
proof fn lemma_first_vid_pid_index_found(devices: Seq<Device>, vid: u16, pid: u16, i: int)
    requires
        0 <= i < devices.len(),
        vid_pid_matches(devices[i], vid, pid),
        forall|j: int| 0 <= j < i ==> !vid_pid_matches(#[trigger] devices[j], vid, pid),
    ensures
        spec_first_vid_pid_index(devices, vid, pid) == Some(i),
    decreases i,
{
    if i == 0 {
    } else {
        assert(forall|j: int|
            0 <= j < i - 1 ==> #[trigger] devices.drop_first()[j] == devices[j + 1]);
        lemma_first_vid_pid_index_found(devices.drop_first(), vid, pid, i - 1);
    }
}

/// When nothing matches, there is no first matching index.
proof fn lemma_first_vid_pid_index_none(devices: Seq<Device>, vid: u16, pid: u16)
    requires
        forall|j: int| 0 <= j < devices.len() ==> !vid_pid_matches(#[trigger] devices[j], vid, pid),
    ensures
        spec_first_vid_pid_index(devices, vid, pid) is None,
    decreases devices.len(),
{
    if devices.len() == 0 {
    } else {
        assert(forall|j: int|
            0 <= j < devices.len() - 1 ==> #[trigger] devices.drop_first()[j] == devices[j + 1]);
        lemma_first_vid_pid_index_none(devices.drop_first(), vid, pid);
    }
}

/// What a correct selection returns, as a relation between the selection
/// strategy, the enumerated devices, and the outcome.
///
/// An explicit device is returned unconditionally. An identity pair
/// deterministically selects the first device, in enumeration order, that
/// matches both fields, and fails with [`Error::NotFound`] when none does —
/// in particular on an empty catalog. A predicate selects the first device
/// the predicate accepts; since a predicate function is only constrained
/// by its own contract, the relation speaks of its possible return values.
pub open spec fn spec_selection<F: Fn(&Device) -> bool>(
    selector: DeviceSelector<F>,
    devices: Seq<Device>,
    r: Result<Device, Error>,
) -> bool {
    match selector {
        DeviceSelector::Specific(d) => r == Ok::<Device, Error>(d),
        DeviceSelector::VidPid { vid, pid } => r == (match spec_first_vid_pid_index(
            devices,
            vid,
            pid,
        ) {
            Some(i) => Ok::<Device, Error>(devices[i]),
            None => Err::<Device, Error>(Error::NotFound),
        }),
        DeviceSelector::First(f) => match r {
            Ok(d) => exists|i: int|
                {
                    &&& 0 <= i < devices.len()
                    &&& d == #[trigger] devices[i]
                    &&& call_ensures(f, (&devices[i],), true)
                    &&& forall|j: int|
                        0 <= j < i ==> call_ensures(f, (&#[trigger] devices[j],), false)
                },
            Err(e) => e == Error::NotFound && forall|i: int|
                0 <= i < devices.len() ==> call_ensures(f, (&#[trigger] devices[i],), false),
        },
    }
}

/// High-level builder for installing USB drivers.
///
/// Constructed with a device-selection strategy, configured through
/// value-returning steps, and consumed exactly once by [`install`], which
/// starts the installation state machine.
///
/// [`install`]: DriverInstaller::install
pub struct DriverInstaller<F> {
    pub device_selector: DeviceSelector<F>,
    pub driver_type: DriverType,
    pub inf_source: InfSource,
    pub options: InstallOptions,
}

impl<F: Fn(&Device) -> bool> DriverInstaller<F> {
    /// Creates a new installer with a custom device selector; the driver
    /// type, INF source and options start at their defaults.
    pub fn new(device_selector: DeviceSelector<F>) -> (r: DriverInstaller<F>)
        ensures
            r.device_selector == device_selector,
            r.driver_type == DriverType::WinUsb,
            r.inf_source is Generated,
            r.options == InstallOptions::spec_default(),
    {
        DriverInstaller {
            device_selector,
            driver_type: DriverType::WinUsb,
            inf_source: InfSource::Generated,
            options: InstallOptions::default(),
        }
    }

    /// Sets the INF source to embedded data, to be written to a temporary
    /// file during installation.
    pub fn with_inf_data(self, data: &[u8], filename: &str) -> (r: DriverInstaller<F>)
        ensures
            r.device_selector == self.device_selector,
            r.driver_type == self.driver_type,
            r.options == self.options,
            r.inf_source matches InfSource::Embedded { data: d, filename: f } && d@ == data@
                && f@ == filename@,
    {
        DriverInstaller {
            inf_source: InfSource::Embedded {
                data: slice_to_vec(data),
                filename: filename.to_owned(),
            },
            ..self
        }
    }

    /// Sets the INF source to an existing file; the file must exist at
    /// installation time.
    pub fn with_inf_file(self, path: String) -> (r: DriverInstaller<F>)
        ensures
            r.device_selector == self.device_selector,
            r.driver_type == self.driver_type,
            r.options == self.options,
            r.inf_source matches InfSource::External { path: p } && p == path,
    {
        DriverInstaller { inf_source: InfSource::External { path }, ..self }
    }

    /// Sets the driver type to install.
    pub fn with_driver_type(self, driver_type: DriverType) -> (r: DriverInstaller<F>)
        ensures
            r.device_selector == self.device_selector,
            r.inf_source == self.inf_source,
            r.options == self.options,
            r.driver_type == driver_type,
    {
        DriverInstaller { driver_type, ..self }
    }

    /// Sets custom options for the driver-preparation phase. The
    /// `external_inf` field is derived from the INF source at installation
    /// time and any value set here is overridden.
    pub fn with_prepare_options(self, opts: PrepareDriverOptions) -> (r: DriverInstaller<F>)
        ensures
            r.device_selector == self.device_selector,
            r.driver_type == self.driver_type,
            r.inf_source == self.inf_source,
            r.options.prepare_opts == opts,
            r.options.install_opts == self.options.install_opts,
    {
        DriverInstaller {
            options: InstallOptions { prepare_opts: opts, install_opts: self.options.install_opts },
            ..self
        }
    }

    /// Sets custom options for the driver-installation phase.
    pub fn with_install_options(self, opts: InstallDriverOptions) -> (r: DriverInstaller<F>)
        ensures
            r.device_selector == self.device_selector,
            r.driver_type == self.driver_type,
            r.inf_source == self.inf_source,
            r.options.prepare_opts == self.options.prepare_opts,
            r.options.install_opts == opts,
    {
        DriverInstaller {
            options: InstallOptions {
                prepare_opts: self.options.prepare_opts,
                install_opts: opts,
            },
            ..self
        }
    }

    /// Finds the target device in a freshly enumerated catalog, following
    /// the selection strategy: an explicit device is returned as it is; an
    /// identity pair or a predicate selects the first matching device in
    /// enumeration order, or fails with [`Error::NotFound`] when nothing
    /// matches.
    pub fn find_device(&self, list: &DeviceList) -> (r: Result<Device, Error>)
        requires
            !list.is_released(),
            self.device_selector matches DeviceSelector::First(f) ==> forall|i: int|
                0 <= i < list@.len() ==> call_requires(f, (&list@[i],)),
        ensures
            spec_selection(self.device_selector, list@, r),
    {
        select_from_list(&self.device_selector, list)
    }

    /// Checks whether the device already has a driver installed. A device
    /// with any installed driver — the already-satisfied WinUSB case as
    /// well as a foreign driver, which this library never replaces — fails
    /// with [`Error::Exists`]; a driverless device passes.
    pub fn check_existing_driver(&self, device: &Device) -> (r: Result<(), Error>)
        ensures
            r == if device.driver is Some {
                Err::<(), Error>(Error::Exists)
            } else {
                Ok::<(), Error>(())
            },
    {
        match &device.driver {
            Some(_) => Err(Error::Exists),
            None => Ok(()),
        }
    }

    /// Begins the installation this builder describes, consuming it.
    ///
    /// Installation runs as a state machine: this call and every
    /// subsequent [`InstallRun::step`] return an [`Action`] naming the one
    /// piece of outside work — a native call or a filesystem operation —
    /// that must happen next; its outcome is handed back as an
    /// [`InstallEvent`]. An explicit device needs no enumeration and is
    /// checked for an existing driver at once; the other strategies first
    /// ask for an enumeration of all devices.
    pub fn install(self) -> (r: (InstallRun<F>, Action))
        ensures
            r.0.selector == self.device_selector,
            r.0.driver_type == self.driver_type,
            r.0.inf_source == self.inf_source,
            r.0.options == self.options,
            r.0.wf(),
            match self.device_selector {
                DeviceSelector::Specific(d) => spec_after_selection(r.0, d, r.0.state, r.1),
                _ => r.0.state is AwaitEnumeration && r.1 == Action::Enumerate(
                    spec_enumeration_options(),
                ),
            },
    {
        let DriverInstaller { device_selector, driver_type, inf_source, options } = self;
        let explicit: Option<Device> = match &device_selector {
            DeviceSelector::Specific(device) => Some(device.clone()),
            _ => None,
        };
        let run = InstallRun {
            selector: device_selector,
            driver_type,
            inf_source,
            options,
            state: RunState::AwaitEnumeration,
        };
        match explicit {
            Some(device) => run.after_selection(device),
            None => (
                run,
                Action::Enumerate(
                    CreateListOptions { list_all: true, list_hubs: false, trim_whitespaces: true },
                ),
            ),
        }
    }
}

/// The enumeration options the installer uses when it enumerates on its
/// own behalf: all devices, no hubs, trimmed strings.
pub open spec fn spec_enumeration_options() -> CreateListOptions {
    CreateListOptions { list_all: true, list_hubs: false, trim_whitespaces: true }
}

/// Marker for constructors whose selection strategy carries no predicate;
/// it only pins down the type parameter of the hosting `impl` block.
pub struct NoPredicate;

impl DriverInstaller<NoPredicate> {
    /// Creates an installer for a device with the specified VID and PID.
    /// If multiple devices match, the first one in enumeration order is
    /// used.
    pub fn for_device(vid: u16, pid: u16) -> (r: DriverInstaller<impl Fn(&Device) -> bool>)
        ensures
            r.device_selector matches DeviceSelector::VidPid { vid: v, pid: p } && v == vid && p
                == pid,
            r.driver_type == DriverType::WinUsb,
            r.inf_source is Generated,
            r.options == InstallOptions::spec_default(),
    {
        // The closure never runs; it fixes the predicate type parameter,
        // which selection by identity pair does not otherwise mention.
        let mut selector = DeviceSelector::First(|_d: &Device| false);
        selector = DeviceSelector::VidPid { vid, pid };
        DriverInstaller::new(selector)
    }

    /// Creates an installer for a specific, previously enumerated device.
    pub fn for_specific_device(device: Device) -> (r: DriverInstaller<impl Fn(&Device) -> bool>)
        ensures
            r.device_selector matches DeviceSelector::Specific(d) && d == device,
            r.driver_type == DriverType::WinUsb,
            r.inf_source is Generated,
            r.options == InstallOptions::spec_default(),
    {
        let mut selector = DeviceSelector::First(|_d: &Device| false);
        selector = DeviceSelector::Specific(device);
        DriverInstaller::new(selector)
    }
}

/// Selects a device from a catalog following a selection strategy; see
/// [`spec_selection`] for the exact outcome.
fn select_from_list<F: Fn(&Device) -> bool>(
    selector: &DeviceSelector<F>,
    list: &DeviceList,
) -> (r: Result<Device, Error>)
    requires
        !list.is_released(),
        *selector matches DeviceSelector::First(f) ==> forall|i: int|
            0 <= i < list@.len() ==> call_requires(f, (&list@[i],)),
    ensures
        spec_selection(*selector, list@, r),
{
    match selector {
        DeviceSelector::Specific(device) => Ok(device.clone()),
        DeviceSelector::VidPid { vid, pid } => {
            let n = list.len();
            let mut i: usize = 0;
            while i < n
                invariant
                    !list.is_released(),
                    n == list@.len(),
                    i <= n,
                    *selector matches DeviceSelector::VidPid { vid: v, pid: p } && v == *vid && p
                        == *pid,
                    forall|j: int| 0 <= j < i ==> !vid_pid_matches(#[trigger] list@[j], *vid, *pid),
                decreases n - i,
            {
                let d = list.get(i);
                match d {
                    Some(d) => {
                        if d.vid == *vid && d.pid == *pid {
                            proof {
                                lemma_first_vid_pid_index_found(list@, *vid, *pid, i as int);
                            }
                            return Ok(d);
                        }
                    },
                    None => (),
                }
                i = i + 1;
            }
            proof {
                lemma_first_vid_pid_index_none(list@, *vid, *pid);
            }
            Err(Error::NotFound)
        },
        DeviceSelector::First(pred) => {
            let n = list.len();
            let mut i: usize = 0;
            while i < n
                invariant
                    !list.is_released(),
                    n == list@.len(),
                    i <= n,
                    *selector matches DeviceSelector::First(f) && f == pred,
                    forall|k: int| 0 <= k < n ==> call_requires(*pred, (&list@[k],)),
                    forall|j: int|
                        0 <= j < i ==> call_ensures(*pred, (&#[trigger] list@[j],), false),
                decreases n - i,
            {
                let d = list.get(i);
                match d {
                    Some(d) => {
                        if pred(&d) {
                            return Ok(d);
                        }
                    },
                    None => (),
                }
                i = i + 1;
            }
            Err(Error::NotFound)
        },
    }
}

/// The one piece of outside work the installation state machine asks the
/// embedding program to perform next. Every action but [`Action::Finished`]
/// expects a corresponding [`InstallEvent`] in return.
#[derive(Debug)]
pub enum Action {
    /// Enumerate the connected devices with the given options and hand
    /// back the catalog.
    Enumerate(CreateListOptions),
    /// Create a fresh scoped temporary directory.
    CreateTempDir,
    /// Write the given bytes to the file named `filename` inside the
    /// temporary directory; `inf_path` is the same location as one string,
    /// as the native engine will receive it.
    WriteInfFile { directory: String, filename: String, inf_path: String, data: Vec<u8> },
    /// Check that the external INF file exists and resolve its parent
    /// directory.
    CheckExternalPath { path: String },
    /// Call the native prepare operation. `external_inf_overridden` notes
    /// that the caller-configured flag was overridden by the value derived
    /// from the INF source, which is worth a warning in a log.
    Prepare {
        device: Device,
        directory: String,
        inf_path: String,
        options: PrepareDriverOptions,
        external_inf_overridden: bool,
    },
    /// Call the native install operation.
    Install { device: Device, directory: String, inf_path: String, options: InstallDriverOptions },
    /// Release the scoped temporary directory created earlier in this run.
    ReleaseTempDir,
    /// The run is over with this result; no further event is expected.
    Finished(Result<Device, Error>),
}

/// The outcome of creating a scoped temporary directory.
#[derive(Debug)]
pub enum TempDirOutcome {
    /// The directory was created at this path.
    Created(String),
    /// The directory could not be created.
    CreationFailed,
    /// The directory was created but its path cannot be represented in
    /// the string encoding the native engine requires.
    NotRepresentable,
}

/// The outcome of writing the embedded INF data to its file.
#[derive(Debug)]
pub enum WriteOutcome {
    Written,
    WriteFailed,
}

/// The outcome of resolving an external INF path.
#[derive(Debug)]
pub enum ExternalOutcome {
    /// The file does not exist.
    Missing,
    /// The path has no parent directory.
    NoParent,
    /// The path cannot be represented in the string encoding the native
    /// engine requires.
    NotRepresentable,
    /// The file exists; its parent directory and its own path, as native
    /// strings.
    Resolved { directory: String, inf_path: String },
}

/// The outcome of one piece of outside work, handed back to
/// [`InstallRun::step`].
#[derive(Debug)]
pub enum InstallEvent {
    /// The enumeration finished: a fresh catalog, or the error the native
    /// engine reported.
    Enumerated(Result<DeviceList, Error>),
    TempDirCreated(TempDirOutcome),
    InfFileWritten(WriteOutcome),
    ExternalChecked(ExternalOutcome),
    /// The native prepare operation returned this status code.
    PrepareDone(i32),
    /// The native install operation returned this status code.
    InstallDone(i32),
    /// The scoped temporary directory has been released.
    TempDirReleased,
}

/// Where an installation run stands: which piece of outside work it is
/// waiting for, or how it ended.
#[derive(Debug)]
pub enum RunState {
    /// Waiting for the device enumeration.
    AwaitEnumeration,
    /// Waiting for the scoped temporary directory.
    AwaitTempDir { device: Device },
    /// Waiting for the embedded INF data to be written.
    AwaitInfWrite { device: Device, directory: String, inf_path: String },
    /// Waiting for the external INF path to be resolved.
    AwaitExternalCheck { device: Device },
    /// Waiting for the native prepare operation.
    AwaitPrepare { device: Device, directory: String, inf_path: String, has_temp: bool },
    /// Waiting for the native install operation.
    AwaitInstall { device: Device, directory: String, inf_path: String, has_temp: bool },
    /// Waiting for the scoped temporary directory to be released before
    /// the run can finish with this result.
    AwaitRelease { result: Result<Device, Error> },
    /// The run is over.
    Finished { result: Result<Device, Error> },
}

/// One installation in progress: the consumed builder's configuration plus
/// the current state. Drive it by performing the returned [`Action`]s and
/// handing their outcomes to [`InstallRun::step`] until
/// [`Action::Finished`] is returned.
pub struct InstallRun<F> {
    pub selector: DeviceSelector<F>,
    pub driver_type: DriverType,
    pub inf_source: InfSource,
    pub options: InstallOptions,
    pub state: RunState,
}

/// What conflict checking and the start of provisioning yield for a
/// selected device: a device with any existing driver ends the run with
/// [`Error::Exists`] before any resource is created; a driverless device
/// moves on to provisioning, which needs a temporary directory unless the
/// INF source is an external file.
pub open spec fn spec_after_selection<F>(
    cfg: InstallRun<F>,
    device: Device,
    st: RunState,
    action: Action,
) -> bool {
    if device.driver is Some {
        &&& st == (RunState::Finished { result: Err::<Device, Error>(Error::Exists) })
        &&& action == Action::Finished(Err::<Device, Error>(Error::Exists))
    } else {
        match cfg.inf_source {
            InfSource::External { path } => {
                &&& st == (RunState::AwaitExternalCheck { device })
                &&& action matches Action::CheckExternalPath { path: p } && p == path
            },
            _ => st == (RunState::AwaitTempDir { device }) && action is CreateTempDir,
        }
    }
}

/// The preparation options actually handed to the native engine: the
/// configured options with the driver type set from the builder and the
/// external-INF flag derived from the INF source — true exactly when the
/// INF file is not generated by the engine itself.
pub open spec fn spec_derived_prepare_opts<F>(cfg: InstallRun<F>) -> PrepareDriverOptions {
    PrepareDriverOptions {
        driver_type: cfg.driver_type,
        vendor_name: cfg.options.prepare_opts.vendor_name,
        device_guid: cfg.options.prepare_opts.device_guid,
        disable_cat: cfg.options.prepare_opts.disable_cat,
        disable_signing: cfg.options.prepare_opts.disable_signing,
        cert_subject: cfg.options.prepare_opts.cert_subject,
        use_wcid_driver: cfg.options.prepare_opts.use_wcid_driver,
        external_inf: !(cfg.inf_source is Generated),
    }
}

/// How a run fails once provisioning may have created a temporary
/// directory: with one, the directory is released first and the run
/// finishes only after the release is confirmed; without one, the run
/// finishes at once. Cleanup never changes the error.
pub open spec fn spec_fail(has_temp: bool, e: Error, st: RunState, action: Action) -> bool {
    if has_temp {
        &&& st == (RunState::AwaitRelease { result: Err::<Device, Error>(e) })
        &&& action is ReleaseTempDir
    } else {
        &&& st == (RunState::Finished { result: Err::<Device, Error>(e) })
        &&& action == Action::Finished(Err::<Device, Error>(e))
    }
}

/// What moving into the native prepare phase yields: with every string
/// free of embedded terminators, a prepare action with the derived
/// options; otherwise a fail-fast [`Error::InvalidParam`] before any
/// native call, releasing the temporary directory if one exists.
pub open spec fn spec_try_prepare<F>(
    cfg: InstallRun<F>,
    device: Device,
    directory: Seq<char>,
    inf_path: Seq<char>,
    has_temp: bool,
    st: RunState,
    action: Action,
) -> bool {
    let derived = spec_derived_prepare_opts(cfg);
    if spec_prepare_strings_ok(device, directory, inf_path, derived) {
        &&& st matches RunState::AwaitPrepare {
            device: d2,
            directory: dd,
            inf_path: ip,
            has_temp: ht,
        } && d2 == device && dd@ == directory && ip@ == inf_path && ht == has_temp
        &&& action matches Action::Prepare {
            device: d3,
            directory: ad,
            inf_path: ai,
            options,
            external_inf_overridden,
        } && d3 == device && ad@ == directory && ai@ == inf_path && options == derived
            && external_inf_overridden == (cfg.options.prepare_opts.external_inf
            != derived.external_inf)
    } else {
        spec_fail(has_temp, Error::InvalidParam, st, action)
    }
}

/// The error a non-zero native status code stands for.
pub open spec fn spec_error_of(code: i32) -> Error {
    match Error::spec_from_code(code) {
        Ok(_) => arbitrary(),
        Err(e) => e,
    }
}

/// The transition relation of the installation state machine: how one
/// event moves a run from its old state to its new state and which action
/// it asks for next. Every clause of the installation protocol — strict
/// phase order, fail-fast string validation, the derived external-INF
/// flag, cleanup before every exit — is a case of this relation.
pub open spec fn spec_step<F: Fn(&Device) -> bool>(
    s: InstallRun<F>,
    ev: InstallEvent,
    t: InstallRun<F>,
    action: Action,
) -> bool {
    match (s.state, ev) {
        (RunState::AwaitEnumeration, InstallEvent::Enumerated(outcome)) => match outcome {
            Err(e) => t.state == (RunState::Finished { result: Err::<Device, Error>(e) }) && action
                == Action::Finished(Err::<Device, Error>(e)),
            Ok(list) => exists|sel: Result<Device, Error>|
                {
                    &&& #[trigger] spec_selection(s.selector, list@, sel)
                    &&& match sel {
                        Err(e) => t.state == (RunState::Finished {
                            result: Err::<Device, Error>(e),
                        }) && action == Action::Finished(Err::<Device, Error>(e)),
                        Ok(d) => spec_after_selection(s, d, t.state, action),
                    }
                },
        },
        (RunState::AwaitTempDir { device }, InstallEvent::TempDirCreated(outcome)) => match outcome {
            TempDirOutcome::Created(dir) => match s.inf_source {
                InfSource::Embedded { data, filename } => {
                    &&& t.state matches RunState::AwaitInfWrite {
                        device: d2,
                        directory: dd,
                        inf_path: ip,
                    } && d2 == device && dd == dir && ip@ == dir@ + "\\"@ + filename@
                    &&& action matches Action::WriteInfFile {
                        directory: ad,
                        filename: an,
                        inf_path: ai,
                        data: bytes,
                    } && ad == dir && an == filename && ai@ == dir@ + "\\"@ + filename@ && bytes@
                        == data@
                },
                InfSource::Generated => spec_try_prepare(
                    s,
                    device,
                    dir@,
                    dir@ + "\\generated.inf"@,
                    true,
                    t.state,
                    action,
                ),
                InfSource::External { .. } => false,
            },
            TempDirOutcome::CreationFailed => {
                &&& t.state == (RunState::Finished { result: Err::<Device, Error>(Error::Resource) })
                &&& action == Action::Finished(Err::<Device, Error>(Error::Resource))
            },
            TempDirOutcome::NotRepresentable => spec_fail(
                true,
                Error::InvalidParam,
                t.state,
                action,
            ),
        },
        (
            RunState::AwaitInfWrite { device, directory, inf_path },
            InstallEvent::InfFileWritten(outcome),
        ) => match outcome {
            WriteOutcome::Written => spec_try_prepare(
                s,
                device,
                directory@,
                inf_path@,
                true,
                t.state,
                action,
            ),
            WriteOutcome::WriteFailed => spec_fail(true, Error::Resource, t.state, action),
        },
        (
            RunState::AwaitExternalCheck { device },
            InstallEvent::ExternalChecked(outcome),
        ) => match outcome {
            ExternalOutcome::Missing => spec_fail(false, Error::NotFound, t.state, action),
            ExternalOutcome::NoParent => spec_fail(false, Error::InvalidParam, t.state, action),
            ExternalOutcome::NotRepresentable => spec_fail(
                false,
                Error::InvalidParam,
                t.state,
                action,
            ),
            ExternalOutcome::Resolved { directory, inf_path } => spec_try_prepare(
                s,
                device,
                directory@,
                inf_path@,
                false,
                t.state,
                action,
            ),
        },
        (
            RunState::AwaitPrepare { device, directory, inf_path, has_temp },
            InstallEvent::PrepareDone(code),
        ) => {
            if code == 0 {
                &&& t.state matches RunState::AwaitInstall {
                    device: d2,
                    directory: dd,
                    inf_path: ip,
                    has_temp: ht,
                } && d2 == device && dd == directory && ip == inf_path && ht == has_temp
                &&& action matches Action::Install {
                    device: d3,
                    directory: ad,
                    inf_path: ai,
                    options,
                } && d3 == device && ad == directory && ai == inf_path && options
                    == s.options.install_opts
            } else {
                spec_fail(has_temp, spec_error_of(code), t.state, action)
            }
        },
        (
            RunState::AwaitInstall { device, directory, inf_path, has_temp },
            InstallEvent::InstallDone(code),
        ) => {
            if code == 0 {
                if has_temp {
                    &&& t.state == (RunState::AwaitRelease {
                        result: Ok::<Device, Error>(device),
                    })
                    &&& action is ReleaseTempDir
                } else {
                    &&& t.state == (RunState::Finished { result: Ok::<Device, Error>(device) })
                    &&& action == Action::Finished(Ok::<Device, Error>(device))
                }
            } else {
                spec_fail(has_temp, spec_error_of(code), t.state, action)
            }
        },
        (RunState::AwaitRelease { result }, InstallEvent::TempDirReleased) => {
            &&& t.state == (RunState::Finished { result })
            &&& action == Action::Finished(result)
        },
        _ => false,
    }
}

/// Selection by identity pair is deterministic: any two outcomes that the
/// selection relation admits for the same catalog are equal — the first
/// matching device in enumeration order, or [`Error::NotFound`].
pub proof fn lemma_vid_pid_selection_deterministic<F: Fn(&Device) -> bool>(
    selector: DeviceSelector<F>,
    devices: Seq<Device>,
    r1: Result<Device, Error>,
    r2: Result<Device, Error>,
)
    requires
        selector is VidPid,
        spec_selection(selector, devices, r1),
        spec_selection(selector, devices, r2),
    ensures
        r1 == r2,
{
}

/// Selecting from an empty catalog by identity pair or by predicate
/// yields exactly [`Error::NotFound`] — never a success and never another
/// error.
pub proof fn lemma_empty_catalog_not_found<F: Fn(&Device) -> bool>(
    selector: DeviceSelector<F>,
    devices: Seq<Device>,
    r: Result<Device, Error>,
)
    requires
        !(selector is Specific),
        devices.len() == 0,
        spec_selection(selector, devices, r),
    ensures
        r == Err::<Device, Error>(Error::NotFound),
{
}

/// A device that already carries a driver ends the run during conflict
/// checking with [`Error::Exists`]: no provisioning, preparation or
/// installation work is ever requested for it.
pub proof fn lemma_conflict_short_circuit<F: Fn(&Device) -> bool>(
    cfg: InstallRun<F>,
    device: Device,
    st: RunState,
    action: Action,
)
    requires
        spec_after_selection(cfg, device, st, action),
        device.driver is Some,
    ensures
        st == (RunState::Finished { result: Err::<Device, Error>(Error::Exists) }),
        action == Action::Finished(Err::<Device, Error>(Error::Exists)),
{
}

/// Every prepare action the state machine emits carries the derived
/// external-INF flag — false exactly for an engine-generated INF,
/// whatever the caller configured — and the builder's driver type.
pub proof fn lemma_external_inf_derived<F: Fn(&Device) -> bool>(
    s: InstallRun<F>,
    ev: InstallEvent,
    t: InstallRun<F>,
    action: Action,
)
    requires
        spec_step(s, ev, t, action),
    ensures
        action matches Action::Prepare { options, .. } ==> options.external_inf == !(s.inf_source
            is Generated) && options.driver_type == s.driver_type,
{
}

/// The scoped temporary directory survives the native phases and is gone
/// before every exit: a step orders its release exactly when the run
/// moves to `AwaitRelease`, and a run that holds a directory while the
/// native prepare or install operations are pending never finishes in the
/// same step — it finishes only after the release is confirmed.
pub proof fn lemma_temp_dir_outlives_native_phases<F: Fn(&Device) -> bool>(
    s: InstallRun<F>,
    ev: InstallEvent,
    t: InstallRun<F>,
    action: Action,
)
    requires
        spec_step(s, ev, t, action),
    ensures
        action is ReleaseTempDir <==> t.state is AwaitRelease,
        s.state matches RunState::AwaitPrepare { has_temp, .. } ==> has_temp ==> !(t.state
            is Finished),
        s.state matches RunState::AwaitInstall { has_temp, .. } ==> has_temp ==> !(t.state
            is Finished),
{
}

/// Where a run state stands in the phase order.
pub open spec fn spec_phase_rank(st: RunState) -> int {
    match st {
        RunState::AwaitEnumeration => 0,
        RunState::AwaitTempDir { .. } => 1,
        RunState::AwaitExternalCheck { .. } => 1,
        RunState::AwaitInfWrite { .. } => 2,
        RunState::AwaitPrepare { .. } => 3,
        RunState::AwaitInstall { .. } => 4,
        RunState::AwaitRelease { .. } => 5,
        RunState::Finished { .. } => 6,
    }
}

/// Phases run strictly forward: every step moves the run to a strictly
/// later phase. No phase overlaps or repeats, no failed step is retried,
/// and a finished run takes no further step.
pub proof fn lemma_phases_strictly_ordered<F: Fn(&Device) -> bool>(
    s: InstallRun<F>,
    ev: InstallEvent,
    t: InstallRun<F>,
    action: Action,
)
    requires
        spec_step(s, ev, t, action),
    ensures
        spec_phase_rank(t.state) > spec_phase_rank(s.state),
{
}

/// Clones a run result, preserving the value exactly.
fn clone_result(r: &Result<Device, Error>) -> (c: Result<Device, Error>)
    ensures
        c == *r,
{
    match r {
        Ok(d) => Ok(d.clone()),
        Err(e) => Err(*e),
    }
}

impl<F: Fn(&Device) -> bool> InstallRun<F> {
    /// Internal consistency of a run: each state occurs only with the INF
    /// source it was derived from, and a temporary directory is tracked
    /// exactly when the source needs one.
    pub open spec fn wf(self) -> bool {
        match self.state {
            RunState::AwaitEnumeration => !(self.selector is Specific),
            RunState::AwaitTempDir { .. } => !(self.inf_source is External),
            RunState::AwaitInfWrite { .. } => self.inf_source is Embedded,
            RunState::AwaitExternalCheck { .. } => self.inf_source is External,
            RunState::AwaitPrepare { has_temp, .. } => has_temp == !(self.inf_source is External),
            RunState::AwaitInstall { has_temp, .. } => has_temp == !(self.inf_source is External),
            RunState::AwaitRelease { .. } => !(self.inf_source is External),
            RunState::Finished { .. } => true,
        }
    }

    /// Which event kind the run is waiting for.
    pub open spec fn expects_event(self, ev: InstallEvent) -> bool {
        match (self.state, ev) {
            (RunState::AwaitEnumeration, InstallEvent::Enumerated(_)) => true,
            (RunState::AwaitTempDir { .. }, InstallEvent::TempDirCreated(_)) => true,
            (RunState::AwaitInfWrite { .. }, InstallEvent::InfFileWritten(_)) => true,
            (RunState::AwaitExternalCheck { .. }, InstallEvent::ExternalChecked(_)) => true,
            (RunState::AwaitPrepare { .. }, InstallEvent::PrepareDone(_)) => true,
            (RunState::AwaitInstall { .. }, InstallEvent::InstallDone(_)) => true,
            (RunState::AwaitRelease { .. }, InstallEvent::TempDirReleased) => true,
            _ => false,
        }
    }

    /// Feeds the outcome of the last requested piece of outside work into
    /// the run and returns the next action. The exact behaviour is the
    /// transition relation [`spec_step`]; the run's configuration never
    /// changes, and the run stays well formed.
    pub fn step(self, event: InstallEvent) -> (r: (InstallRun<F>, Action))
        requires
            self.wf(),
            self.expects_event(event),
            event matches InstallEvent::Enumerated(Ok(list)) ==> !list.is_released(),
            self.selector matches DeviceSelector::First(f) ==> event matches
                InstallEvent::Enumerated(Ok(list)) ==> forall|i: int|
                0 <= i < list@.len() ==> call_requires(f, (&list@[i],)),
        ensures
            r.0.selector == self.selector,
            r.0.driver_type == self.driver_type,
            r.0.inf_source == self.inf_source,
            r.0.options == self.options,
            r.0.wf(),
            spec_step(self, event, r.0, r.1),
    {
        match event {
            InstallEvent::Enumerated(outcome) => self.on_enumerated(outcome),
            InstallEvent::TempDirCreated(outcome) => self.on_temp_dir_created(outcome),
            InstallEvent::InfFileWritten(outcome) => self.on_inf_written(outcome),
            InstallEvent::ExternalChecked(outcome) => self.on_external_checked(outcome),
            InstallEvent::PrepareDone(code) => self.on_prepare_done(code),
            InstallEvent::InstallDone(code) => self.on_install_done(code),
            InstallEvent::TempDirReleased => self.on_temp_released(),
        }
    }

    /// Ends the run with the given result.
    fn finish(self, result: Result<Device, Error>) -> (r: (InstallRun<F>, Action))
        ensures
            r.0.selector == self.selector,
            r.0.driver_type == self.driver_type,
            r.0.inf_source == self.inf_source,
            r.0.options == self.options,
            r.0.wf(),
            r.0.state == (RunState::Finished { result }),
            r.1 == Action::Finished(result),
    {
        let announced = clone_result(&result);
        let InstallRun { selector, driver_type, inf_source, options, state: _ } = self;
        (
            InstallRun {
                selector,
                driver_type,
                inf_source,
                options,
                state: RunState::Finished { result },
            },
            Action::Finished(announced),
        )
    }

    /// Fails the run, first ordering the release of the temporary
    /// directory when one exists.
    fn fail(self, has_temp: bool, e: Error) -> (r: (InstallRun<F>, Action))
        requires
            has_temp ==> !(self.inf_source is External),
        ensures
            r.0.selector == self.selector,
            r.0.driver_type == self.driver_type,
            r.0.inf_source == self.inf_source,
            r.0.options == self.options,
            r.0.wf(),
            spec_fail(has_temp, e, r.0.state, r.1),
    {
        if has_temp {
            let InstallRun { selector, driver_type, inf_source, options, state: _ } = self;
            (
                InstallRun {
                    selector,
                    driver_type,
                    inf_source,
                    options,
                    state: RunState::AwaitRelease { result: Err(e) },
                },
                Action::ReleaseTempDir,
            )
        } else {
            self.finish(Err(e))
        }
    }

    /// Runs conflict checking on the selected device and, when it passes,
    /// begins provisioning.
    fn after_selection(self, device: Device) -> (r: (InstallRun<F>, Action))
        ensures
            r.0.selector == self.selector,
            r.0.driver_type == self.driver_type,
            r.0.inf_source == self.inf_source,
            r.0.options == self.options,
            r.0.wf(),
            spec_after_selection(self, device, r.0.state, r.1),
    {
        if device.driver.is_some() {
            self.finish(Err(Error::Exists))
        } else {
            let external_path: Option<String> = match &self.inf_source {
                InfSource::External { path } => Some(path.clone()),
                _ => None,
            };
            let InstallRun { selector, driver_type, inf_source, options, state: _ } = self;
            match external_path {
                Some(path) => (
                    InstallRun {
                        selector,
                        driver_type,
                        inf_source,
                        options,
                        state: RunState::AwaitExternalCheck { device },
                    },
                    Action::CheckExternalPath { path },
                ),
                None => (
                    InstallRun {
                        selector,
                        driver_type,
                        inf_source,
                        options,
                        state: RunState::AwaitTempDir { device },
                    },
                    Action::CreateTempDir,
                ),
            }
        }
    }

    /// Computes the preparation options handed to the native engine and
    /// whether the caller-configured external-INF flag was overridden.
    fn derive_prepare_options(&self) -> (r: (PrepareDriverOptions, bool))
        ensures
            r.0 == spec_derived_prepare_opts(*self),
            r.1 == (self.options.prepare_opts.external_inf != r.0.external_inf),
    {
        let external_inf = !(matches!(self.inf_source, InfSource::Generated));
        let overridden = self.options.prepare_opts.external_inf != external_inf;
        let mut derived = self.options.prepare_opts.clone();
        derived.driver_type = self.driver_type;
        derived.external_inf = external_inf;
        (derived, overridden)
    }

    /// Validates every string the native prepare operation will receive
    /// and either asks for the prepare call or fails fast with
    /// [`Error::InvalidParam`].
    fn try_prepare(self, device: Device, directory: String, inf_path: String, has_temp: bool) -> (r:
        (InstallRun<F>, Action))
        requires
            has_temp == !(self.inf_source is External),
        ensures
            r.0.selector == self.selector,
            r.0.driver_type == self.driver_type,
            r.0.inf_source == self.inf_source,
            r.0.options == self.options,
            r.0.wf(),
            spec_try_prepare(self, device, directory@, inf_path@, has_temp, r.0.state, r.1),
    {
        let (derived, overridden) = self.derive_prepare_options();
        if prepare_strings_ok(&device, directory.as_str(), inf_path.as_str(), &derived) {
            let InstallRun { selector, driver_type, inf_source, options, state: _ } = self;
            let run = InstallRun {
                selector,
                driver_type,
                inf_source,
                options,
                state: RunState::AwaitPrepare {
                    device: device.clone(),
                    directory: directory.clone(),
                    inf_path: inf_path.clone(),
                    has_temp,
                },
            };
            (
                run,
                Action::Prepare {
                    device,
                    directory,
                    inf_path,
                    options: derived,
                    external_inf_overridden: overridden,
                },
            )
        } else {
            self.fail(has_temp, Error::InvalidParam)
        }
    }

    /// Handles the enumeration outcome: selection, conflict checking, and
    /// the start of provisioning. The catalog is released before the run
    /// moves on.
    fn on_enumerated(self, outcome: Result<DeviceList, Error>) -> (r: (InstallRun<F>, Action))
        requires
            self.wf(),
            self.state is AwaitEnumeration,
            outcome matches Ok(list) ==> !list.is_released(),
            self.selector matches DeviceSelector::First(f) ==> outcome matches Ok(list)
                ==> forall|i: int| 0 <= i < list@.len() ==> call_requires(f, (&list@[i],)),
        ensures
            r.0.selector == self.selector,
            r.0.driver_type == self.driver_type,
            r.0.inf_source == self.inf_source,
            r.0.options == self.options,
            r.0.wf(),
            spec_step(self, InstallEvent::Enumerated(outcome), r.0, r.1),
    {
        match outcome {
            Err(e) => self.finish(Err(e)),
            Ok(list) => {
                let mut list = list;
                let selected = select_from_list(&self.selector, &list);
                list.release();
                proof {
                    assert(spec_selection(self.selector, list@, selected));
                }
                match selected {
                    Err(e) => self.finish(Err(e)),
                    Ok(device) => self.after_selection(device),
                }
            },
        }
    }

    /// Handles the temporary-directory outcome: writing the embedded INF
    /// data, or moving straight on towards the native prepare call for a
    /// generated INF.
    fn on_temp_dir_created(self, outcome: TempDirOutcome) -> (r: (InstallRun<F>, Action))
        requires
            self.wf(),
            self.state is AwaitTempDir,
        ensures
            r.0.selector == self.selector,
            r.0.driver_type == self.driver_type,
            r.0.inf_source == self.inf_source,
            r.0.options == self.options,
            r.0.wf(),
            spec_step(self, InstallEvent::TempDirCreated(outcome), r.0, r.1),
    {
        let device = match &self.state {
            RunState::AwaitTempDir { device } => device.clone(),
            _ => unreached(),
        };
        match outcome {
            TempDirOutcome::Created(dir) => {
                let embedded: Option<(Vec<u8>, String)> = match &self.inf_source {
                    InfSource::Embedded { data, filename } => Some(
                        (slice_to_vec(data.as_slice()), filename.clone()),
                    ),
                    _ => None,
                };
                match embedded {
                    Some((bytes, filename)) => {
                        let mut inf_path = dir.clone();
                        inf_path.append("\\");
                        inf_path.append(filename.as_str());
                        let InstallRun { selector, driver_type, inf_source, options, state: _ } =
                            self;
                        let run = InstallRun {
                            selector,
                            driver_type,
                            inf_source,
                            options,
                            state: RunState::AwaitInfWrite {
                                device,
                                directory: dir.clone(),
                                inf_path: inf_path.clone(),
                            },
                        };
                        (
                            run,
                            Action::WriteInfFile {
                                directory: dir,
                                filename,
                                inf_path,
                                data: bytes,
                            },
                        )
                    },
                    None => {
                        let mut inf_path = dir.clone();
                        inf_path.append("\\generated.inf");
                        self.try_prepare(device, dir, inf_path, true)
                    },
                }
            },
            TempDirOutcome::CreationFailed => self.finish(Err(Error::Resource)),
            TempDirOutcome::NotRepresentable => self.fail(true, Error::InvalidParam),
        }
    }

    /// Handles the INF-write outcome.
    fn on_inf_written(self, outcome: WriteOutcome) -> (r: (InstallRun<F>, Action))
        requires
            self.wf(),
            self.state is AwaitInfWrite,
        ensures
            r.0.selector == self.selector,
            r.0.driver_type == self.driver_type,
            r.0.inf_source == self.inf_source,
            r.0.options == self.options,
            r.0.wf(),
            spec_step(self, InstallEvent::InfFileWritten(outcome), r.0, r.1),
    {
        let (device, directory, inf_path) = match &self.state {
            RunState::AwaitInfWrite { device, directory, inf_path } => (
                device.clone(),
                directory.clone(),
                inf_path.clone(),
            ),
            _ => unreached(),
        };
        match outcome {
            WriteOutcome::Written => self.try_prepare(device, directory, inf_path, true),
            WriteOutcome::WriteFailed => self.fail(true, Error::Resource),
        }
    }

    /// Handles the external-INF resolution outcome.
    fn on_external_checked(self, outcome: ExternalOutcome) -> (r: (InstallRun<F>, Action))
        requires
            self.wf(),
            self.state is AwaitExternalCheck,
        ensures
            r.0.selector == self.selector,
            r.0.driver_type == self.driver_type,
            r.0.inf_source == self.inf_source,
            r.0.options == self.options,
            r.0.wf(),
            spec_step(self, InstallEvent::ExternalChecked(outcome), r.0, r.1),
    {
        let device = match &self.state {
            RunState::AwaitExternalCheck { device } => device.clone(),
            _ => unreached(),
        };
        match outcome {
            ExternalOutcome::Missing => self.finish(Err(Error::NotFound)),
            ExternalOutcome::NoParent => self.finish(Err(Error::InvalidParam)),
            ExternalOutcome::NotRepresentable => self.finish(Err(Error::InvalidParam)),
            ExternalOutcome::Resolved { directory, inf_path } => self.try_prepare(
                device,
                directory,
                inf_path,
                false,
            ),
        }
    }

    /// Handles the native prepare status code.
    fn on_prepare_done(self, code: i32) -> (r: (InstallRun<F>, Action))
        requires
            self.wf(),
            self.state is AwaitPrepare,
        ensures
            r.0.selector == self.selector,
            r.0.driver_type == self.driver_type,
            r.0.inf_source == self.inf_source,
            r.0.options == self.options,
            r.0.wf(),
            spec_step(self, InstallEvent::PrepareDone(code), r.0, r.1),
    {
        let (device, directory, inf_path, has_temp) = match &self.state {
            RunState::AwaitPrepare { device, directory, inf_path, has_temp } => (
                device.clone(),
                directory.clone(),
                inf_path.clone(),
                *has_temp,
            ),
            _ => unreached(),
        };
        match Error::from_code(code) {
            Ok(_) => {
                let install_opts = self.options.install_opts;
                let InstallRun { selector, driver_type, inf_source, options, state: _ } = self;
                let run = InstallRun {
                    selector,
                    driver_type,
                    inf_source,
                    options,
                    state: RunState::AwaitInstall {
                        device: device.clone(),
                        directory: directory.clone(),
                        inf_path: inf_path.clone(),
                        has_temp,
                    },
                };
                (
                    run,
                    Action::Install { device, directory, inf_path, options: install_opts },
                )
            },
            Err(e) => self.fail(has_temp, e),
        }
    }

    /// Handles the native install status code. On success the run is over
    /// but for releasing the temporary directory, when one exists.
    fn on_install_done(self, code: i32) -> (r: (InstallRun<F>, Action))
        requires
            self.wf(),
            self.state is AwaitInstall,
        ensures
            r.0.selector == self.selector,
            r.0.driver_type == self.driver_type,
            r.0.inf_source == self.inf_source,
            r.0.options == self.options,
            r.0.wf(),
            spec_step(self, InstallEvent::InstallDone(code), r.0, r.1),
    {
        let (device, has_temp) = match &self.state {
            RunState::AwaitInstall { device, has_temp, .. } => (device.clone(), *has_temp),
            _ => unreached(),
        };
        match Error::from_code(code) {
            Ok(_) => {
                if has_temp {
                    let InstallRun { selector, driver_type, inf_source, options, state: _ } = self;
                    (
                        InstallRun {
                            selector,
                            driver_type,
                            inf_source,
                            options,
                            state: RunState::AwaitRelease { result: Ok(device) },
                        },
                        Action::ReleaseTempDir,
                    )
                } else {
                    self.finish(Ok(device))
                }
            },
            Err(e) => self.fail(has_temp, e),
        }
    }

    /// Handles the confirmation that the temporary directory is gone; the
    /// run finishes with the result it was holding back.
    fn on_temp_released(self) -> (r: (InstallRun<F>, Action))
        requires
            self.wf(),
            self.state is AwaitRelease,
        ensures
            r.0.selector == self.selector,
            r.0.driver_type == self.driver_type,
            r.0.inf_source == self.inf_source,
            r.0.options == self.options,
            r.0.wf(),
            spec_step(self, InstallEvent::TempDirReleased, r.0, r.1),
    {
        let result = match &self.state {
            RunState::AwaitRelease { result } => clone_result(result),
            _ => unreached(),
        };
        self.finish(result)
    }
}

} // verus!
