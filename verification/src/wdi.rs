//! Core types shared with the native driver-installation engine: devices,
//! device catalogs, option structs, log levels, and the closed result-code
//! taxonomy.

use vstd::prelude::*;
use vstd::string::StrSliceExecFns;

verus! {

/// Log verbosity accepted by the native engine.
pub enum LogLevel {
    Debug,
    Info,
    Warning,
    Error,
    Off,
}

impl LogLevel {
    /// The native integer code of this level.
    pub open spec fn spec_to_code(self) -> i32 {
        match self {
            LogLevel::Debug => 0,
            LogLevel::Info => 1,
            LogLevel::Warning => 2,
            LogLevel::Error => 3,
            LogLevel::Off => 4,
        }
    }

    /// Translates the level to the integer code the native engine expects.
    pub fn to_code(self) -> (code: i32)
        ensures
            code == self.spec_to_code(),
    {
        match self {
            LogLevel::Debug => 0,
            LogLevel::Info => 1,
            LogLevel::Warning => 2,
            LogLevel::Error => 3,
            LogLevel::Off => 4,
        }
    }
}

/// The closed error taxonomy of the native engine. Every failure the
/// engine can report maps one-to-one onto a variant; any code outside the
/// known range is carried, not rejected, in [`Error::Unknown`].
#[derive(Debug, Clone, Copy, PartialEq, Eq, Structural)]
pub enum Error {
    Io,
    InvalidParam,
    Access,
    NoDevice,
    NotFound,
    Busy,
    Timeout,
    Overflow,
    PendingInstallation,
    Interrupted,
    Resource,
    NotSupported,
    Exists,
    UserCancel,
    NeedsAdmin,
    Wow64,
    InfSyntax,
    CatMissing,
    Unsigned,
    Other,
    Unknown(i32),
}

impl Error {
    /// The meaning of a native status code: zero is success, each negative
    /// code in the known range is one error kind, and everything else is
    /// preserved as [`Error::Unknown`].
    pub open spec fn spec_from_code(code: i32) -> Result<(), Error> {
        if code == 0 {
            Ok(())
        } else if code == -1 {
            Err(Error::Io)
        } else if code == -2 {
            Err(Error::InvalidParam)
        } else if code == -3 {
            Err(Error::Access)
        } else if code == -4 {
            Err(Error::NoDevice)
        } else if code == -5 {
            Err(Error::NotFound)
        } else if code == -6 {
            Err(Error::Busy)
        } else if code == -7 {
            Err(Error::Timeout)
        } else if code == -8 {
            Err(Error::Overflow)
        } else if code == -9 {
            Err(Error::PendingInstallation)
        } else if code == -10 {
            Err(Error::Interrupted)
        } else if code == -11 {
            Err(Error::Resource)
        } else if code == -12 {
            Err(Error::NotSupported)
        } else if code == -13 {
            Err(Error::Exists)
        } else if code == -14 {
            Err(Error::UserCancel)
        } else if code == -15 {
            Err(Error::NeedsAdmin)
        } else if code == -16 {
            Err(Error::Wow64)
        } else if code == -17 {
            Err(Error::InfSyntax)
        } else if code == -18 {
            Err(Error::CatMissing)
        } else if code == -19 {
            Err(Error::Unsigned)
        } else if code == -99 {
            Err(Error::Other)
        } else {
            Err(Error::Unknown(code))
        }
    }

    /// Maps a native status code to a typed result. Success is returned
    /// exactly for code zero; no code panics or aborts.
    pub fn from_code(code: i32) -> (r: Result<(), Error>)
        ensures
            r == Error::spec_from_code(code),
            r is Ok <==> code == 0,
    {
        match code {
            0 => Ok(()),
            -1 => Err(Error::Io),
            -2 => Err(Error::InvalidParam),
            -3 => Err(Error::Access),
            -4 => Err(Error::NoDevice),
            -5 => Err(Error::NotFound),
            -6 => Err(Error::Busy),
            -7 => Err(Error::Timeout),
            -8 => Err(Error::Overflow),
            -9 => Err(Error::PendingInstallation),
            -10 => Err(Error::Interrupted),
            -11 => Err(Error::Resource),
            -12 => Err(Error::NotSupported),
            -13 => Err(Error::Exists),
            -14 => Err(Error::UserCancel),
            -15 => Err(Error::NeedsAdmin),
            -16 => Err(Error::Wow64),
            -17 => Err(Error::InfSyntax),
            -18 => Err(Error::CatMissing),
            -19 => Err(Error::Unsigned),
            -99 => Err(Error::Other),
            c => Err(Error::Unknown(c)),
        }
    }
}

/// Driver kinds the native engine can prepare and install.
#[derive(Debug, Clone, Copy, PartialEq, Eq, Structural)]
pub enum DriverType {
    WinUsb,
    LibUsb0,
    LibUsbK,
    Cdc,
    User,
}

impl DriverType {
    /// The native integer code of this driver kind.
    pub open spec fn spec_to_c_int(self) -> i32 {
        match self {
            DriverType::WinUsb => 0,
            DriverType::LibUsb0 => 1,
            DriverType::LibUsbK => 2,
            DriverType::Cdc => 3,
            DriverType::User => 4,
        }
    }

    /// Translates the driver kind to the integer code the native engine
    /// expects.
    pub fn to_c_int(self) -> (code: i32)
        ensures
            code == self.spec_to_c_int(),
    {
        match self {
            DriverType::WinUsb => 0,
            DriverType::LibUsb0 => 1,
            DriverType::LibUsbK => 2,
            DriverType::Cdc => 3,
            DriverType::User => 4,
        }
    }
}

/// One connected device, copied out of the native enumeration into plain
/// owned values. A `Device` never refers back to native memory: it stays
/// valid after the catalog it came from is released.
#[derive(Debug)]
pub struct Device {
    pub vid: u16,
    pub pid: u16,
    pub is_composite: bool,
    pub mi: u8,
    pub desc: Option<String>,
    pub driver: Option<String>,
    pub device_id: Option<String>,
    pub hardware_id: Option<String>,
    pub compatible_id: Option<String>,
    pub upper_filter: Option<String>,
    pub driver_version: u64,
}

/// Clones an optional string, preserving the value exactly.
fn clone_opt_string(s: &Option<String>) -> (r: Option<String>)
    ensures
        r == *s,
{
    match s {
        Some(x) => Some(x.clone()),
        None => None,
    }
}

impl Clone for Device {
    /// The clone is equal to the original in every field.
    fn clone(&self) -> (r: Device)
        ensures
            r == *self,
    {
        Device {
            vid: self.vid,
            pid: self.pid,
            is_composite: self.is_composite,
            mi: self.mi,
            desc: clone_opt_string(&self.desc),
            driver: clone_opt_string(&self.driver),
            device_id: clone_opt_string(&self.device_id),
            hardware_id: clone_opt_string(&self.hardware_id),
            compatible_id: clone_opt_string(&self.compatible_id),
            upper_filter: clone_opt_string(&self.upper_filter),
            driver_version: self.driver_version,
        }
    }
}

/// Whether a device record matches an identity pair.
pub open spec fn vid_pid_matches(d: Device, vid: u16, pid: u16) -> bool {
    d.vid == vid && d.pid == pid
}

/// A catalog of connected devices, in native enumeration order.
///
/// The catalog stands for the singly-linked device list the native engine
/// allocates during enumeration. Its backing memory must be given back to
/// the engine exactly once: [`DeviceList::release`] requires a catalog that
/// has not been released yet, and every accessor requires one that is still
/// live, so verified code can neither release a catalog twice nor read one
/// after release. Device records drawn from the catalog are independent
/// copies and are unaffected by its release.
#[derive(Debug)]
pub struct DeviceList {
    devices: Vec<Device>,
    released: bool,
}

impl View for DeviceList {
    type V = Seq<Device>;

    closed spec fn view(&self) -> Seq<Device> {
        self.devices@
    }
}

impl DeviceList {
    /// Whether the native backing memory of this catalog has been given
    /// back to the engine.
    pub closed spec fn is_released(&self) -> bool {
        self.released
    }

    /// Builds a catalog from device records already copied out of a native
    /// enumeration, preserving their order.
    pub fn new(devices: Vec<Device>) -> (list: DeviceList)
        ensures
            list@ == devices@,
            !list.is_released(),
    {
        DeviceList { devices, released: false }
    }

    /// Returns an iterator over the devices in the list.
    pub fn iter(&self) -> (it: DeviceIter<'_>)
        requires
            !self.is_released(),
        ensures
            it.list() == *self,
            it.index() == 0,
    {
        DeviceIter { list: self, index: 0 }
    }

    /// Gets the number of devices in the list.
    pub fn len(&self) -> (n: usize)
        requires
            !self.is_released(),
        ensures
            n == self@.len(),
    {
        self.devices.len()
    }

    /// Checks if the device list is empty.
    pub fn is_empty(&self) -> (r: bool)
        requires
            !self.is_released(),
        ensures
            r == (self@.len() == 0),
    {
        self.devices.len() == 0
    }

    /// Gets the device at the specified index, if it exists.
    pub fn get(&self, index: usize) -> (r: Option<Device>)
        requires
            !self.is_released(),
        ensures
            match r {
                Some(d) => index < self@.len() && d == self@[index as int],
                None => index >= self@.len(),
            },
    {
        if index < self.devices.len() {
            Some(self.devices[index].clone())
        } else {
            None
        }
    }

    /// The devices of a catalog that match an identity pair, in
    /// enumeration order.
    pub open spec fn spec_vid_pid_filter(s: Seq<Device>, vid: u16, pid: u16) -> Seq<Device> {
        s.filter(|d: Device| vid_pid_matches(d, vid, pid))
    }

    /// Filters the device list by VID and PID, returning the matching
    /// devices in enumeration order.
    pub fn from_vid_pid(&self, vid: u16, pid: u16) -> (r: Vec<Device>)
        requires
            !self.is_released(),
        ensures
            r@ == DeviceList::spec_vid_pid_filter(self@, vid, pid),
    {
        let mut r: Vec<Device> = Vec::new();
        let mut i: usize = 0;
        proof {
            reveal(Seq::filter);
            assert(r@ =~= Seq::<Device>::empty());
            assert(DeviceList::spec_vid_pid_filter(self@.take(0int), vid, pid) =~= r@);
        }
        while i < self.devices.len()
            invariant
                !self.is_released(),
                i <= self@.len(),
                r@ == DeviceList::spec_vid_pid_filter(self@.take(i as int), vid, pid),
            decreases self@.len() - i,
        {
            proof {
                reveal(Seq::filter);
                assert(self@.take(i + 1int).drop_last() =~= self@.take(i as int));
                assert(self@.take(i + 1int).last() == self@[i as int]);
            }
            let d = &self.devices[i];
            if d.vid == vid && d.pid == pid {
                r.push(d.clone());
                proof {
                    reveal(Seq::filter);
                    assert(r@ == DeviceList::spec_vid_pid_filter(
                        self@.take(i + 1int),
                        vid,
                        pid,
                    ));
                }
            } else {
                proof {
                    reveal(Seq::filter);
                    assert(r@ == DeviceList::spec_vid_pid_filter(
                        self@.take(i + 1int),
                        vid,
                        pid,
                    ));
                }
            }
            i = i + 1;
        }
        proof {
            assert(self@.take(self@.len() as int) =~= self@);
        }
        r
    }

    /// Gives the catalog's native backing memory back to the engine.
    ///
    /// This must happen exactly once in a catalog's lifetime: the
    /// precondition forbids a second release, and the accessors forbid any
    /// further use. The device records themselves are untouched.
    pub fn release(&mut self)
        requires
            !old(self).is_released(),
        ensures
            final(self).is_released(),
            final(self)@ == old(self)@,
    {
        self.released = true;
    }
}

/// Iterator over the devices in a [`DeviceList`]. Each step hands out an
/// independent copy of one device record.
pub struct DeviceIter<'a> {
    list: &'a DeviceList,
    index: usize,
}

impl<'a> DeviceIter<'a> {
    /// The catalog this iterator walks.
    pub closed spec fn list(&self) -> DeviceList {
        *self.list
    }

    /// How many devices have been handed out so far.
    pub closed spec fn index(&self) -> int {
        self.index as int
    }

    /// Copies out the next device record, or returns `None` at the end of
    /// the list.
    pub fn next(&mut self) -> (r: Option<Device>)
        requires
            !old(self).list().is_released(),
        ensures
            final(self).list() == old(self).list(),
            match r {
                Some(d) => {
                    &&& old(self).index() < old(self).list()@.len()
                    &&& d == old(self).list()@[old(self).index()]
                    &&& final(self).index() == old(self).index() + 1
                },
                None => {
                    &&& old(self).index() >= old(self).list()@.len()
                    &&& final(self).index() == old(self).index()
                },
            },
    {
        if self.index < self.list.devices.len() {
            let d = self.list.devices[self.index].clone();
            self.index = self.index + 1;
            Some(d)
        } else {
            None
        }
    }
}

/// Options for creating a device catalog, as exposed by the native engine.
#[derive(Debug, Clone, Copy, PartialEq, Eq, Structural)]
pub struct CreateListOptions {
    pub list_all: bool,
    pub list_hubs: bool,
    pub trim_whitespaces: bool,
}

impl Default for CreateListOptions {
    /// By default only driverless devices are listed, hubs are skipped,
    /// and whitespace in device strings is trimmed.
    fn default() -> (r: CreateListOptions)
        ensures
            r == (CreateListOptions { list_all: false, list_hubs: false, trim_whitespaces: true }),
    {
        CreateListOptions { list_all: false, list_hubs: false, trim_whitespaces: true }
    }
}

/// Options for the driver-preparation phase, as exposed by the native
/// engine.
#[derive(Debug)]
pub struct PrepareDriverOptions {
    pub driver_type: DriverType,
    pub vendor_name: Option<String>,
    pub device_guid: Option<String>,
    pub disable_cat: bool,
    pub disable_signing: bool,
    pub cert_subject: Option<String>,
    pub use_wcid_driver: bool,
    /// Whether the INF file is supplied from outside the engine. The
    /// high-level installer always derives this from the INF source and
    /// overrides any value set here.
    pub external_inf: bool,
}

impl Clone for PrepareDriverOptions {
    /// The clone is equal to the original in every field.
    fn clone(&self) -> (r: PrepareDriverOptions)
        ensures
            r == *self,
    {
        PrepareDriverOptions {
            driver_type: self.driver_type,
            vendor_name: clone_opt_string(&self.vendor_name),
            device_guid: clone_opt_string(&self.device_guid),
            disable_cat: self.disable_cat,
            disable_signing: self.disable_signing,
            cert_subject: clone_opt_string(&self.cert_subject),
            use_wcid_driver: self.use_wcid_driver,
            external_inf: self.external_inf,
        }
    }
}

impl Default for PrepareDriverOptions {
    /// The default prepares a WinUSB driver with no vendor or certificate
    /// customisation and an engine-generated INF.
    fn default() -> (r: PrepareDriverOptions)
        ensures
            r.driver_type == DriverType::WinUsb,
            r.vendor_name is None,
            r.device_guid is None,
            !r.disable_cat,
            !r.disable_signing,
            r.cert_subject is None,
            !r.use_wcid_driver,
            !r.external_inf,
    {
        PrepareDriverOptions {
            driver_type: DriverType::WinUsb,
            vendor_name: None,
            device_guid: None,
            disable_cat: false,
            disable_signing: false,
            cert_subject: None,
            use_wcid_driver: false,
            external_inf: false,
        }
    }
}

/// The default timeout, in milliseconds, to wait for a pending driver
/// installation.
pub const DEFAULT_PENDING_INSTALL_TIMEOUT: u32 = 120000;

/// Options for the driver-installation phase, as exposed by the native
/// engine.
#[derive(Debug, Clone, Copy, PartialEq, Eq, Structural)]
pub struct InstallDriverOptions {
    pub install_filter_driver: bool,
    /// Timeout in milliseconds to wait for pending installations.
    pub pending_install_timeout: u32,
}

impl Default for InstallDriverOptions {
    /// The default installs a plain (non-filter) driver and waits up to
    /// two minutes for a pending installation.
    fn default() -> (r: InstallDriverOptions)
        ensures
            r == (InstallDriverOptions {
                install_filter_driver: false,
                pending_install_timeout: DEFAULT_PENDING_INSTALL_TIMEOUT,
            }),
    {
        InstallDriverOptions {
            install_filter_driver: false,
            pending_install_timeout: DEFAULT_PENDING_INSTALL_TIMEOUT,
        }
    }
}

/// Whether a character sequence contains an embedded terminator, which the
/// native string representation cannot carry.
pub open spec fn has_nul(s: Seq<char>) -> bool {
    exists|i: int| 0 <= i < s.len() && s[i] == '\0'
}

/// Whether an optional string contains an embedded terminator.
pub open spec fn opt_has_nul(s: Option<String>) -> bool {
    match s {
        Some(x) => has_nul(x@),
        None => false,
    }
}

/// Checks a string for an embedded terminator character.
pub fn contains_nul(s: &str) -> (r: bool)
    ensures
        r == has_nul(s@),
{
    let n = s.unicode_len();
    let mut i: usize = 0;
    while i < n
        invariant
            n == s@.len(),
            i <= n,
            forall|j: int| 0 <= j < i ==> s@[j] != '\0',
        decreases n - i,
    {
        if s.get_char(i) == '\0' {
            return true;
        }
        i = i + 1;
    }
    false
}

/// Checks an optional string for an embedded terminator character.
fn opt_contains_nul(s: &Option<String>) -> (r: bool)
    ensures
        r == opt_has_nul(*s),
{
    match s {
        Some(x) => contains_nul(x.as_str()),
        None => false,
    }
}

/// Whether every string field of a device is free of embedded
/// terminators, so that it can be handed to the native engine.
pub open spec fn spec_device_strings_ok(d: Device) -> bool {
    &&& !opt_has_nul(d.desc)
    &&& !opt_has_nul(d.driver)
    &&& !opt_has_nul(d.device_id)
    &&& !opt_has_nul(d.hardware_id)
    &&& !opt_has_nul(d.compatible_id)
    &&& !opt_has_nul(d.upper_filter)
}

/// Checks every string field of a device for embedded terminators.
pub fn device_strings_ok(d: &Device) -> (r: bool)
    ensures
        r == spec_device_strings_ok(*d),
{
    !opt_contains_nul(&d.desc) && !opt_contains_nul(&d.driver) && !opt_contains_nul(&d.device_id)
        && !opt_contains_nul(&d.hardware_id) && !opt_contains_nul(&d.compatible_id)
        && !opt_contains_nul(&d.upper_filter)
}

/// Whether everything handed to the native prepare operation — the device
/// strings, both paths, and the optional preparation strings — is free of
/// embedded terminators.
pub open spec fn spec_prepare_strings_ok(
    d: Device,
    path: Seq<char>,
    inf_name: Seq<char>,
    options: PrepareDriverOptions,
) -> bool {
    &&& spec_device_strings_ok(d)
    &&& !has_nul(path)
    &&& !has_nul(inf_name)
    &&& !opt_has_nul(options.vendor_name)
    &&& !opt_has_nul(options.device_guid)
    &&& !opt_has_nul(options.cert_subject)
}

/// Checks everything handed to the native prepare operation for embedded
/// terminators. The high-level installer fails fast with
/// [`Error::InvalidParam`] when this returns false, before any native call.
pub fn prepare_strings_ok(
    d: &Device,
    path: &str,
    inf_name: &str,
    options: &PrepareDriverOptions,
) -> (r: bool)
    ensures
        r == spec_prepare_strings_ok(*d, path@, inf_name@, *options),
{
    device_strings_ok(d) && !contains_nul(path) && !contains_nul(inf_name) && !opt_contains_nul(
        &options.vendor_name,
    ) && !opt_contains_nul(&options.device_guid) && !opt_contains_nul(&options.cert_subject)
}

} // verus!
