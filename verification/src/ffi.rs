//! Mirrors of the native engine's C-level enumerations. The raw pointer
//! structures of the native interface live outside the library; these
//! plain variants and their integer codes are what the verified logic
//! speaks about.

use vstd::prelude::*;

verus! {

/// Driver kinds as the native interface numbers them.
#[derive(Debug, Clone, Copy, PartialEq, Eq, Structural)]
pub enum WdiDriverType {
    WinUsb,
    Libusb0,
    LibusbK,
    Cdc,
    User,
    NbDrivers,
}

impl WdiDriverType {
    /// The integer value of this variant in the native interface.
    pub open spec fn spec_code(self) -> i32 {
        match self {
            WdiDriverType::WinUsb => 0,
            WdiDriverType::Libusb0 => 1,
            WdiDriverType::LibusbK => 2,
            WdiDriverType::Cdc => 3,
            WdiDriverType::User => 4,
            WdiDriverType::NbDrivers => 5,
        }
    }

    /// Returns the integer value of this variant in the native interface.
    pub fn code(self) -> (code: i32)
        ensures
            code == self.spec_code(),
    {
        match self {
            WdiDriverType::WinUsb => 0,
            WdiDriverType::Libusb0 => 1,
            WdiDriverType::LibusbK => 2,
            WdiDriverType::Cdc => 3,
            WdiDriverType::User => 4,
            WdiDriverType::NbDrivers => 5,
        }
    }
}

/// Log levels as the native interface numbers them.
#[derive(Debug, Clone, Copy, PartialEq, Eq, Structural)]
pub enum WdiLogLevel {
    Debug,
    Info,
    Warning,
    Error,
    Off,
}

impl WdiLogLevel {
    /// The integer value of this variant in the native interface.
    pub open spec fn spec_code(self) -> i32 {
        match self {
            WdiLogLevel::Debug => 0,
            WdiLogLevel::Info => 1,
            WdiLogLevel::Warning => 2,
            WdiLogLevel::Error => 3,
            WdiLogLevel::Off => 4,
        }
    }

    /// Returns the integer value of this variant in the native interface.
    pub fn code(self) -> (code: i32)
        ensures
            code == self.spec_code(),
    {
        match self {
            WdiLogLevel::Debug => 0,
            WdiLogLevel::Info => 1,
            WdiLogLevel::Warning => 2,
            WdiLogLevel::Error => 3,
            WdiLogLevel::Off => 4,
        }
    }
}

/// Status codes as the native interface numbers them: zero for success,
/// a fixed negative code for each failure kind.
#[derive(Debug, Clone, Copy, PartialEq, Eq, Structural)]
pub enum WdiError {
    Success,
    ErrorIo,
    ErrorInvalidParam,
    ErrorAccess,
    ErrorNoDevice,
    ErrorNotFound,
    ErrorBusy,
    ErrorTimeout,
    ErrorOverflow,
    ErrorPendingInstallation,
    ErrorInterrupted,
    ErrorResource,
    ErrorNotSupported,
    ErrorExists,
    ErrorUserCancel,
    ErrorNeedsAdmin,
    ErrorWow64,
    ErrorInfSyntax,
    ErrorCatMissing,
    ErrorUnsigned,
    ErrorOther,
}

impl WdiError {
    /// The integer value of this status in the native interface.
    pub open spec fn spec_code(self) -> i32 {
        match self {
            WdiError::Success => 0,
            WdiError::ErrorIo => -1i32,
            WdiError::ErrorInvalidParam => -2i32,
            WdiError::ErrorAccess => -3i32,
            WdiError::ErrorNoDevice => -4i32,
            WdiError::ErrorNotFound => -5i32,
            WdiError::ErrorBusy => -6i32,
            WdiError::ErrorTimeout => -7i32,
            WdiError::ErrorOverflow => -8i32,
            WdiError::ErrorPendingInstallation => -9i32,
            WdiError::ErrorInterrupted => -10i32,
            WdiError::ErrorResource => -11i32,
            WdiError::ErrorNotSupported => -12i32,
            WdiError::ErrorExists => -13i32,
            WdiError::ErrorUserCancel => -14i32,
            WdiError::ErrorNeedsAdmin => -15i32,
            WdiError::ErrorWow64 => -16i32,
            WdiError::ErrorInfSyntax => -17i32,
            WdiError::ErrorCatMissing => -18i32,
            WdiError::ErrorUnsigned => -19i32,
            WdiError::ErrorOther => -99i32,
        }
    }

    /// Returns the integer value of this status in the native interface.
    pub fn code(self) -> (code: i32)
        ensures
            code == self.spec_code(),
    {
        match self {
            WdiError::Success => 0,
            WdiError::ErrorIo => -1i32,
            WdiError::ErrorInvalidParam => -2i32,
            WdiError::ErrorAccess => -3i32,
            WdiError::ErrorNoDevice => -4i32,
            WdiError::ErrorNotFound => -5i32,
            WdiError::ErrorBusy => -6i32,
            WdiError::ErrorTimeout => -7i32,
            WdiError::ErrorOverflow => -8i32,
            WdiError::ErrorPendingInstallation => -9i32,
            WdiError::ErrorInterrupted => -10i32,
            WdiError::ErrorResource => -11i32,
            WdiError::ErrorNotSupported => -12i32,
            WdiError::ErrorExists => -13i32,
            WdiError::ErrorUserCancel => -14i32,
            WdiError::ErrorNeedsAdmin => -15i32,
            WdiError::ErrorWow64 => -16i32,
            WdiError::ErrorInfSyntax => -17i32,
            WdiError::ErrorCatMissing => -18i32,
            WdiError::ErrorUnsigned => -19i32,
            WdiError::ErrorOther => -99i32,
        }
    }
}

/// Placeholder for the native version-information structure; the library
/// never reads its contents.
#[derive(Debug, Clone, Copy)]
pub struct VsFixedFileInfo {}

} // verus!
