//! The errors of the library.

use crate::text::{decimal_digits, push_decimal};
use vstd::prelude::*;
use vstd::string::*;

verus! {

/// What can go wrong while volumes are listed and looked up.
#[allow(clippy::upper_case_acronyms)]
#[derive(Debug, Clone, PartialEq, Eq, Hash)]
pub enum UFFSError {
    /// Reading or writing failed; the text is that of the system's error.
    Io(String),
    VariantConversionError(String),
    GetPropertyError(String),
    WindowsApiError(String),
    /// A query of the system's inventory service failed.
    WMIQueryFailed(String),
    /// There is no drive to report on: the disk listing of the operating
    /// system is empty, or a query of the system's inventory service
    /// returned no record.
    EmptyDriveInfo,
    /// The facility behind the disk listing holds no drive information.
    SysInfoEmptyDriveInfo,
    DriveLetterNotFound,
    DirectoryReadError,
    ConfigError(String),
    CustomError { message: String, data: usize },
}

impl UFFSError {
    /// The text that describes the error.
    pub open spec fn message_text(&self) -> Seq<char> {
        match self {
            UFFSError::Io(text) => "IO error: "@ + text@,
            UFFSError::VariantConversionError(text) => "Failed to convert VARIANT to u16: "@
                + text@,
            UFFSError::GetPropertyError(text) => "Failed to get property: "@ + text@,
            UFFSError::WindowsApiError(text) => "Windows API error: "@ + text@,
            UFFSError::WMIQueryFailed(text) => "WMI query failed: "@ + text@,
            UFFSError::EmptyDriveInfo => "Drive information is empty."@,
            UFFSError::SysInfoEmptyDriveInfo => "sysinfo Drive information is empty."@,
            UFFSError::DriveLetterNotFound => "Drive letter not found."@,
            UFFSError::DirectoryReadError => "Failed to read directory entries."@,
            UFFSError::ConfigError(text) => "Configuration error: "@ + text@,
            UFFSError::CustomError { message, data } => "Custom error with data: "@ + message@
                + ", data: "@ + decimal_digits(*data as nat),
        }
    }

    /// The text that describes the error.
    pub fn message(&self) -> (text: String)
        ensures
            text@ == self.message_text(),
    {
        match self {
            UFFSError::Io(detail) => String::from_str("IO error: ").concat(detail.as_str()),
            UFFSError::VariantConversionError(detail) => String::from_str(
                "Failed to convert VARIANT to u16: ",
            ).concat(detail.as_str()),
            UFFSError::GetPropertyError(detail) => String::from_str(
                "Failed to get property: ",
            ).concat(detail.as_str()),
            UFFSError::WindowsApiError(detail) => String::from_str("Windows API error: ").concat(
                detail.as_str(),
            ),
            UFFSError::WMIQueryFailed(detail) => String::from_str("WMI query failed: ").concat(
                detail.as_str(),
            ),
            UFFSError::EmptyDriveInfo => String::from_str("Drive information is empty."),
            UFFSError::SysInfoEmptyDriveInfo => String::from_str(
                "sysinfo Drive information is empty.",
            ),
            UFFSError::DriveLetterNotFound => String::from_str("Drive letter not found."),
            UFFSError::DirectoryReadError => String::from_str("Failed to read directory entries."),
            UFFSError::ConfigError(detail) => String::from_str("Configuration error: ").concat(
                detail.as_str(),
            ),
            UFFSError::CustomError { message, data } => {
                let mut text = String::from_str("Custom error with data: ");
                text.append(message.as_str());
                text.append(", data: ");
                push_decimal(&mut text, *data as u128);
                text
            },
        }
    }
}

} // verus!
