use ultra_fast_file_search::errors::UFFSError;

#[test]
fn every_error_has_its_message() {
    assert_eq!(UFFSError::Io("file not found".to_string()).message(), "IO error: file not found");
    assert_eq!(
        UFFSError::VariantConversionError("VT_BSTR".to_string()).message(),
        "Failed to convert VARIANT to u16: VT_BSTR"
    );
    assert_eq!(UFFSError::GetPropertyError("Name".to_string()).message(), "Failed to get property: Name");
    assert_eq!(UFFSError::WindowsApiError("5".to_string()).message(), "Windows API error: 5");
    assert_eq!(UFFSError::WMIQueryFailed("timeout".to_string()).message(), "WMI query failed: timeout");
    assert_eq!(UFFSError::EmptyDriveInfo.message(), "Drive information is empty.");
    assert_eq!(UFFSError::SysInfoEmptyDriveInfo.message(), "sysinfo Drive information is empty.");
    assert_eq!(UFFSError::DriveLetterNotFound.message(), "Drive letter not found.");
    assert_eq!(UFFSError::DirectoryReadError.message(), "Failed to read directory entries.");
    assert_eq!(UFFSError::ConfigError("no path".to_string()).message(), "Configuration error: no path");
    assert_eq!(
        UFFSError::CustomError { message: "odd".to_string(), data: 42 }.message(),
        "Custom error with data: odd, data: 42"
    );
    assert_eq!(
        UFFSError::CustomError { message: String::new(), data: 0 }.message(),
        "Custom error with data: , data: 0"
    );
}
