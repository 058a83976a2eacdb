use ultra_fast_file_search::errors::UFFSError;
use ultra_fast_file_search::wmi::encryptable_volume::Win32EncryptableVolume;
use ultra_fast_file_search::wmi::quota_setting::Win32QuotaSetting;
use ultra_fast_file_search::wmi::volume_quota::Win32VolumeQuota;
use ultra_fast_file_search::wmi::{query_failed, query_outcome, QueryFailure, QueryStage};

fn some(text: &str) -> Option<String> {
    Some(text.to_string())
}

fn empty_volume(device_id: &str) -> Win32EncryptableVolume {
    Win32EncryptableVolume {
        ConversionStatus: None,
        DeviceID: device_id.to_string(),
        DriveLetter: None,
        EncryptionMethod: None,
        IsVolumeInitializedForProtection: None,
        PersistentVolumeID: None,
        ProtectionStatus: None,
        VolumeType: None,
        __CLASS: None,
        __DERIVATION: None,
        __DYNASTY: None,
        __GENUS: None,
        __NAMESPACE: None,
        __PATH: None,
        __PROPERTY_COUNT: None,
        __RELPATH: None,
        __SERVER: None,
        __SUPERCLASS: None,
    }
}

#[test]
fn a_record_with_every_property() {
    let quota = Win32VolumeQuota {
        Element: "Win32_Volume.DeviceID=\"X\"".to_string(),
        Setting: "Win32_QuotaSetting.VolumePath=\"F:\\\\\"".to_string(),
        __CLASS: some("Win32_VolumeQuota"),
        __DERIVATION: Some(vec!["CIM_ElementSetting".to_string(), "a\"b\\c".to_string()]),
        __DYNASTY: some("CIM_ElementSetting"),
        __GENUS: Some(2),
        __NAMESPACE: some("ROOT\\CIMv2"),
        __PATH: some("\\\\HOST\\ROOT\\CIMv2:Win32_VolumeQuota"),
        __PROPERTY_COUNT: Some(-2),
        __RELPATH: some("Win32_VolumeQuota"),
        __SERVER: some("HOST"),
        __SUPERCLASS: some("CIM_ElementSetting"),
    };
    let expected = "Element          : Win32_Volume.DeviceID=\"X\"\n\
                    Setting          : Win32_QuotaSetting.VolumePath=\"F:\\\\\"\n\
                    __CLASS          : Win32_VolumeQuota\n\
                    __DERIVATION     : [\"CIM_ElementSetting\", \"a\\\"b\\\\c\"]\n\
                    __DYNASTY        : CIM_ElementSetting\n\
                    __GENUS          : 2\n\
                    __NAMESPACE      : ROOT\\CIMv2\n\
                    __PATH           : \\\\HOST\\ROOT\\CIMv2:Win32_VolumeQuota\n\
                    __PROPERTY_COUNT : -2\n\
                    __RELPATH        : Win32_VolumeQuota\n\
                    __SERVER         : HOST\n\
                    __SUPERCLASS     : CIM_ElementSetting\n";
    assert_eq!(quota.to_string(), expected);
}

#[test]
fn a_property_without_a_value_has_no_line() {
    assert_eq!(empty_volume("\\\\?\\Volume{1}\\").to_string(), "DeviceID                     : \\\\?\\Volume{1}\\\n");
    let mut volume = empty_volume("V");
    volume.ProtectionStatus = Some(1);
    volume.IsVolumeInitializedForProtection = Some(true);
    volume.DriveLetter = some("C:");
    volume.__DERIVATION = Some(Vec::new());
    assert_eq!(
        volume.to_string(),
        "DeviceID                     : V\n\
         DriveLetter                  : C:\n\
         IsVolumeInitializedForProtection : true\n\
         ProtectionStatus             : 1\n\
         __DERIVATION                 : []\n"
    );
}

#[test]
fn numbers_of_every_width_are_shown_in_full() {
    let setting = Win32QuotaSetting {
        Caption: None,
        DefaultLimit: Some(i64::MIN),
        DefaultWarningLimit: Some(i64::MAX),
        Description: None,
        ExceededNotification: Some(false),
        SettingID: None,
        State: Some(u32::MAX),
        VolumePath: "C:\\".to_string(),
        WarningExceededNotification: None,
        __CLASS: None,
        __DERIVATION: None,
        __DYNASTY: None,
        __GENUS: Some(i32::MIN),
        __NAMESPACE: None,
        __PATH: None,
        __PROPERTY_COUNT: Some(i32::MAX),
        __RELPATH: None,
        __SERVER: None,
        __SUPERCLASS: None,
    };
    let text = setting.to_string();
    let values: Vec<&str> = text.lines().map(|line| line.split(": ").nth(1).unwrap()).collect();
    assert_eq!(
        values,
        vec![
            "-9223372036854775808",
            "9223372036854775807",
            "false",
            "4294967295",
            "C:\\",
            "-2147483648",
            "2147483647",
        ]
    );
}

#[test]
fn classes_know_their_namespace_and_query() {
    assert_eq!(Win32EncryptableVolume::NAMESPACE, "ROOT\\CIMv2\\Security\\MicrosoftVolumeEncryption");
    assert_eq!(Win32EncryptableVolume::QUERY, "SELECT * FROM Win32_EncryptableVolume");
    assert_eq!(Win32VolumeQuota::NAMESPACE, "ROOT\\CIMv2");
    assert_eq!(Win32VolumeQuota::QUERY, "SELECT * FROM Win32_VolumeQuota");
}

#[test]
fn a_failed_query_says_where_it_failed() {
    assert_eq!(
        query_failed(QueryStage::InitializeCom, "HRESULT(1)"),
        UFFSError::WMIQueryFailed("Failed to initialize COM: HRESULT(1)".to_string())
    );
    assert_eq!(
        query_failed(QueryStage::Connect, "denied"),
        UFFSError::WMIQueryFailed("Failed to connect to WMI namespace: denied".to_string())
    );
    assert_eq!(
        query_failed(QueryStage::Execute, ""),
        UFFSError::WMIQueryFailed("Failed to execute WMI query: ".to_string())
    );
}

#[test]
fn a_query_without_records_is_an_error() {
    let none: Result<Vec<Win32EncryptableVolume>, QueryFailure> = Ok(Vec::new());
    assert_eq!(query_outcome(none), Err(UFFSError::EmptyDriveInfo));
}

#[test]
fn records_are_handed_on() {
    let records = vec![empty_volume("a"), empty_volume("b")];
    assert_eq!(query_outcome(Ok(records.clone())), Ok(records));
}

#[test]
fn a_failure_of_the_query_is_handed_on_as_an_error() {
    let failed: Result<Vec<u8>, QueryFailure> =
        Err(QueryFailure { stage: QueryStage::Execute, detail: "invalid class".to_string() });
    assert_eq!(
        query_outcome(failed),
        Err(UFFSError::WMIQueryFailed("Failed to execute WMI query: invalid class".to_string()))
    );
}
