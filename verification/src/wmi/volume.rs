//! Records of the class `Win32_Volume`: a volume.

use crate::wmi::{
    bool_line, i32_line, list_line, push_bool_line, push_i32_line, push_list_line,
    push_text_line, push_u32_line, push_u64_line, text_line, u32_line, u64_line,
};
use vstd::prelude::*;
use vstd::string::*;

verus! {

/// One instance of `Win32_Volume`.
#[allow(non_snake_case)]
#[derive(Debug, Clone, PartialEq, Eq, Hash)]
pub struct Win32Volume {
    /// The `Access` property provides information about access rights to the
    /// volume.
    pub Access: Option<String>,
    /// The `Automount` property indicates whether automount is enabled for the
    /// volume.
    pub Automount: Option<bool>,
    /// The `Availability` property describes the availability and status of the
    /// volume.
    pub Availability: Option<String>,
    /// The `BlockSize` property indicates the size of each block, in bytes, on
    /// the volume.
    pub BlockSize: Option<u64>,
    /// The `BootVolume` property indicates whether the volume is the boot
    /// volume.
    pub BootVolume: Option<bool>,
    /// The `Capacity` property specifies the total capacity of the volume in
    /// bytes.
    pub Capacity: Option<u64>,
    /// The `Caption` property contains a short textual description of the
    /// volume.
    pub Caption: Option<String>,
    /// The `Compressed` property indicates whether the volume is compressed.
    pub Compressed: Option<bool>,
    /// The `ConfigManagerErrorCode` property contains error codes reported by
    /// the volume.
    pub ConfigManagerErrorCode: Option<String>,
    /// The `ConfigManagerUserConfig` property contains user configuration
    /// settings for the volume.
    pub ConfigManagerUserConfig: Option<String>,
    /// The `CreationClassName` property contains the class name used to create
    /// the instance.
    pub CreationClassName: Option<String>,
    /// The `Description` property provides a textual description of the volume.
    pub Description: Option<String>,
    /// The `DeviceID` property contains the unique identifier for the volume.
    pub DeviceID: Option<String>,
    /// The `DirtyBitSet` property indicates whether the dirty bit is set on the
    /// volume.
    pub DirtyBitSet: Option<bool>,
    /// The `DriveLetter` property contains the letter assigned to the volume
    /// (e.g., C:\).
    pub DriveLetter: Option<String>,
    /// The `DriveType` property contains an integer that specifies the type of
    /// the volume.
    pub DriveType: Option<u32>,
    /// The `ErrorCleared` property indicates whether the last error on the
    /// volume has been cleared.
    pub ErrorCleared: Option<String>,
    /// The `ErrorDescription` property provides a description of the last error
    /// encountered.
    pub ErrorDescription: Option<String>,
    /// The `ErrorMethodology` property describes the error detection and
    /// correction methodologies.
    pub ErrorMethodology: Option<String>,
    /// The `FileSystem` property specifies the file system type (e.g., NTFS,
    /// FAT32) of the volume.
    pub FileSystem: Option<String>,
    /// The `FreeSpace` property indicates the amount of free space, in bytes,
    /// on the volume.
    pub FreeSpace: Option<u64>,
    /// The `IndexingEnabled` property indicates whether indexing is enabled on
    /// the volume.
    pub IndexingEnabled: Option<bool>,
    /// The `InstallDate` property contains the date and time when the volume
    /// was installed.
    pub InstallDate: Option<String>,
    /// The `Label` property contains the volume label.
    pub Label: Option<String>,
    /// The `LastErrorCode` property provides the last error code encountered by
    /// the volume.
    pub LastErrorCode: Option<String>,
    /// The `MaximumFileNameLength` property specifies the maximum length of a
    /// file name on the volume.
    pub MaximumFileNameLength: Option<u32>,
    /// The `Name` property contains the name of the volume.
    pub Name: Option<String>,
    /// The `NumberOfBlocks` property contains the total number of blocks on the
    /// volume.
    pub NumberOfBlocks: Option<u64>,
    /// The `PageFilePresent` property indicates whether a page file is present
    /// on the volume.
    pub PageFilePresent: Option<bool>,
    /// The `PNPDeviceID` property contains the Plug and Play device identifier
    /// for the volume.
    pub PNPDeviceID: Option<String>,
    /// The `PowerManagementCapabilities` property contains power management
    /// settings.
    pub PowerManagementCapabilities: Option<Vec<u32>>,
    /// The `PowerManagementSupported` property indicates whether power
    /// management is supported.
    pub PowerManagementSupported: Option<bool>,
    /// The `Purpose` property specifies the intended purpose of the volume.
    pub Purpose: Option<String>,
    /// The `QuotasEnabled` property indicates whether disk quotas are enabled
    /// on the volume.
    pub QuotasEnabled: Option<bool>,
    /// The `QuotasIncomplete` property indicates whether disk quotas are
    /// incomplete on the volume.
    pub QuotasIncomplete: Option<bool>,
    /// The `QuotasRebuilding` property indicates whether disk quotas are being
    /// rebuilt.
    pub QuotasRebuilding: Option<bool>,
    /// The `SerialNumber` property contains the serial number of the volume.
    pub SerialNumber: Option<u32>,
    /// The `Status` property provides the current status of the volume.
    pub Status: Option<String>,
    /// The `StatusInfo` property provides additional status information.
    pub StatusInfo: Option<String>,
    /// The `SupportsDiskQuotas` property indicates whether the volume supports
    /// disk quotas.
    pub SupportsDiskQuotas: Option<bool>,
    /// The `SupportsFileBasedCompression` property indicates whether the volume
    /// supports file-based compression.
    pub SupportsFileBasedCompression: Option<bool>,
    /// The `SystemCreationClassName` property contains the name of the system
    /// creation class.
    pub SystemCreationClassName: Option<String>,
    /// The `SystemName` property contains the name of the system the volume
    /// belongs to.
    pub SystemName: Option<String>,
    /// The `SystemVolume` property indicates whether the volume is the system
    /// volume.
    pub SystemVolume: Option<bool>,
    /// The `__CLASS` property specifies the WMI class of the object.
    pub __CLASS: Option<String>,
    /// The `__DERIVATION` property contains the inheritance hierarchy of the
    /// WMI class.
    pub __DERIVATION: Option<Vec<String>>,
    /// The `__DYNASTY` property specifies the root class in the inheritance
    /// hierarchy.
    pub __DYNASTY: Option<String>,
    /// The `__GENUS` property is an internal classification value used by WMI.
    pub __GENUS: Option<i32>,
    /// The `__NAMESPACE` property specifies the WMI namespace where the object
    /// resides.
    pub __NAMESPACE: Option<String>,
    /// The `__PATH` property contains the full WMI path to the object.
    pub __PATH: Option<String>,
    /// The `__PROPERTY_COUNT` property indicates the number of properties in
    /// the object.
    pub __PROPERTY_COUNT: Option<i32>,
    /// The `__RELPATH` property specifies the relative path to the object
    /// within the WMI namespace.
    pub __RELPATH: Option<String>,
    /// The `__SERVER` property specifies the name of the server where the WMI
    /// object resides.
    pub __SERVER: Option<String>,
    /// The `__SUPERCLASS` property contains the immediate superclass of the WMI
    /// class.
    pub __SUPERCLASS: Option<String>,
}

#[allow(non_snake_case)]
impl Win32Volume {
    /// The namespace of the service that holds the class.
    pub const NAMESPACE: &'static str = "ROOT\\CIMv2";

    /// The query that asks for all instances of the class.
    pub const QUERY: &'static str = "SELECT * FROM Win32_Volume";

    /// The description of the record: one line for each of the properties
    /// shown that has a value, in this order.
    pub open spec fn display_text(&self) -> Seq<char> {
        text_line("Caption                     : "@, self.Caption)
        + text_line("DeviceID                    : "@, self.DeviceID)
        + text_line("FileSystem                  : "@, self.FileSystem)
        + u64_line("FreeSpace                   : "@, self.FreeSpace)
        + u64_line("Capacity                    : "@, self.Capacity)
        + u32_line("SerialNumber                : "@, self.SerialNumber)
        + text_line("DriveLetter                 : "@, self.DriveLetter)
        + text_line("Status                      : "@, self.Status)
        + bool_line("IndexingEnabled             : "@, self.IndexingEnabled)
        + bool_line("BootVolume                  : "@, self.BootVolume)
        + bool_line("SystemVolume                : "@, self.SystemVolume)
        + bool_line("DirtyBitSet                 : "@, self.DirtyBitSet)
        + text_line("Label                       : "@, self.Label)
        + bool_line("Automount                   : "@, self.Automount)
        + u64_line("BlockSize                   : "@, self.BlockSize)
        + u32_line("MaximumFileNameLength       : "@, self.MaximumFileNameLength)
        + text_line("PNPDeviceID                 : "@, self.PNPDeviceID)
        + bool_line("QuotasEnabled               : "@, self.QuotasEnabled)
        + bool_line("QuotasIncomplete            : "@, self.QuotasIncomplete)
        + bool_line("QuotasRebuilding            : "@, self.QuotasRebuilding)
        + bool_line("SupportsDiskQuotas          : "@, self.SupportsDiskQuotas)
        + bool_line("SupportsFileBasedCompression: "@, self.SupportsFileBasedCompression)
        + text_line("__CLASS                     : "@, self.__CLASS)
        + list_line("__DERIVATION                : "@, self.__DERIVATION)
        + text_line("__DYNASTY                   : "@, self.__DYNASTY)
        + i32_line("__GENUS                     : "@, self.__GENUS)
        + text_line("__NAMESPACE                 : "@, self.__NAMESPACE)
        + text_line("__PATH                      : "@, self.__PATH)
        + i32_line("__PROPERTY_COUNT            : "@, self.__PROPERTY_COUNT)
        + text_line("__RELPATH                   : "@, self.__RELPATH)
        + text_line("__SERVER                    : "@, self.__SERVER)
        + text_line("__SUPERCLASS                : "@, self.__SUPERCLASS)
    }

    /// Describes the record in lines of text; a property without a value
    /// has no line.
    pub fn to_string(&self) -> (text: String)
        ensures
            text@ == self.display_text(),
    {
        let mut text = String::new();
        push_text_line(&mut text, "Caption                     : ", &self.Caption);
        assert(text@ =~= text_line("Caption                     : "@, self.Caption));
        push_text_line(&mut text, "DeviceID                    : ", &self.DeviceID);
        push_text_line(&mut text, "FileSystem                  : ", &self.FileSystem);
        push_u64_line(&mut text, "FreeSpace                   : ", &self.FreeSpace);
        push_u64_line(&mut text, "Capacity                    : ", &self.Capacity);
        push_u32_line(&mut text, "SerialNumber                : ", &self.SerialNumber);
        push_text_line(&mut text, "DriveLetter                 : ", &self.DriveLetter);
        push_text_line(&mut text, "Status                      : ", &self.Status);
        push_bool_line(&mut text, "IndexingEnabled             : ", &self.IndexingEnabled);
        push_bool_line(&mut text, "BootVolume                  : ", &self.BootVolume);
        push_bool_line(&mut text, "SystemVolume                : ", &self.SystemVolume);
        push_bool_line(&mut text, "DirtyBitSet                 : ", &self.DirtyBitSet);
        push_text_line(&mut text, "Label                       : ", &self.Label);
        push_bool_line(&mut text, "Automount                   : ", &self.Automount);
        push_u64_line(&mut text, "BlockSize                   : ", &self.BlockSize);
        push_u32_line(&mut text, "MaximumFileNameLength       : ", &self.MaximumFileNameLength);
        push_text_line(&mut text, "PNPDeviceID                 : ", &self.PNPDeviceID);
        push_bool_line(&mut text, "QuotasEnabled               : ", &self.QuotasEnabled);
        push_bool_line(&mut text, "QuotasIncomplete            : ", &self.QuotasIncomplete);
        push_bool_line(&mut text, "QuotasRebuilding            : ", &self.QuotasRebuilding);
        push_bool_line(&mut text, "SupportsDiskQuotas          : ", &self.SupportsDiskQuotas);
        push_bool_line(
            &mut text,
            "SupportsFileBasedCompression: ",
            &self.SupportsFileBasedCompression,
        );
        push_text_line(&mut text, "__CLASS                     : ", &self.__CLASS);
        push_list_line(&mut text, "__DERIVATION                : ", &self.__DERIVATION);
        push_text_line(&mut text, "__DYNASTY                   : ", &self.__DYNASTY);
        push_i32_line(&mut text, "__GENUS                     : ", &self.__GENUS);
        push_text_line(&mut text, "__NAMESPACE                 : ", &self.__NAMESPACE);
        push_text_line(&mut text, "__PATH                      : ", &self.__PATH);
        push_i32_line(&mut text, "__PROPERTY_COUNT            : ", &self.__PROPERTY_COUNT);
        push_text_line(&mut text, "__RELPATH                   : ", &self.__RELPATH);
        push_text_line(&mut text, "__SERVER                    : ", &self.__SERVER);
        push_text_line(&mut text, "__SUPERCLASS                : ", &self.__SUPERCLASS);
        text
    }
}

} // verus!
