//! Records of the class `Win32_DiskPartition`: a partition of a physical disk.

use crate::wmi::{
    bool_line, i32_line, line, list_line, push_bool_line, push_i32_line, push_line,
    push_list_line, push_text_line, push_u32_line, push_u64_line, text_line, u32_line, u64_line,
};
use vstd::prelude::*;
use vstd::string::*;

verus! {

/// One instance of `Win32_DiskPartition`.
#[allow(non_snake_case)]
#[derive(Debug, Clone, PartialEq, Eq, Hash)]
pub struct Win32DiskPartition {
    /// The `Access` property indicates the access rights to the partition.
    pub Access: Option<u16>,
    /// The `Availability` property indicates the availability and status of the
    /// device.
    pub Availability: Option<u16>,
    /// The `BlockSize` property specifies the block size in bytes.
    pub BlockSize: Option<u64>,
    /// The `Bootable` property indicates whether the partition is bootable.
    pub Bootable: Option<bool>,
    /// The `BootPartition` property indicates whether the partition is the
    /// active (boot) partition.
    pub BootPartition: Option<bool>,
    /// The `Caption` property provides a short textual description of the
    /// partition.
    pub Caption: Option<String>,
    /// The `ConfigManagerErrorCode` property contains an error code, if
    /// applicable.
    pub ConfigManagerErrorCode: Option<u32>,
    /// The `ConfigManagerUserConfig` property indicates whether the partition
    /// is user-configurable.
    pub ConfigManagerUserConfig: Option<bool>,
    /// The `CreationClassName` property contains the name of the class or
    /// subclass used to create the partition.
    pub CreationClassName: Option<String>,
    /// The `Description` property contains a description of the partition.
    pub Description: Option<String>,
    /// The `DeviceID` property contains the unique identifier for the
    /// partition.
    pub DeviceID: String,
    /// The `DiskIndex` property specifies the index of the disk to which this
    /// partition belongs.
    pub DiskIndex: Option<u32>,
    /// The `ErrorCleared` property indicates whether the last error was
    /// cleared.
    pub ErrorCleared: Option<bool>,
    /// The `ErrorDescription` property contains a description of the last
    /// error.
    pub ErrorDescription: Option<String>,
    /// The `ErrorMethodology` property describes the error detection and
    /// correction methods.
    pub ErrorMethodology: Option<String>,
    /// The `HiddenSectors` property indicates the number of hidden sectors in
    /// the partition.
    pub HiddenSectors: Option<u32>,
    /// The `Index` property specifies the index of the partition.
    pub Index: Option<u32>,
    /// The `InstallDate` property contains the installation date of the
    /// partition.
    pub InstallDate: Option<String>,
    /// The `LastErrorCode` property contains the last error code.
    pub LastErrorCode: Option<u32>,
    /// The `Name` property contains the name of the partition.
    pub Name: Option<String>,
    /// The `NumberOfBlocks` property indicates the total number of blocks in
    /// the partition.
    pub NumberOfBlocks: Option<u64>,
    /// The `PNPDeviceID` property contains the Plug and Play device identifier.
    pub PNPDeviceID: Option<String>,
    /// The `PowerManagementCapabilities` property contains power management
    /// features of the partition.
    pub PowerManagementCapabilities: Option<Vec<u16>>,
    /// The `PowerManagementSupported` property indicates whether power
    /// management is supported.
    pub PowerManagementSupported: Option<bool>,
    /// The `PrimaryPartition` property indicates whether the partition is a
    /// primary partition.
    pub PrimaryPartition: Option<bool>,
    /// The `Purpose` property describes the purpose of the partition.
    pub Purpose: Option<String>,
    /// The `RewritePartition` property indicates whether the partition can be
    /// rewritten.
    pub RewritePartition: Option<bool>,
    /// The `Size` property specifies the size of the partition in bytes.
    pub Size: Option<u64>,
    /// The `StartingOffset` property specifies the starting offset of the
    /// partition.
    pub StartingOffset: Option<u64>,
    /// The `Status` property contains the current status of the partition.
    pub Status: Option<String>,
    /// The `StatusInfo` property provides additional status information.
    pub StatusInfo: Option<u16>,
    /// The `SystemCreationClassName` property contains the name of the class
    /// used to create the partition's system.
    pub SystemCreationClassName: Option<String>,
    /// The `SystemName` property contains the name of the system to which this
    /// partition belongs.
    pub SystemName: Option<String>,
    /// The `Type` property contains the type of partition (e.g., "GPT: Basic
    /// Data").
    pub Type: Option<String>,
    /// The `__CLASS` property specifies the WMI class of the object.
    pub __CLASS: Option<String>,
    /// The `__DERIVATION` property contains the inheritance hierarchy of the
    /// WMI class.
    pub __DERIVATION: Option<Vec<String>>,
    /// The `__DYNASTY` property specifies the root class in the inheritance
    /// hierarchy.
    pub __DYNASTY: Option<String>,
    /// The `__GENUS` property is an internal classification value used by WMI.
    pub __GENUS: Option<i32>,
    /// The `__NAMESPACE` property specifies the WMI namespace where the object
    /// resides.
    pub __NAMESPACE: Option<String>,
    /// The `__PATH` property contains the full WMI path to the object.
    pub __PATH: Option<String>,
    /// The `__PROPERTY_COUNT` property indicates the number of properties in
    /// the object.
    pub __PROPERTY_COUNT: Option<i32>,
    /// The `__RELPATH` property specifies the relative path to the object
    /// within the WMI namespace.
    pub __RELPATH: Option<String>,
    /// The `__SERVER` property specifies the name of the server where the WMI
    /// object resides.
    pub __SERVER: Option<String>,
    /// The `__SUPERCLASS` property contains the immediate superclass of the WMI
    /// class.
    pub __SUPERCLASS: Option<String>,
}

#[allow(non_snake_case)]
impl Win32DiskPartition {
    /// The namespace of the service that holds the class.
    pub const NAMESPACE: &'static str = "ROOT\\CIMv2";

    /// The query that asks for all instances of the class.
    pub const QUERY: &'static str = "SELECT * FROM Win32_DiskPartition";

    /// The description of the record: one line for each of the properties
    /// shown that has a value, in this order.
    pub open spec fn display_text(&self) -> Seq<char> {
        text_line("Caption                      : "@, self.Caption)
        + text_line("Description                  : "@, self.Description)
        + line("DeviceID                     : "@, self.DeviceID@)
        + u32_line("DiskIndex                    : "@, self.DiskIndex)
        + u64_line("BlockSize                    : "@, self.BlockSize)
        + bool_line("Bootable                     : "@, self.Bootable)
        + bool_line("BootPartition                : "@, self.BootPartition)
        + u64_line("Size                         : "@, self.Size)
        + bool_line("PrimaryPartition             : "@, self.PrimaryPartition)
        + u64_line("StartingOffset               : "@, self.StartingOffset)
        + text_line("Status                       : "@, self.Status)
        + text_line("SystemCreationClassName      : "@, self.SystemCreationClassName)
        + text_line("SystemName                   : "@, self.SystemName)
        + text_line("Type                         : "@, self.Type)
        + text_line("__CLASS                      : "@, self.__CLASS)
        + list_line("__DERIVATION                 : "@, self.__DERIVATION)
        + text_line("__DYNASTY                    : "@, self.__DYNASTY)
        + i32_line("__GENUS                      : "@, self.__GENUS)
        + text_line("__NAMESPACE                  : "@, self.__NAMESPACE)
        + text_line("__PATH                       : "@, self.__PATH)
        + i32_line("__PROPERTY_COUNT             : "@, self.__PROPERTY_COUNT)
        + text_line("__RELPATH                    : "@, self.__RELPATH)
        + text_line("__SERVER                     : "@, self.__SERVER)
        + text_line("__SUPERCLASS                 : "@, self.__SUPERCLASS)
    }

    /// Describes the record in lines of text; a property without a value
    /// has no line.
    pub fn to_string(&self) -> (text: String)
        ensures
            text@ == self.display_text(),
    {
        let mut text = String::new();
        push_text_line(&mut text, "Caption                      : ", &self.Caption);
        assert(text@ =~= text_line("Caption                      : "@, self.Caption));
        push_text_line(&mut text, "Description                  : ", &self.Description);
        push_line(&mut text, "DeviceID                     : ", self.DeviceID.as_str());
        push_u32_line(&mut text, "DiskIndex                    : ", &self.DiskIndex);
        push_u64_line(&mut text, "BlockSize                    : ", &self.BlockSize);
        push_bool_line(&mut text, "Bootable                     : ", &self.Bootable);
        push_bool_line(&mut text, "BootPartition                : ", &self.BootPartition);
        push_u64_line(&mut text, "Size                         : ", &self.Size);
        push_bool_line(&mut text, "PrimaryPartition             : ", &self.PrimaryPartition);
        push_u64_line(&mut text, "StartingOffset               : ", &self.StartingOffset);
        push_text_line(&mut text, "Status                       : ", &self.Status);
        push_text_line(&mut text, "SystemCreationClassName      : ", &self.SystemCreationClassName);
        push_text_line(&mut text, "SystemName                   : ", &self.SystemName);
        push_text_line(&mut text, "Type                         : ", &self.Type);
        push_text_line(&mut text, "__CLASS                      : ", &self.__CLASS);
        push_list_line(&mut text, "__DERIVATION                 : ", &self.__DERIVATION);
        push_text_line(&mut text, "__DYNASTY                    : ", &self.__DYNASTY);
        push_i32_line(&mut text, "__GENUS                      : ", &self.__GENUS);
        push_text_line(&mut text, "__NAMESPACE                  : ", &self.__NAMESPACE);
        push_text_line(&mut text, "__PATH                       : ", &self.__PATH);
        push_i32_line(&mut text, "__PROPERTY_COUNT             : ", &self.__PROPERTY_COUNT);
        push_text_line(&mut text, "__RELPATH                    : ", &self.__RELPATH);
        push_text_line(&mut text, "__SERVER                     : ", &self.__SERVER);
        push_text_line(&mut text, "__SUPERCLASS                 : ", &self.__SUPERCLASS);
        text
    }
}

} // verus!
