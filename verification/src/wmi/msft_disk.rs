//! Records of the class `MSFT_Disk`: a disk as the storage management sees it.

use crate::wmi::{
    bool_line, i32_line, list_line, push_bool_line, push_i32_line, push_list_line,
    push_text_line, push_u16_line, push_u32_line, push_u64_line, text_line, u16_line, u32_line,
    u64_line,
};
use vstd::prelude::*;
use vstd::string::*;

verus! {

/// One instance of `MSFT_Disk`.
#[allow(non_snake_case)]
#[derive(Debug, Clone, PartialEq, Eq, Hash)]
pub struct MSFTDisk {
    /// The `AdapterSerialNumber` property contains the adapter serial number
    /// for the disk.
    pub AdapterSerialNumber: Option<String>,
    /// The `AllocatedSize` property indicates the size allocated to the disk in
    /// bytes.
    pub AllocatedSize: Option<u64>,
    /// The `BootFromDisk` property specifies if the disk is the boot disk.
    pub BootFromDisk: Option<bool>,
    /// The `BusType` property indicates the bus type for the disk (e.g., SCSI,
    /// IDE).
    pub BusType: Option<u16>,
    /// The `FirmwareVersion` property contains the firmware version of the
    /// disk.
    pub FirmwareVersion: Option<String>,
    /// The `FriendlyName` property provides a user-friendly name for the disk.
    pub FriendlyName: Option<String>,
    /// The `Guid` property contains the globally unique identifier (GUID) for
    /// the disk.
    pub Guid: Option<String>,
    /// The `HealthStatus` property indicates the health status of the disk.
    pub HealthStatus: Option<u16>,
    /// The `IsBoot` property specifies if the disk is a boot disk.
    pub IsBoot: Option<bool>,
    /// The `IsClustered` property indicates whether the disk is part of a
    /// cluster.
    pub IsClustered: Option<bool>,
    /// The `IsHighlyAvailable` property specifies whether the disk is highly
    /// available.
    pub IsHighlyAvailable: Option<bool>,
    /// The `IsOffline` property indicates whether the disk is offline.
    pub IsOffline: Option<bool>,
    /// The `IsReadOnly` property specifies whether the disk is read-only.
    pub IsReadOnly: Option<bool>,
    /// The `IsScaleOut` property indicates whether the disk is part of a scale-
    /// out environment.
    pub IsScaleOut: Option<bool>,
    /// The `IsSystem` property indicates whether the disk is a system disk.
    pub IsSystem: Option<bool>,
    /// The `LargestFreeExtent` property specifies the size of the largest free
    /// extent on the disk in bytes.
    pub LargestFreeExtent: Option<u64>,
    /// The `Location` property specifies the physical location of the disk.
    pub Location: Option<String>,
    /// The `LogicalSectorSize` property indicates the logical sector size of
    /// the disk in bytes.
    pub LogicalSectorSize: Option<u32>,
    /// The `Manufacturer` property specifies the manufacturer of the disk.
    pub Manufacturer: Option<String>,
    /// The `Model` property contains the model name of the disk.
    pub Model: Option<String>,
    /// The `Number` property specifies the disk number.
    pub Number: Option<u32>,
    /// The `NumberOfPartitions` property indicates the number of partitions on
    /// the disk.
    pub NumberOfPartitions: Option<u32>,
    /// The `ObjectId` property contains the unique object identifier for the
    /// disk.
    pub ObjectId: Option<String>,
    /// The `OfflineReason` property specifies the reason why the disk is
    /// offline, if applicable.
    pub OfflineReason: Option<u16>,
    /// The `OperationalStatus` property lists the operational status of the
    /// disk.
    pub OperationalStatus: Option<Vec<u16>>,
    /// The `PartitionStyle` property indicates the partition style of the disk
    /// (e.g., MBR, GPT).
    pub PartitionStyle: Option<u16>,
    /// The `Path` property contains the path to the disk.
    pub Path: Option<String>,
    /// The `PhysicalSectorSize` property indicates the physical sector size of
    /// the disk in bytes.
    pub PhysicalSectorSize: Option<u32>,
    /// The `ProvisioningType` property specifies the provisioning type of the
    /// disk (e.g., Thin, Fixed).
    pub ProvisioningType: Option<u16>,
    /// The `SerialNumber` property contains the serial number of the disk.
    pub SerialNumber: Option<String>,
    /// The `Size` property specifies the total size of the disk in bytes.
    pub Size: Option<u64>,
    /// The `UniqueId` property contains the unique identifier for the disk.
    pub UniqueId: Option<String>,
    /// The `UniqueIdFormat` property specifies the format of the unique
    /// identifier.
    pub UniqueIdFormat: Option<u16>,
    /// The `__CLASS` property specifies the WMI class of the object.
    pub __CLASS: Option<String>,
    /// The `__DERIVATION` property contains the inheritance hierarchy of the
    /// WMI class.
    pub __DERIVATION: Option<Vec<String>>,
    /// The `__DYNASTY` property specifies the root class in the inheritance
    /// hierarchy.
    pub __DYNASTY: Option<String>,
    /// The `__GENUS` property is an internal classification value used by WMI.
    pub __GENUS: Option<i32>,
    /// The `__NAMESPACE` property specifies the WMI namespace where the object
    /// resides.
    pub __NAMESPACE: Option<String>,
    /// The `__PATH` property contains the full WMI path to the object.
    pub __PATH: Option<String>,
    /// The `__PROPERTY_COUNT` property indicates the number of properties in
    /// the object.
    pub __PROPERTY_COUNT: Option<i32>,
    /// The `__RELPATH` property specifies the relative path to the object
    /// within the WMI namespace.
    pub __RELPATH: Option<String>,
    /// The `__SERVER` property specifies the name of the server where the WMI
    /// object resides.
    pub __SERVER: Option<String>,
    /// The `__SUPERCLASS` property contains the immediate superclass of the WMI
    /// class.
    pub __SUPERCLASS: Option<String>,
}

#[allow(non_snake_case)]
impl MSFTDisk {
    /// The namespace of the service that holds the class.
    pub const NAMESPACE: &'static str = "ROOT\\Microsoft\\Windows\\Storage";

    /// The query that asks for all instances of the class.
    pub const QUERY: &'static str = "SELECT * FROM MSFT_Disk";

    /// The description of the record: one line for each of the properties
    /// shown that has a value, in this order.
    pub open spec fn display_text(&self) -> Seq<char> {
        text_line("FriendlyName                 : "@, self.FriendlyName)
        + text_line("Model                        : "@, self.Model)
        + text_line("SerialNumber                 : "@, self.SerialNumber)
        + u64_line("Size                         : "@, self.Size)
        + text_line("Guid                         : "@, self.Guid)
        + u16_line("BusType                      : "@, self.BusType)
        + text_line("FirmwareVersion              : "@, self.FirmwareVersion)
        + u16_line("HealthStatus                 : "@, self.HealthStatus)
        + u16_line("PartitionStyle               : "@, self.PartitionStyle)
        + bool_line("IsBoot                       : "@, self.IsBoot)
        + bool_line("IsOffline                    : "@, self.IsOffline)
        + u64_line("AllocatedSize                : "@, self.AllocatedSize)
        + u64_line("LargestFreeExtent            : "@, self.LargestFreeExtent)
        + u32_line("LogicalSectorSize            : "@, self.LogicalSectorSize)
        + u32_line("PhysicalSectorSize           : "@, self.PhysicalSectorSize)
        + text_line("Location                     : "@, self.Location)
        + text_line("Path                         : "@, self.Path)
        + text_line("UniqueId                     : "@, self.UniqueId)
        + text_line("__CLASS                      : "@, self.__CLASS)
        + list_line("__DERIVATION                 : "@, self.__DERIVATION)
        + text_line("__DYNASTY                    : "@, self.__DYNASTY)
        + i32_line("__GENUS                      : "@, self.__GENUS)
        + text_line("__NAMESPACE                  : "@, self.__NAMESPACE)
        + text_line("__PATH                       : "@, self.__PATH)
        + i32_line("__PROPERTY_COUNT             : "@, self.__PROPERTY_COUNT)
        + text_line("__RELPATH                    : "@, self.__RELPATH)
        + text_line("__SERVER                     : "@, self.__SERVER)
        + text_line("__SUPERCLASS                 : "@, self.__SUPERCLASS)
    }

    /// Describes the record in lines of text; a property without a value
    /// has no line.
    pub fn to_string(&self) -> (text: String)
        ensures
            text@ == self.display_text(),
    {
        let mut text = String::new();
        push_text_line(&mut text, "FriendlyName                 : ", &self.FriendlyName);
        assert(text@ =~= text_line("FriendlyName                 : "@, self.FriendlyName));
        push_text_line(&mut text, "Model                        : ", &self.Model);
        push_text_line(&mut text, "SerialNumber                 : ", &self.SerialNumber);
        push_u64_line(&mut text, "Size                         : ", &self.Size);
        push_text_line(&mut text, "Guid                         : ", &self.Guid);
        push_u16_line(&mut text, "BusType                      : ", &self.BusType);
        push_text_line(&mut text, "FirmwareVersion              : ", &self.FirmwareVersion);
        push_u16_line(&mut text, "HealthStatus                 : ", &self.HealthStatus);
        push_u16_line(&mut text, "PartitionStyle               : ", &self.PartitionStyle);
        push_bool_line(&mut text, "IsBoot                       : ", &self.IsBoot);
        push_bool_line(&mut text, "IsOffline                    : ", &self.IsOffline);
        push_u64_line(&mut text, "AllocatedSize                : ", &self.AllocatedSize);
        push_u64_line(&mut text, "LargestFreeExtent            : ", &self.LargestFreeExtent);
        push_u32_line(&mut text, "LogicalSectorSize            : ", &self.LogicalSectorSize);
        push_u32_line(&mut text, "PhysicalSectorSize           : ", &self.PhysicalSectorSize);
        push_text_line(&mut text, "Location                     : ", &self.Location);
        push_text_line(&mut text, "Path                         : ", &self.Path);
        push_text_line(&mut text, "UniqueId                     : ", &self.UniqueId);
        push_text_line(&mut text, "__CLASS                      : ", &self.__CLASS);
        push_list_line(&mut text, "__DERIVATION                 : ", &self.__DERIVATION);
        push_text_line(&mut text, "__DYNASTY                    : ", &self.__DYNASTY);
        push_i32_line(&mut text, "__GENUS                      : ", &self.__GENUS);
        push_text_line(&mut text, "__NAMESPACE                  : ", &self.__NAMESPACE);
        push_text_line(&mut text, "__PATH                       : ", &self.__PATH);
        push_i32_line(&mut text, "__PROPERTY_COUNT             : ", &self.__PROPERTY_COUNT);
        push_text_line(&mut text, "__RELPATH                    : ", &self.__RELPATH);
        push_text_line(&mut text, "__SERVER                     : ", &self.__SERVER);
        push_text_line(&mut text, "__SUPERCLASS                 : ", &self.__SUPERCLASS);
        text
    }
}

} // verus!
