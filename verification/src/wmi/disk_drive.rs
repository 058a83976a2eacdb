//! Records of the class `Win32_DiskDrive`: a physical disk drive.

use crate::wmi::{
    i32_line, line, list_line, push_i32_line, push_line, push_list_line, push_text_line,
    push_u32_line, push_u64_line, text_line, u32_line, u64_line,
};
use vstd::prelude::*;
use vstd::string::*;

verus! {

/// One instance of `Win32_DiskDrive`.
#[allow(non_snake_case)]
#[derive(Debug, Clone, PartialEq, Eq, Hash)]
pub struct Win32DiskDrive {
    /// The `Availability` property indicates the availability and status of the
    /// disk drive.
    pub Availability: Option<u16>,
    /// The `BytesPerSector` property indicates the number of bytes per sector.
    pub BytesPerSector: Option<u32>,
    /// The `Capabilities` property lists the disk's capabilities, such as
    /// supporting random access or writing.
    pub Capabilities: Option<Vec<u16>>,
    /// The `CapabilityDescriptions` property contains descriptions of each
    /// capability.
    pub CapabilityDescriptions: Option<Vec<String>>,
    /// The `Caption` property provides a short textual description of the disk
    /// drive.
    pub Caption: Option<String>,
    /// The `CompressionMethod` property specifies the compression method used
    /// on the disk, if any.
    pub CompressionMethod: Option<String>,
    /// The `ConfigManagerErrorCode` property contains an error code, if
    /// applicable.
    pub ConfigManagerErrorCode: Option<u32>,
    /// The `ConfigManagerUserConfig` property indicates whether the disk is
    /// user-configurable.
    pub ConfigManagerUserConfig: Option<bool>,
    /// The `CreationClassName` property contains the name of the class or
    /// subclass used to create the disk drive.
    pub CreationClassName: Option<String>,
    /// The `Description` property contains a description of the disk drive.
    pub Description: Option<String>,
    /// The `DeviceID` property contains the unique identifier for the disk
    /// drive.
    pub DeviceID: String,
    /// The `FirmwareRevision` property specifies the firmware revision of the
    /// disk drive.
    pub FirmwareRevision: Option<String>,
    /// The `Index` property contains the index of the disk drive on the system.
    pub Index: Option<u32>,
    /// The `InstallDate` property specifies the date the disk drive was
    /// installed.
    pub InstallDate: Option<String>,
    /// The `InterfaceType` property contains the type of interface used by the
    /// disk drive (e.g., SCSI, IDE).
    pub InterfaceType: Option<String>,
    /// The `LastErrorCode` property contains the last error code encountered.
    pub LastErrorCode: Option<u32>,
    /// The `Manufacturer` property specifies the manufacturer of the disk
    /// drive.
    pub Manufacturer: Option<String>,
    /// The `MediaLoaded` property indicates whether a disk is loaded in the
    /// drive.
    pub MediaLoaded: Option<bool>,
    /// The `MediaType` property describes the type of media in the drive (e.g.,
    /// "Fixed hard disk media").
    pub MediaType: Option<String>,
    /// The `Model` property contains the model name of the disk drive.
    pub Model: Option<String>,
    /// The `Name` property specifies the name of the disk drive.
    pub Name: Option<String>,
    /// The `Partitions` property contains the number of partitions on the disk.
    pub Partitions: Option<u32>,
    /// The `PNPDeviceID` property specifies the Plug and Play device
    /// identifier.
    pub PNPDeviceID: Option<String>,
    /// The `SCSIBus` property contains the SCSI bus number that the disk drive
    /// is connected to.
    pub SCSIBus: Option<u32>,
    /// The `SCSILogicalUnit` property specifies the SCSI logical unit number of
    /// the disk drive.
    pub SCSILogicalUnit: Option<u16>,
    /// The `SCSIPort` property contains the SCSI port number of the disk drive.
    pub SCSIPort: Option<u16>,
    /// The `SCSITargetId` property specifies the SCSI target ID of the disk
    /// drive.
    pub SCSITargetId: Option<u16>,
    /// The `SectorsPerTrack` property contains the number of sectors per track
    /// on the disk.
    pub SectorsPerTrack: Option<u32>,
    /// The `SerialNumber` property contains the serial number of the disk
    /// drive.
    pub SerialNumber: Option<String>,
    /// The `Size` property specifies the total size of the disk drive, in
    /// bytes.
    pub Size: Option<u64>,
    /// The `Status` property provides the current status of the disk drive.
    pub Status: Option<String>,
    /// The `SystemCreationClassName` property specifies the name of the class
    /// used to create the system containing the disk drive.
    pub SystemCreationClassName: Option<String>,
    /// The `SystemName` property contains the name of the system where the disk
    /// drive is located.
    pub SystemName: Option<String>,
    /// The `TotalCylinders` property contains the total number of cylinders on
    /// the disk drive.
    pub TotalCylinders: Option<u64>,
    /// The `TotalHeads` property specifies the total number of heads on the
    /// disk drive.
    pub TotalHeads: Option<u32>,
    /// The `TotalSectors` property contains the total number of sectors on the
    /// disk drive.
    pub TotalSectors: Option<u64>,
    /// The `TotalTracks` property contains the total number of tracks on the
    /// disk drive.
    pub TotalTracks: Option<u64>,
    /// The `TracksPerCylinder` property specifies the number of tracks per
    /// cylinder on the disk drive.
    pub TracksPerCylinder: Option<u32>,
    /// The `__CLASS` property specifies the WMI class of the object.
    pub __CLASS: Option<String>,
    /// The `__DERIVATION` property contains the inheritance hierarchy of the
    /// WMI class.
    pub __DERIVATION: Option<Vec<String>>,
    /// The `__DYNASTY` property specifies the root class in the inheritance
    /// hierarchy.
    pub __DYNASTY: Option<String>,
    /// The `__GENUS` property is an internal classification value used by WMI.
    pub __GENUS: Option<i32>,
    /// The `__NAMESPACE` property specifies the WMI namespace where the object
    /// resides.
    pub __NAMESPACE: Option<String>,
    /// The `__PATH` property contains the full WMI path to the object.
    pub __PATH: Option<String>,
    /// The `__PROPERTY_COUNT` property indicates the number of properties in
    /// the object.
    pub __PROPERTY_COUNT: Option<i32>,
    /// The `__RELPATH` property specifies the relative path to the object
    /// within the WMI namespace.
    pub __RELPATH: Option<String>,
    /// The `__SERVER` property specifies the name of the server where the WMI
    /// object resides.
    pub __SERVER: Option<String>,
    /// The `__SUPERCLASS` property contains the immediate superclass of the WMI
    /// class.
    pub __SUPERCLASS: Option<String>,
}

#[allow(non_snake_case)]
impl Win32DiskDrive {
    /// The namespace of the service that holds the class.
    pub const NAMESPACE: &'static str = "ROOT\\CIMv2";

    /// The query that asks for all instances of the class.
    pub const QUERY: &'static str = "SELECT * FROM Win32_DiskDrive";

    /// The description of the record: one line for each of the properties
    /// shown that has a value, in this order.
    pub open spec fn display_text(&self) -> Seq<char> {
        text_line("Caption                      : "@, self.Caption)
        + text_line("Description                  : "@, self.Description)
        + text_line("Model                        : "@, self.Model)
        + line("DeviceID                     : "@, self.DeviceID@)
        + text_line("FirmwareRevision             : "@, self.FirmwareRevision)
        + u32_line("Index                        : "@, self.Index)
        + text_line("InterfaceType                : "@, self.InterfaceType)
        + text_line("Manufacturer                 : "@, self.Manufacturer)
        + text_line("MediaType                    : "@, self.MediaType)
        + text_line("SerialNumber                 : "@, self.SerialNumber)
        + u64_line("Size                         : "@, self.Size)
        + text_line("Status                       : "@, self.Status)
        + text_line("SystemCreationClassName      : "@, self.SystemCreationClassName)
        + text_line("SystemName                   : "@, self.SystemName)
        + u64_line("TotalCylinders               : "@, self.TotalCylinders)
        + u32_line("TotalHeads                   : "@, self.TotalHeads)
        + u64_line("TotalSectors                 : "@, self.TotalSectors)
        + u64_line("TotalTracks                  : "@, self.TotalTracks)
        + u32_line("TracksPerCylinder            : "@, self.TracksPerCylinder)
        + text_line("__CLASS                      : "@, self.__CLASS)
        + list_line("__DERIVATION                 : "@, self.__DERIVATION)
        + text_line("__DYNASTY                    : "@, self.__DYNASTY)
        + i32_line("__GENUS                      : "@, self.__GENUS)
        + text_line("__NAMESPACE                  : "@, self.__NAMESPACE)
        + text_line("__PATH                       : "@, self.__PATH)
        + i32_line("__PROPERTY_COUNT             : "@, self.__PROPERTY_COUNT)
        + text_line("__RELPATH                    : "@, self.__RELPATH)
        + text_line("__SERVER                     : "@, self.__SERVER)
        + text_line("__SUPERCLASS                 : "@, self.__SUPERCLASS)
    }

    /// Describes the record in lines of text; a property without a value
    /// has no line.
    pub fn to_string(&self) -> (text: String)
        ensures
            text@ == self.display_text(),
    {
        let mut text = String::new();
        push_text_line(&mut text, "Caption                      : ", &self.Caption);
        assert(text@ =~= text_line("Caption                      : "@, self.Caption));
        push_text_line(&mut text, "Description                  : ", &self.Description);
        push_text_line(&mut text, "Model                        : ", &self.Model);
        push_line(&mut text, "DeviceID                     : ", self.DeviceID.as_str());
        push_text_line(&mut text, "FirmwareRevision             : ", &self.FirmwareRevision);
        push_u32_line(&mut text, "Index                        : ", &self.Index);
        push_text_line(&mut text, "InterfaceType                : ", &self.InterfaceType);
        push_text_line(&mut text, "Manufacturer                 : ", &self.Manufacturer);
        push_text_line(&mut text, "MediaType                    : ", &self.MediaType);
        push_text_line(&mut text, "SerialNumber                 : ", &self.SerialNumber);
        push_u64_line(&mut text, "Size                         : ", &self.Size);
        push_text_line(&mut text, "Status                       : ", &self.Status);
        push_text_line(&mut text, "SystemCreationClassName      : ", &self.SystemCreationClassName);
        push_text_line(&mut text, "SystemName                   : ", &self.SystemName);
        push_u64_line(&mut text, "TotalCylinders               : ", &self.TotalCylinders);
        push_u32_line(&mut text, "TotalHeads                   : ", &self.TotalHeads);
        push_u64_line(&mut text, "TotalSectors                 : ", &self.TotalSectors);
        push_u64_line(&mut text, "TotalTracks                  : ", &self.TotalTracks);
        push_u32_line(&mut text, "TracksPerCylinder            : ", &self.TracksPerCylinder);
        push_text_line(&mut text, "__CLASS                      : ", &self.__CLASS);
        push_list_line(&mut text, "__DERIVATION                 : ", &self.__DERIVATION);
        push_text_line(&mut text, "__DYNASTY                    : ", &self.__DYNASTY);
        push_i32_line(&mut text, "__GENUS                      : ", &self.__GENUS);
        push_text_line(&mut text, "__NAMESPACE                  : ", &self.__NAMESPACE);
        push_text_line(&mut text, "__PATH                       : ", &self.__PATH);
        push_i32_line(&mut text, "__PROPERTY_COUNT             : ", &self.__PROPERTY_COUNT);
        push_text_line(&mut text, "__RELPATH                    : ", &self.__RELPATH);
        push_text_line(&mut text, "__SERVER                     : ", &self.__SERVER);
        push_text_line(&mut text, "__SUPERCLASS                 : ", &self.__SUPERCLASS);
        text
    }
}

} // verus!
