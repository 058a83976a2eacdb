//! Records of the class `Win32_LogicalDisk`: a logical disk.

use crate::wmi::{
    i32_line, line, list_line, push_i32_line, push_line, push_list_line, push_text_line,
    push_u32_line, push_u64_line, text_line, u32_line, u64_line,
};
use vstd::prelude::*;
use vstd::string::*;

verus! {

/// One instance of `Win32_LogicalDisk`.
#[allow(non_snake_case)]
#[derive(Debug, Clone, PartialEq, Eq, Hash)]
pub struct Win32LogicalDisk {
    /// The `Caption` property provides a short textual description of the
    /// logical disk.
    pub Caption: Option<String>,
    /// The `Description` property provides a description of the logical disk.
    pub Description: Option<String>,
    /// The `DeviceID` property contains the unique identifier for the logical
    /// disk.
    pub DeviceID: String,
    /// The `DriveType` property indicates the type of disk drive (e.g., local
    /// disk, network drive).
    pub DriveType: Option<u32>,
    /// The `FileSystem` property specifies the file system used by the disk
    /// (e.g., NTFS, FAT32).
    pub FileSystem: Option<String>,
    /// The `FreeSpace` property indicates the available free space on the
    /// logical disk, in bytes.
    pub FreeSpace: Option<u64>,
    /// The `Size` property indicates the total size of the logical disk, in
    /// bytes.
    pub Size: Option<u64>,
    /// The `VolumeName` property contains the label of the volume.
    pub VolumeName: Option<String>,
    /// The `VolumeSerialNumber` property contains the serial number of the
    /// volume.
    pub VolumeSerialNumber: Option<String>,
    /// The `__CLASS` property specifies the WMI class of the object.
    pub __CLASS: Option<String>,
    /// The `__DERIVATION` property contains the inheritance hierarchy of the
    /// WMI class.
    pub __DERIVATION: Option<Vec<String>>,
    /// The `__DYNASTY` property specifies the root class in the inheritance
    /// hierarchy.
    pub __DYNASTY: Option<String>,
    /// The `__GENUS` property is an internal classification value used by WMI.
    pub __GENUS: Option<i32>,
    /// The `__NAMESPACE` property specifies the WMI namespace where the object
    /// resides.
    pub __NAMESPACE: Option<String>,
    /// The `__PATH` property contains the full WMI path to the object.
    pub __PATH: Option<String>,
    /// The `__PROPERTY_COUNT` property indicates the number of properties in
    /// the object.
    pub __PROPERTY_COUNT: Option<i32>,
    /// The `__RELPATH` property specifies the relative path to the object
    /// within the WMI namespace.
    pub __RELPATH: Option<String>,
    /// The `__SERVER` property specifies the name of the server where the WMI
    /// object resides.
    pub __SERVER: Option<String>,
    /// The `__SUPERCLASS` property contains the immediate superclass of the WMI
    /// class.
    pub __SUPERCLASS: Option<String>,
}

#[allow(non_snake_case)]
impl Win32LogicalDisk {
    /// The namespace of the service that holds the class.
    pub const NAMESPACE: &'static str = "ROOT\\CIMv2";

    /// The query that asks for all instances of the class.
    pub const QUERY: &'static str = "SELECT * FROM Win32_LogicalDisk";

    /// The description of the record: one line for each of the properties
    /// shown that has a value, in this order.
    pub open spec fn display_text(&self) -> Seq<char> {
        text_line("Caption                      : "@, self.Caption)
        + text_line("Description                  : "@, self.Description)
        + line("DeviceID                     : "@, self.DeviceID@)
        + u32_line("DriveType                    : "@, self.DriveType)
        + text_line("FileSystem                   : "@, self.FileSystem)
        + u64_line("FreeSpace                    : "@, self.FreeSpace)
        + u64_line("Size                         : "@, self.Size)
        + text_line("VolumeName                   : "@, self.VolumeName)
        + text_line("VolumeSerialNumber           : "@, self.VolumeSerialNumber)
        + text_line("__CLASS                      : "@, self.__CLASS)
        + list_line("__DERIVATION                 : "@, self.__DERIVATION)
        + text_line("__DYNASTY                    : "@, self.__DYNASTY)
        + i32_line("__GENUS                      : "@, self.__GENUS)
        + text_line("__NAMESPACE                  : "@, self.__NAMESPACE)
        + text_line("__PATH                       : "@, self.__PATH)
        + i32_line("__PROPERTY_COUNT             : "@, self.__PROPERTY_COUNT)
        + text_line("__RELPATH                    : "@, self.__RELPATH)
        + text_line("__SERVER                     : "@, self.__SERVER)
        + text_line("__SUPERCLASS                 : "@, self.__SUPERCLASS)
    }

    /// Describes the record in lines of text; a property without a value
    /// has no line.
    pub fn to_string(&self) -> (text: String)
        ensures
            text@ == self.display_text(),
    {
        let mut text = String::new();
        push_text_line(&mut text, "Caption                      : ", &self.Caption);
        assert(text@ =~= text_line("Caption                      : "@, self.Caption));
        push_text_line(&mut text, "Description                  : ", &self.Description);
        push_line(&mut text, "DeviceID                     : ", self.DeviceID.as_str());
        push_u32_line(&mut text, "DriveType                    : ", &self.DriveType);
        push_text_line(&mut text, "FileSystem                   : ", &self.FileSystem);
        push_u64_line(&mut text, "FreeSpace                    : ", &self.FreeSpace);
        push_u64_line(&mut text, "Size                         : ", &self.Size);
        push_text_line(&mut text, "VolumeName                   : ", &self.VolumeName);
        push_text_line(&mut text, "VolumeSerialNumber           : ", &self.VolumeSerialNumber);
        push_text_line(&mut text, "__CLASS                      : ", &self.__CLASS);
        push_list_line(&mut text, "__DERIVATION                 : ", &self.__DERIVATION);
        push_text_line(&mut text, "__DYNASTY                    : ", &self.__DYNASTY);
        push_i32_line(&mut text, "__GENUS                      : ", &self.__GENUS);
        push_text_line(&mut text, "__NAMESPACE                  : ", &self.__NAMESPACE);
        push_text_line(&mut text, "__PATH                       : ", &self.__PATH);
        push_i32_line(&mut text, "__PROPERTY_COUNT             : ", &self.__PROPERTY_COUNT);
        push_text_line(&mut text, "__RELPATH                    : ", &self.__RELPATH);
        push_text_line(&mut text, "__SERVER                     : ", &self.__SERVER);
        push_text_line(&mut text, "__SUPERCLASS                 : ", &self.__SUPERCLASS);
        text
    }
}

} // verus!
