//! Records of the class `MSFT_Partition`: a partition as the storage management sees it.

use crate::wmi::{
    bool_line, i32_line, list_line, push_bool_line, push_i32_line, push_list_line,
    push_text_line, push_u16_line, push_u32_line, push_u64_line, text_line, u16_line, u32_line,
    u64_line,
};
use vstd::prelude::*;
use vstd::string::*;

verus! {

/// One instance of `MSFT_Partition`.
#[allow(non_snake_case)]
#[derive(Debug, Clone, PartialEq, Eq, Hash)]
pub struct MSFTPartition {
    /// The `AccessPaths` property contains the access paths to the partition.
    pub AccessPaths: Option<Vec<String>>,
    /// The `DiskId` property contains the ID of the disk on which the partition
    /// resides.
    pub DiskId: Option<String>,
    /// The `DiskNumber` property indicates the disk number of the partition.
    pub DiskNumber: Option<u32>,
    /// The `DriveLetter` property contains the drive letter assigned to the
    /// partition.
    pub DriveLetter: Option<String>,
    /// The `GptType` property contains the GPT partition type GUID.
    pub GptType: Option<String>,
    /// The `Guid` property contains the GUID of the partition.
    pub Guid: Option<String>,
    /// The `IsActive` property indicates whether the partition is active.
    pub IsActive: Option<bool>,
    /// The `IsBoot` property indicates whether the partition is a boot
    /// partition.
    pub IsBoot: Option<bool>,
    /// The `IsDAX` property indicates whether the partition is a DAX partition.
    pub IsDAX: Option<bool>,
    /// The `IsHidden` property indicates whether the partition is hidden.
    pub IsHidden: Option<bool>,
    /// The `IsOffline` property indicates whether the partition is offline.
    pub IsOffline: Option<bool>,
    /// The `IsReadOnly` property indicates whether the partition is read-only.
    pub IsReadOnly: Option<bool>,
    /// The `IsShadowCopy` property indicates whether the partition is a shadow
    /// copy.
    pub IsShadowCopy: Option<bool>,
    /// The `IsSystem` property indicates whether the partition is a system
    /// partition.
    pub IsSystem: Option<bool>,
    /// The `MbrType` property contains the MBR partition type.
    pub MbrType: Option<u32>,
    /// The `NoDefaultDriveLetter` property indicates whether the partition has
    /// no default drive letter.
    pub NoDefaultDriveLetter: Option<bool>,
    /// The `ObjectId` property contains the unique identifier for the partition
    /// object.
    pub ObjectId: Option<String>,
    /// The `Offset` property indicates the offset of the partition in bytes.
    pub Offset: Option<u64>,
    /// The `OperationalStatus` property indicates the operational status of the
    /// partition.
    pub OperationalStatus: Option<u16>,
    /// The `PartitionNumber` property indicates the partition number.
    pub PartitionNumber: Option<u32>,
    /// The `PassThroughClass` property indicates a pass-through class.
    pub PassThroughClass: Option<String>,
    /// The `PassThroughIds` property contains pass-through IDs.
    pub PassThroughIds: Option<String>,
    /// The `PassThroughNamespace` property contains a pass-through namespace.
    pub PassThroughNamespace: Option<String>,
    /// The `PassThroughServer` property contains a pass-through server.
    pub PassThroughServer: Option<String>,
    /// The `Size` property contains the size of the partition in bytes.
    pub Size: Option<u64>,
    /// The `TransitionState` property indicates the transition state of the
    /// partition.
    pub TransitionState: Option<u16>,
    /// The `UniqueId` property contains the unique identifier for the
    /// partition.
    pub UniqueId: Option<String>,
    /// The `__CLASS` property specifies the WMI class of the object.
    pub __CLASS: Option<String>,
    /// The `__DERIVATION` property contains the inheritance hierarchy of the
    /// WMI class.
    pub __DERIVATION: Option<Vec<String>>,
    /// The `__DYNASTY` property specifies the root class in the inheritance
    /// hierarchy.
    pub __DYNASTY: Option<String>,
    /// The `__GENUS` property is an internal classification value used by WMI.
    pub __GENUS: Option<i32>,
    /// The `__NAMESPACE` property specifies the WMI namespace where the object
    /// resides.
    pub __NAMESPACE: Option<String>,
    /// The `__PATH` property contains the full WMI path to the object.
    pub __PATH: Option<String>,
    /// The `__PROPERTY_COUNT` property indicates the number of properties in
    /// the object.
    pub __PROPERTY_COUNT: Option<i32>,
    /// The `__RELPATH` property specifies the relative path to the object
    /// within the WMI namespace.
    pub __RELPATH: Option<String>,
    /// The `__SERVER` property specifies the name of the server where the WMI
    /// object resides.
    pub __SERVER: Option<String>,
    /// The `__SUPERCLASS` property contains the immediate superclass of the WMI
    /// class.
    pub __SUPERCLASS: Option<String>,
}

#[allow(non_snake_case)]
impl MSFTPartition {
    /// The namespace of the service that holds the class.
    pub const NAMESPACE: &'static str = "ROOT\\Microsoft\\Windows\\Storage";

    /// The query that asks for all instances of the class.
    pub const QUERY: &'static str = "SELECT * FROM MSFT_Partition";

    /// The description of the record: one line for each of the properties
    /// shown that has a value, in this order.
    pub open spec fn display_text(&self) -> Seq<char> {
        list_line("AccessPaths             : "@, self.AccessPaths)
        + text_line("DiskId                  : "@, self.DiskId)
        + u32_line("DiskNumber              : "@, self.DiskNumber)
        + text_line("DriveLetter             : "@, self.DriveLetter)
        + text_line("GptType                 : "@, self.GptType)
        + text_line("Guid                    : "@, self.Guid)
        + bool_line("IsActive                : "@, self.IsActive)
        + bool_line("IsBoot                  : "@, self.IsBoot)
        + bool_line("IsDAX                   : "@, self.IsDAX)
        + bool_line("IsHidden                : "@, self.IsHidden)
        + bool_line("IsOffline               : "@, self.IsOffline)
        + bool_line("IsReadOnly              : "@, self.IsReadOnly)
        + bool_line("IsShadowCopy            : "@, self.IsShadowCopy)
        + bool_line("IsSystem                : "@, self.IsSystem)
        + u32_line("MbrType                 : "@, self.MbrType)
        + bool_line("NoDefaultDriveLetter    : "@, self.NoDefaultDriveLetter)
        + text_line("ObjectId                : "@, self.ObjectId)
        + u64_line("Offset                  : "@, self.Offset)
        + u16_line("OperationalStatus       : "@, self.OperationalStatus)
        + u32_line("PartitionNumber         : "@, self.PartitionNumber)
        + u64_line("Size                    : "@, self.Size)
        + u16_line("TransitionState         : "@, self.TransitionState)
        + text_line("UniqueId                : "@, self.UniqueId)
        + text_line("__CLASS                 : "@, self.__CLASS)
        + list_line("__DERIVATION            : "@, self.__DERIVATION)
        + text_line("__DYNASTY               : "@, self.__DYNASTY)
        + i32_line("__GENUS                 : "@, self.__GENUS)
        + text_line("__NAMESPACE             : "@, self.__NAMESPACE)
        + text_line("__PATH                  : "@, self.__PATH)
        + i32_line("__PROPERTY_COUNT        : "@, self.__PROPERTY_COUNT)
        + text_line("__SERVER                : "@, self.__SERVER)
        + text_line("__SUPERCLASS            : "@, self.__SUPERCLASS)
    }

    /// Describes the record in lines of text; a property without a value
    /// has no line.
    pub fn to_string(&self) -> (text: String)
        ensures
            text@ == self.display_text(),
    {
        let mut text = String::new();
        push_list_line(&mut text, "AccessPaths             : ", &self.AccessPaths);
        assert(text@ =~= list_line("AccessPaths             : "@, self.AccessPaths));
        push_text_line(&mut text, "DiskId                  : ", &self.DiskId);
        push_u32_line(&mut text, "DiskNumber              : ", &self.DiskNumber);
        push_text_line(&mut text, "DriveLetter             : ", &self.DriveLetter);
        push_text_line(&mut text, "GptType                 : ", &self.GptType);
        push_text_line(&mut text, "Guid                    : ", &self.Guid);
        push_bool_line(&mut text, "IsActive                : ", &self.IsActive);
        push_bool_line(&mut text, "IsBoot                  : ", &self.IsBoot);
        push_bool_line(&mut text, "IsDAX                   : ", &self.IsDAX);
        push_bool_line(&mut text, "IsHidden                : ", &self.IsHidden);
        push_bool_line(&mut text, "IsOffline               : ", &self.IsOffline);
        push_bool_line(&mut text, "IsReadOnly              : ", &self.IsReadOnly);
        push_bool_line(&mut text, "IsShadowCopy            : ", &self.IsShadowCopy);
        push_bool_line(&mut text, "IsSystem                : ", &self.IsSystem);
        push_u32_line(&mut text, "MbrType                 : ", &self.MbrType);
        push_bool_line(&mut text, "NoDefaultDriveLetter    : ", &self.NoDefaultDriveLetter);
        push_text_line(&mut text, "ObjectId                : ", &self.ObjectId);
        push_u64_line(&mut text, "Offset                  : ", &self.Offset);
        push_u16_line(&mut text, "OperationalStatus       : ", &self.OperationalStatus);
        push_u32_line(&mut text, "PartitionNumber         : ", &self.PartitionNumber);
        push_u64_line(&mut text, "Size                    : ", &self.Size);
        push_u16_line(&mut text, "TransitionState         : ", &self.TransitionState);
        push_text_line(&mut text, "UniqueId                : ", &self.UniqueId);
        push_text_line(&mut text, "__CLASS                 : ", &self.__CLASS);
        push_list_line(&mut text, "__DERIVATION            : ", &self.__DERIVATION);
        push_text_line(&mut text, "__DYNASTY               : ", &self.__DYNASTY);
        push_i32_line(&mut text, "__GENUS                 : ", &self.__GENUS);
        push_text_line(&mut text, "__NAMESPACE             : ", &self.__NAMESPACE);
        push_text_line(&mut text, "__PATH                  : ", &self.__PATH);
        push_i32_line(&mut text, "__PROPERTY_COUNT        : ", &self.__PROPERTY_COUNT);
        push_text_line(&mut text, "__SERVER                : ", &self.__SERVER);
        push_text_line(&mut text, "__SUPERCLASS            : ", &self.__SUPERCLASS);
        text
    }
}

} // verus!
