//! Records of the class `Win32_ShadowCopy`: a shadow copy of a volume.

use crate::wmi::{
    bool_line, i32_line, list_line, push_bool_line, push_i32_line, push_list_line,
    push_text_line, push_u32_line, text_line, u32_line,
};
use vstd::prelude::*;
use vstd::string::*;

verus! {

/// One instance of `Win32_ShadowCopy`.
#[allow(non_snake_case)]
#[derive(Debug, Clone, PartialEq, Eq, Hash)]
pub struct Win32ShadowCopy {
    /// The `Caption` property provides a short textual description of the
    /// shadow copy.
    pub Caption: Option<String>,
    /// The `ClientAccessible` property indicates whether the shadow copy is
    /// accessible by clients.
    pub ClientAccessible: Option<bool>,
    /// The `Count` property represents the count of shadow copies.
    pub Count: Option<u32>,
    /// The `Description` property contains a description of the shadow copy.
    pub Description: Option<String>,
    /// The `DeviceObject` property specifies the device object path.
    pub DeviceObject: Option<String>,
    /// The `Differential` property indicates if the shadow copy is
    /// differential.
    pub Differential: Option<bool>,
    /// The `ExposedLocally` property specifies if the shadow copy is exposed
    /// locally.
    pub ExposedLocally: Option<bool>,
    /// The `ExposedName` property contains the exposed name for the shadow
    /// copy.
    pub ExposedName: Option<String>,
    /// The `ExposedPath` property contains the exposed path for the shadow
    /// copy.
    pub ExposedPath: Option<String>,
    /// The `ExposedRemotely` property indicates if the shadow copy is exposed
    /// remotely.
    pub ExposedRemotely: Option<bool>,
    /// The `HardwareAssisted` property indicates if the shadow copy is
    /// hardware-assisted.
    pub HardwareAssisted: Option<bool>,
    /// The `ID` property contains the unique identifier for the shadow copy.
    pub ID: Option<String>,
    /// The `Imported` property indicates if the shadow copy was imported.
    pub Imported: Option<bool>,
    /// The `InstallDate` property specifies the installation date of the shadow
    /// copy.
    pub InstallDate: Option<String>,
    /// The `Name` property contains the name of the shadow copy.
    pub Name: Option<String>,
    /// The `NoAutoRelease` property indicates if the shadow copy is not
    /// automatically released.
    pub NoAutoRelease: Option<bool>,
    /// The `NotSurfaced` property indicates if the shadow copy is not surfaced.
    pub NotSurfaced: Option<bool>,
    /// The `NoWriters` property specifies if there are no writers for the
    /// shadow copy.
    pub NoWriters: Option<bool>,
    /// The `OriginatingMachine` property contains the originating machine name.
    pub OriginatingMachine: Option<String>,
    /// The `Persistent` property specifies if the shadow copy is persistent.
    pub Persistent: Option<bool>,
    /// The `Plex` property indicates if the shadow copy is plex.
    pub Plex: Option<bool>,
    /// The `ProviderID` property contains the provider ID of the shadow copy.
    pub ProviderID: Option<String>,
    /// The `ServiceMachine` property contains the service machine name.
    pub ServiceMachine: Option<String>,
    /// The `SetID` property contains the set ID of the shadow copy.
    pub SetID: Option<String>,
    /// The `State` property indicates the state of the shadow copy.
    pub State: Option<u32>,
    /// The `Status` property contains the status of the shadow copy.
    pub Status: Option<String>,
    /// The `Transportable` property indicates if the shadow copy is
    /// transportable.
    pub Transportable: Option<bool>,
    /// The `VolumeName` property contains the volume name associated with the
    /// shadow copy.
    pub VolumeName: Option<String>,
    /// The `__CLASS` property specifies the WMI class of the object.
    pub __CLASS: Option<String>,
    /// The `__DERIVATION` property contains the inheritance hierarchy of the
    /// WMI class.
    pub __DERIVATION: Option<Vec<String>>,
    /// The `__DYNASTY` property specifies the root class in the inheritance
    /// hierarchy.
    pub __DYNASTY: Option<String>,
    /// The `__GENUS` property is an internal classification value used by WMI.
    pub __GENUS: Option<i32>,
    /// The `__NAMESPACE` property specifies the WMI namespace where the object
    /// resides.
    pub __NAMESPACE: Option<String>,
    /// The `__PATH` property contains the full WMI path to the object.
    pub __PATH: Option<String>,
    /// The `__PROPERTY_COUNT` property indicates the number of properties in
    /// the object.
    pub __PROPERTY_COUNT: Option<i32>,
    /// The `__RELPATH` property specifies the relative path to the object
    /// within the WMI namespace.
    pub __RELPATH: Option<String>,
    /// The `__SERVER` property specifies the name of the server where the WMI
    /// object resides.
    pub __SERVER: Option<String>,
    /// The `__SUPERCLASS` property contains the immediate superclass of the WMI
    /// class.
    pub __SUPERCLASS: Option<String>,
}

#[allow(non_snake_case)]
impl Win32ShadowCopy {
    /// The namespace of the service that holds the class.
    pub const NAMESPACE: &'static str = "ROOT\\CIMv2";

    /// The query that asks for all instances of the class.
    pub const QUERY: &'static str = "SELECT * FROM Win32_ShadowCopy";

    /// The description of the record: one line for each of the properties
    /// shown that has a value, in this order.
    pub open spec fn display_text(&self) -> Seq<char> {
        text_line("Caption               : "@, self.Caption)
        + bool_line("ClientAccessible      : "@, self.ClientAccessible)
        + u32_line("Count                 : "@, self.Count)
        + text_line("Description           : "@, self.Description)
        + text_line("DeviceObject          : "@, self.DeviceObject)
        + bool_line("Differential          : "@, self.Differential)
        + bool_line("ExposedLocally        : "@, self.ExposedLocally)
        + text_line("ExposedName           : "@, self.ExposedName)
        + text_line("ExposedPath           : "@, self.ExposedPath)
        + bool_line("ExposedRemotely       : "@, self.ExposedRemotely)
        + bool_line("HardwareAssisted      : "@, self.HardwareAssisted)
        + text_line("ID                    : "@, self.ID)
        + bool_line("Imported              : "@, self.Imported)
        + text_line("InstallDate           : "@, self.InstallDate)
        + text_line("Name                  : "@, self.Name)
        + bool_line("NoAutoRelease         : "@, self.NoAutoRelease)
        + bool_line("NotSurfaced           : "@, self.NotSurfaced)
        + bool_line("NoWriters             : "@, self.NoWriters)
        + text_line("OriginatingMachine    : "@, self.OriginatingMachine)
        + bool_line("Persistent            : "@, self.Persistent)
        + bool_line("Plex                  : "@, self.Plex)
        + text_line("ProviderID            : "@, self.ProviderID)
        + text_line("ServiceMachine        : "@, self.ServiceMachine)
        + text_line("SetID                 : "@, self.SetID)
        + u32_line("State                 : "@, self.State)
        + text_line("Status                : "@, self.Status)
        + bool_line("Transportable         : "@, self.Transportable)
        + text_line("VolumeName            : "@, self.VolumeName)
        + text_line("__CLASS               : "@, self.__CLASS)
        + list_line("__DERIVATION          : "@, self.__DERIVATION)
        + text_line("__DYNASTY             : "@, self.__DYNASTY)
        + i32_line("__GENUS               : "@, self.__GENUS)
        + text_line("__NAMESPACE           : "@, self.__NAMESPACE)
        + text_line("__PATH                : "@, self.__PATH)
        + i32_line("__PROPERTY_COUNT      : "@, self.__PROPERTY_COUNT)
        + text_line("__RELPATH             : "@, self.__RELPATH)
        + text_line("__SERVER              : "@, self.__SERVER)
        + text_line("__SUPERCLASS          : "@, self.__SUPERCLASS)
    }

    /// Describes the record in lines of text; a property without a value
    /// has no line.
    pub fn to_string(&self) -> (text: String)
        ensures
            text@ == self.display_text(),
    {
        let mut text = String::new();
        push_text_line(&mut text, "Caption               : ", &self.Caption);
        assert(text@ =~= text_line("Caption               : "@, self.Caption));
        push_bool_line(&mut text, "ClientAccessible      : ", &self.ClientAccessible);
        push_u32_line(&mut text, "Count                 : ", &self.Count);
        push_text_line(&mut text, "Description           : ", &self.Description);
        push_text_line(&mut text, "DeviceObject          : ", &self.DeviceObject);
        push_bool_line(&mut text, "Differential          : ", &self.Differential);
        push_bool_line(&mut text, "ExposedLocally        : ", &self.ExposedLocally);
        push_text_line(&mut text, "ExposedName           : ", &self.ExposedName);
        push_text_line(&mut text, "ExposedPath           : ", &self.ExposedPath);
        push_bool_line(&mut text, "ExposedRemotely       : ", &self.ExposedRemotely);
        push_bool_line(&mut text, "HardwareAssisted      : ", &self.HardwareAssisted);
        push_text_line(&mut text, "ID                    : ", &self.ID);
        push_bool_line(&mut text, "Imported              : ", &self.Imported);
        push_text_line(&mut text, "InstallDate           : ", &self.InstallDate);
        push_text_line(&mut text, "Name                  : ", &self.Name);
        push_bool_line(&mut text, "NoAutoRelease         : ", &self.NoAutoRelease);
        push_bool_line(&mut text, "NotSurfaced           : ", &self.NotSurfaced);
        push_bool_line(&mut text, "NoWriters             : ", &self.NoWriters);
        push_text_line(&mut text, "OriginatingMachine    : ", &self.OriginatingMachine);
        push_bool_line(&mut text, "Persistent            : ", &self.Persistent);
        push_bool_line(&mut text, "Plex                  : ", &self.Plex);
        push_text_line(&mut text, "ProviderID            : ", &self.ProviderID);
        push_text_line(&mut text, "ServiceMachine        : ", &self.ServiceMachine);
        push_text_line(&mut text, "SetID                 : ", &self.SetID);
        push_u32_line(&mut text, "State                 : ", &self.State);
        push_text_line(&mut text, "Status                : ", &self.Status);
        push_bool_line(&mut text, "Transportable         : ", &self.Transportable);
        push_text_line(&mut text, "VolumeName            : ", &self.VolumeName);
        push_text_line(&mut text, "__CLASS               : ", &self.__CLASS);
        push_list_line(&mut text, "__DERIVATION          : ", &self.__DERIVATION);
        push_text_line(&mut text, "__DYNASTY             : ", &self.__DYNASTY);
        push_i32_line(&mut text, "__GENUS               : ", &self.__GENUS);
        push_text_line(&mut text, "__NAMESPACE           : ", &self.__NAMESPACE);
        push_text_line(&mut text, "__PATH                : ", &self.__PATH);
        push_i32_line(&mut text, "__PROPERTY_COUNT      : ", &self.__PROPERTY_COUNT);
        push_text_line(&mut text, "__RELPATH             : ", &self.__RELPATH);
        push_text_line(&mut text, "__SERVER              : ", &self.__SERVER);
        push_text_line(&mut text, "__SUPERCLASS          : ", &self.__SUPERCLASS);
        text
    }
}

} // verus!
