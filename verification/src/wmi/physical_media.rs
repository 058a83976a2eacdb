//! Records of the class `Win32_PhysicalMedia`: a piece of physical media.

use crate::wmi::{
    bool_line, i32_line, list_line, push_bool_line, push_i32_line, push_list_line,
    push_text_line, push_u64_line, text_line, u64_line,
};
use vstd::prelude::*;
use vstd::string::*;

verus! {

/// One instance of `Win32_PhysicalMedia`.
#[allow(non_snake_case)]
#[derive(Debug, Clone, PartialEq, Eq, Hash)]
pub struct Win32PhysicalMedia {
    /// The `Capacity` property specifies the capacity of the physical media in
    /// bytes.
    pub Capacity: Option<u64>,
    /// The `Caption` property provides a short textual description of the
    /// physical media.
    pub Caption: Option<String>,
    /// The `CleanerMedia` property indicates if the physical media is a cleaner
    /// media.
    pub CleanerMedia: Option<bool>,
    /// The `CreationClassName` property specifies the name of the class or
    /// subclass used to create the media.
    pub CreationClassName: Option<String>,
    /// The `Description` property contains a description of the physical media.
    pub Description: Option<String>,
    /// The `HotSwappable` property indicates whether the media is hot
    /// swappable.
    pub HotSwappable: Option<bool>,
    /// The `InstallDate` property specifies the installation date of the
    /// physical media.
    pub InstallDate: Option<String>,
    /// The `Manufacturer` property specifies the manufacturer of the physical
    /// media.
    pub Manufacturer: Option<String>,
    /// The `MediaDescription` property contains a description of the media
    /// type.
    pub MediaDescription: Option<String>,
    /// The `MediaType` property specifies the type of the physical media (e.g.,
    /// "Fixed Disk").
    pub MediaType: Option<String>,
    /// The `Model` property contains the model name of the physical media.
    pub Model: Option<String>,
    /// The `Name` property specifies the name of the physical media.
    pub Name: Option<String>,
    /// The `OtherIdentifyingInfo` property provides additional identifying
    /// information about the physical media.
    pub OtherIdentifyingInfo: Option<String>,
    /// The `PartNumber` property specifies the part number for the physical
    /// media.
    pub PartNumber: Option<String>,
    /// The `PoweredOn` property indicates whether the physical media is
    /// currently powered on.
    pub PoweredOn: Option<bool>,
    /// The `Removable` property specifies whether the physical media is
    /// removable.
    pub Removable: Option<bool>,
    /// The `Replaceable` property indicates whether the physical media is
    /// replaceable.
    pub Replaceable: Option<bool>,
    /// The `SerialNumber` property contains the serial number of the physical
    /// media.
    pub SerialNumber: Option<String>,
    /// The `SKU` property specifies the stock-keeping unit for the physical
    /// media.
    pub SKU: Option<String>,
    /// The `Status` property contains the current status of the physical media.
    pub Status: Option<String>,
    /// The `Tag` property contains a unique identifier for the physical media,
    /// often corresponding to the device path.
    pub Tag: Option<String>,
    /// The `Version` property specifies the version of the physical media.
    pub Version: Option<String>,
    /// The `WriteProtectOn` property indicates whether the physical media is
    /// write-protected.
    pub WriteProtectOn: Option<bool>,
    /// The `__CLASS` property specifies the WMI class of the object.
    pub __CLASS: Option<String>,
    /// The `__DERIVATION` property contains the inheritance hierarchy of the
    /// WMI class.
    pub __DERIVATION: Option<Vec<String>>,
    /// The `__DYNASTY` property specifies the root class in the inheritance
    /// hierarchy.
    pub __DYNASTY: Option<String>,
    /// The `__GENUS` property is an internal classification value used by WMI.
    pub __GENUS: Option<i32>,
    /// The `__NAMESPACE` property specifies the WMI namespace where the object
    /// resides.
    pub __NAMESPACE: Option<String>,
    /// The `__PATH` property contains the full WMI path to the object.
    pub __PATH: Option<String>,
    /// The `__PROPERTY_COUNT` property indicates the number of properties in
    /// the object.
    pub __PROPERTY_COUNT: Option<i32>,
    /// The `__RELPATH` property specifies the relative path to the object
    /// within the WMI namespace.
    pub __RELPATH: Option<String>,
    /// The `__SERVER` property specifies the name of the server where the WMI
    /// object resides.
    pub __SERVER: Option<String>,
    /// The `__SUPERCLASS` property contains the immediate superclass of the WMI
    /// class.
    pub __SUPERCLASS: Option<String>,
}

#[allow(non_snake_case)]
impl Win32PhysicalMedia {
    /// The namespace of the service that holds the class.
    pub const NAMESPACE: &'static str = "ROOT\\CIMv2";

    /// The query that asks for all instances of the class.
    pub const QUERY: &'static str = "SELECT * FROM Win32_PhysicalMedia";

    /// The description of the record: one line for each of the properties
    /// shown that has a value, in this order.
    pub open spec fn display_text(&self) -> Seq<char> {
        text_line("Caption                      : "@, self.Caption)
        + text_line("Description                  : "@, self.Description)
        + text_line("SerialNumber                 : "@, self.SerialNumber)
        + text_line("MediaType                    : "@, self.MediaType)
        + u64_line("Capacity                     : "@, self.Capacity)
        + text_line("Tag                          : "@, self.Tag)
        + text_line("Manufacturer                 : "@, self.Manufacturer)
        + text_line("Model                        : "@, self.Model)
        + text_line("PartNumber                   : "@, self.PartNumber)
        + text_line("Status                       : "@, self.Status)
        + bool_line("PoweredOn                    : "@, self.PoweredOn)
        + bool_line("Removable                    : "@, self.Removable)
        + bool_line("Replaceable                  : "@, self.Replaceable)
        + bool_line("WriteProtectOn               : "@, self.WriteProtectOn)
        + text_line("__CLASS                      : "@, self.__CLASS)
        + list_line("__DERIVATION                 : "@, self.__DERIVATION)
        + text_line("__DYNASTY                    : "@, self.__DYNASTY)
        + i32_line("__GENUS                      : "@, self.__GENUS)
        + text_line("__NAMESPACE                  : "@, self.__NAMESPACE)
        + text_line("__PATH                       : "@, self.__PATH)
        + i32_line("__PROPERTY_COUNT             : "@, self.__PROPERTY_COUNT)
        + text_line("__RELPATH                    : "@, self.__RELPATH)
        + text_line("__SERVER                     : "@, self.__SERVER)
        + text_line("__SUPERCLASS                 : "@, self.__SUPERCLASS)
    }

    /// Describes the record in lines of text; a property without a value
    /// has no line.
    pub fn to_string(&self) -> (text: String)
        ensures
            text@ == self.display_text(),
    {
        let mut text = String::new();
        push_text_line(&mut text, "Caption                      : ", &self.Caption);
        assert(text@ =~= text_line("Caption                      : "@, self.Caption));
        push_text_line(&mut text, "Description                  : ", &self.Description);
        push_text_line(&mut text, "SerialNumber                 : ", &self.SerialNumber);
        push_text_line(&mut text, "MediaType                    : ", &self.MediaType);
        push_u64_line(&mut text, "Capacity                     : ", &self.Capacity);
        push_text_line(&mut text, "Tag                          : ", &self.Tag);
        push_text_line(&mut text, "Manufacturer                 : ", &self.Manufacturer);
        push_text_line(&mut text, "Model                        : ", &self.Model);
        push_text_line(&mut text, "PartNumber                   : ", &self.PartNumber);
        push_text_line(&mut text, "Status                       : ", &self.Status);
        push_bool_line(&mut text, "PoweredOn                    : ", &self.PoweredOn);
        push_bool_line(&mut text, "Removable                    : ", &self.Removable);
        push_bool_line(&mut text, "Replaceable                  : ", &self.Replaceable);
        push_bool_line(&mut text, "WriteProtectOn               : ", &self.WriteProtectOn);
        push_text_line(&mut text, "__CLASS                      : ", &self.__CLASS);
        push_list_line(&mut text, "__DERIVATION                 : ", &self.__DERIVATION);
        push_text_line(&mut text, "__DYNASTY                    : ", &self.__DYNASTY);
        push_i32_line(&mut text, "__GENUS                      : ", &self.__GENUS);
        push_text_line(&mut text, "__NAMESPACE                  : ", &self.__NAMESPACE);
        push_text_line(&mut text, "__PATH                       : ", &self.__PATH);
        push_i32_line(&mut text, "__PROPERTY_COUNT             : ", &self.__PROPERTY_COUNT);
        push_text_line(&mut text, "__RELPATH                    : ", &self.__RELPATH);
        push_text_line(&mut text, "__SERVER                     : ", &self.__SERVER);
        push_text_line(&mut text, "__SUPERCLASS                 : ", &self.__SUPERCLASS);
        text
    }
}

} // verus!
