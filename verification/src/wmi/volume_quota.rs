//! Records of the class `Win32_VolumeQuota`: the link between a volume and its quota settings.

use crate::wmi::{
    i32_line, line, list_line, push_i32_line, push_line, push_list_line, push_text_line,
    text_line,
};
use vstd::prelude::*;
use vstd::string::*;

verus! {

/// One instance of `Win32_VolumeQuota`.
#[allow(non_snake_case)]
#[derive(Debug, Clone, PartialEq, Eq, Hash)]
pub struct Win32VolumeQuota {
    /// The `Element` property contains the WMI path to the associated volume,
    /// such as `Win32_Volume.DeviceID="\\\\?\\Volume{GUID}\\"`.
    pub Element: String,
    /// The `Setting` property contains the WMI path to the associated quota
    /// setting, such as `Win32_QuotaSetting.VolumePath="F:\\"`.
    pub Setting: String,
    /// The `__CLASS` property specifies the WMI class of the object.
    pub __CLASS: Option<String>,
    /// The `__DERIVATION` property contains the inheritance hierarchy of the
    /// WMI class.
    pub __DERIVATION: Option<Vec<String>>,
    /// The `__DYNASTY` property specifies the root class in the inheritance
    /// hierarchy.
    pub __DYNASTY: Option<String>,
    /// The `__GENUS` property is an internal classification value used by WMI.
    pub __GENUS: Option<i32>,
    /// The `__NAMESPACE` property specifies the WMI namespace where the object
    /// resides.
    pub __NAMESPACE: Option<String>,
    /// The `__PATH` property contains the full WMI path to the object.
    pub __PATH: Option<String>,
    /// The `__PROPERTY_COUNT` property indicates the number of properties in
    /// the object.
    pub __PROPERTY_COUNT: Option<i32>,
    /// The `__RELPATH` property specifies the relative path to the object
    /// within the WMI namespace.
    pub __RELPATH: Option<String>,
    /// The `__SERVER` property specifies the name of the server where the WMI
    /// object resides.
    pub __SERVER: Option<String>,
    /// The `__SUPERCLASS` property contains the immediate superclass of the WMI
    /// class.
    pub __SUPERCLASS: Option<String>,
}

#[allow(non_snake_case)]
impl Win32VolumeQuota {
    /// The namespace of the service that holds the class.
    pub const NAMESPACE: &'static str = "ROOT\\CIMv2";

    /// The query that asks for all instances of the class.
    pub const QUERY: &'static str = "SELECT * FROM Win32_VolumeQuota";

    /// The description of the record: one line for each of the properties
    /// shown that has a value, in this order.
    pub open spec fn display_text(&self) -> Seq<char> {
        line("Element          : "@, self.Element@)
        + line("Setting          : "@, self.Setting@)
        + text_line("__CLASS          : "@, self.__CLASS)
        + list_line("__DERIVATION     : "@, self.__DERIVATION)
        + text_line("__DYNASTY        : "@, self.__DYNASTY)
        + i32_line("__GENUS          : "@, self.__GENUS)
        + text_line("__NAMESPACE      : "@, self.__NAMESPACE)
        + text_line("__PATH           : "@, self.__PATH)
        + i32_line("__PROPERTY_COUNT : "@, self.__PROPERTY_COUNT)
        + text_line("__RELPATH        : "@, self.__RELPATH)
        + text_line("__SERVER         : "@, self.__SERVER)
        + text_line("__SUPERCLASS     : "@, self.__SUPERCLASS)
    }

    /// Describes the record in lines of text; a property without a value
    /// has no line.
    pub fn to_string(&self) -> (text: String)
        ensures
            text@ == self.display_text(),
    {
        let mut text = String::new();
        push_line(&mut text, "Element          : ", self.Element.as_str());
        assert(text@ =~= line("Element          : "@, self.Element@));
        push_line(&mut text, "Setting          : ", self.Setting.as_str());
        push_text_line(&mut text, "__CLASS          : ", &self.__CLASS);
        push_list_line(&mut text, "__DERIVATION     : ", &self.__DERIVATION);
        push_text_line(&mut text, "__DYNASTY        : ", &self.__DYNASTY);
        push_i32_line(&mut text, "__GENUS          : ", &self.__GENUS);
        push_text_line(&mut text, "__NAMESPACE      : ", &self.__NAMESPACE);
        push_text_line(&mut text, "__PATH           : ", &self.__PATH);
        push_i32_line(&mut text, "__PROPERTY_COUNT : ", &self.__PROPERTY_COUNT);
        push_text_line(&mut text, "__RELPATH        : ", &self.__RELPATH);
        push_text_line(&mut text, "__SERVER         : ", &self.__SERVER);
        push_text_line(&mut text, "__SUPERCLASS     : ", &self.__SUPERCLASS);
        text
    }
}

} // verus!
