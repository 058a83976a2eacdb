//! Records of the class `Win32_PerfFormattedData_PerfDisk_PhysicalDisk`: the
//! performance counters of a physical disk.

use crate::wmi::{
    i32_line, list_line, push_i32_line, push_list_line, push_text_line, push_u32_line,
    push_u64_line, text_line, u32_line, u64_line,
};
use vstd::prelude::*;
use vstd::string::*;

verus! {

/// One instance of `Win32_PerfFormattedData_PerfDisk_PhysicalDisk`.
#[allow(non_snake_case)]
#[derive(Debug, Clone, PartialEq, Eq, Hash)]
pub struct Win32PerfFormattedDataPerfDiskPhysicalDisk {
    /// The `AvgDiskBytesPerRead` property indicates the average bytes per read.
    pub AvgDiskBytesPerRead: Option<u64>,
    /// The `AvgDiskBytesPerTransfer` property indicates the average bytes per
    /// transfer.
    pub AvgDiskBytesPerTransfer: Option<u64>,
    /// The `AvgDiskBytesPerWrite` property indicates the average bytes per
    /// write.
    pub AvgDiskBytesPerWrite: Option<u64>,
    /// The `AvgDiskQueueLength` property indicates the average disk queue
    /// length.
    pub AvgDiskQueueLength: Option<u64>,
    /// The `AvgDiskReadQueueLength` property indicates the average read queue
    /// length.
    pub AvgDiskReadQueueLength: Option<u64>,
    /// The `AvgDisksecPerRead` property indicates the average seconds per read.
    pub AvgDisksecPerRead: Option<u32>,
    /// The `AvgDisksecPerTransfer` property indicates the average seconds per
    /// transfer.
    pub AvgDisksecPerTransfer: Option<u32>,
    /// The `AvgDisksecPerWrite` property indicates the average seconds per
    /// write.
    pub AvgDisksecPerWrite: Option<u32>,
    /// The `AvgDiskWriteQueueLength` property indicates the average write queue
    /// length.
    pub AvgDiskWriteQueueLength: Option<u64>,
    /// The `Caption` property provides a short textual description of the
    /// object.
    pub Caption: Option<String>,
    /// The `CurrentDiskQueueLength` property indicates the current disk queue
    /// length.
    pub CurrentDiskQueueLength: Option<u32>,
    /// The `Description` property contains a description of the object.
    pub Description: Option<String>,
    /// The `DiskBytesPersec` property indicates the number of bytes transferred
    /// per second.
    pub DiskBytesPersec: Option<u64>,
    /// The `DiskReadBytesPersec` property indicates the number of bytes read
    /// per second.
    pub DiskReadBytesPersec: Option<u64>,
    /// The `DiskReadsPersec` property indicates the number of read operations
    /// per second.
    pub DiskReadsPersec: Option<u32>,
    /// The `DiskTransfersPersec` property indicates the number of transfer
    /// operations per second.
    pub DiskTransfersPersec: Option<u32>,
    /// The `DiskWriteBytesPersec` property indicates the number of bytes
    /// written per second.
    pub DiskWriteBytesPersec: Option<u64>,
    /// The `DiskWritesPersec` property indicates the number of write operations
    /// per second.
    pub DiskWritesPersec: Option<u32>,
    /// The `Frequency_Object` property indicates the frequency of object
    /// updates.
    pub Frequency_Object: Option<u64>,
    /// The `Frequency_PerfTime` property indicates the frequency of performance
    /// counter updates.
    pub Frequency_PerfTime: Option<u64>,
    /// The `Frequency_Sys100NS` property indicates the frequency of system
    /// updates.
    pub Frequency_Sys100NS: Option<u64>,
    /// The `Name` property contains the name of the physical disk instance.
    pub Name: Option<String>,
    /// The `PercentDiskReadTime` property indicates the percentage of time
    /// spent on disk read operations.
    pub PercentDiskReadTime: Option<u64>,
    /// The `PercentDiskTime` property indicates the percentage of time spent on
    /// disk operations.
    pub PercentDiskTime: Option<u64>,
    /// The `PercentDiskWriteTime` property indicates the percentage of time
    /// spent on disk write operations.
    pub PercentDiskWriteTime: Option<u64>,
    /// The `PercentIdleTime` property indicates the percentage of time the disk
    /// was idle.
    pub PercentIdleTime: Option<u64>,
    /// The `SplitIOPerSec` property indicates the number of split I/O
    /// operations per second.
    pub SplitIOPerSec: Option<u32>,
    /// The `Timestamp_Object` property indicates the timestamp of the object.
    pub Timestamp_Object: Option<u64>,
    /// The `Timestamp_PerfTime` property indicates the timestamp of the
    /// performance data.
    pub Timestamp_PerfTime: Option<u64>,
    /// The `Timestamp_Sys100NS` property indicates the timestamp of the system
    /// updates.
    pub Timestamp_Sys100NS: Option<u64>,
    /// The `__CLASS` property specifies the WMI class of the object.
    pub __CLASS: Option<String>,
    /// The `__DERIVATION` property contains the inheritance hierarchy of the
    /// WMI class.
    pub __DERIVATION: Option<Vec<String>>,
    /// The `__DYNASTY` property specifies the root class in the inheritance
    /// hierarchy.
    pub __DYNASTY: Option<String>,
    /// The `__GENUS` property is an internal classification value used by WMI.
    pub __GENUS: Option<i32>,
    /// The `__NAMESPACE` property specifies the WMI namespace where the object
    /// resides.
    pub __NAMESPACE: Option<String>,
    /// The `__PATH` property contains the full WMI path to the object.
    pub __PATH: Option<String>,
    /// The `__PROPERTY_COUNT` property indicates the number of properties in
    /// the object.
    pub __PROPERTY_COUNT: Option<i32>,
    /// The `__RELPATH` property specifies the relative path to the object
    /// within the WMI namespace.
    pub __RELPATH: Option<String>,
    /// The `__SERVER` property specifies the name of the server where the WMI
    /// object resides.
    pub __SERVER: Option<String>,
    /// The `__SUPERCLASS` property contains the immediate superclass of the WMI
    /// class.
    pub __SUPERCLASS: Option<String>,
}

#[allow(non_snake_case)]
impl Win32PerfFormattedDataPerfDiskPhysicalDisk {
    /// The namespace of the service that holds the class.
    pub const NAMESPACE: &'static str = "ROOT\\CIMv2";

    /// The query that asks for all instances of the class.
    pub const QUERY: &'static str = "SELECT * FROM Win32_PerfFormattedData_PerfDisk_PhysicalDisk";

    /// The description of the record: one line for each of the properties
    /// shown that has a value, in this order.
    pub open spec fn display_text(&self) -> Seq<char> {
        text_line("Name                     : "@, self.Name)
        + u64_line("AvgDiskBytesPerRead      : "@, self.AvgDiskBytesPerRead)
        + u64_line("AvgDiskBytesPerTransfer  : "@, self.AvgDiskBytesPerTransfer)
        + u64_line("AvgDiskBytesPerWrite     : "@, self.AvgDiskBytesPerWrite)
        + u64_line("AvgDiskQueueLength       : "@, self.AvgDiskQueueLength)
        + u64_line("AvgDiskReadQueueLength   : "@, self.AvgDiskReadQueueLength)
        + u32_line("AvgDisksecPerRead        : "@, self.AvgDisksecPerRead)
        + u32_line("AvgDisksecPerTransfer    : "@, self.AvgDisksecPerTransfer)
        + u32_line("AvgDisksecPerWrite       : "@, self.AvgDisksecPerWrite)
        + u32_line("CurrentDiskQueueLength   : "@, self.CurrentDiskQueueLength)
        + u64_line("DiskBytesPersec          : "@, self.DiskBytesPersec)
        + u64_line("DiskReadBytesPersec      : "@, self.DiskReadBytesPersec)
        + u32_line("DiskReadsPersec          : "@, self.DiskReadsPersec)
        + u32_line("DiskTransfersPersec      : "@, self.DiskTransfersPersec)
        + u64_line("DiskWriteBytesPersec     : "@, self.DiskWriteBytesPersec)
        + u32_line("DiskWritesPersec         : "@, self.DiskWritesPersec)
        + u64_line("PercentDiskReadTime      : "@, self.PercentDiskReadTime)
        + u64_line("PercentDiskTime          : "@, self.PercentDiskTime)
        + u64_line("PercentDiskWriteTime     : "@, self.PercentDiskWriteTime)
        + u64_line("PercentIdleTime          : "@, self.PercentIdleTime)
        + u32_line("SplitIOPerSec            : "@, self.SplitIOPerSec)
        + text_line("__CLASS                  : "@, self.__CLASS)
        + list_line("__DERIVATION             : "@, self.__DERIVATION)
        + text_line("__DYNASTY                : "@, self.__DYNASTY)
        + i32_line("__GENUS                  : "@, self.__GENUS)
        + text_line("__NAMESPACE              : "@, self.__NAMESPACE)
        + text_line("__PATH                   : "@, self.__PATH)
        + i32_line("__PROPERTY_COUNT         : "@, self.__PROPERTY_COUNT)
        + text_line("__SERVER                 : "@, self.__SERVER)
        + text_line("__SUPERCLASS             : "@, self.__SUPERCLASS)
    }

    /// Describes the record in lines of text; a property without a value
    /// has no line.
    pub fn to_string(&self) -> (text: String)
        ensures
            text@ == self.display_text(),
    {
        let mut text = String::new();
        push_text_line(&mut text, "Name                     : ", &self.Name);
        assert(text@ =~= text_line("Name                     : "@, self.Name));
        push_u64_line(&mut text, "AvgDiskBytesPerRead      : ", &self.AvgDiskBytesPerRead);
        push_u64_line(&mut text, "AvgDiskBytesPerTransfer  : ", &self.AvgDiskBytesPerTransfer);
        push_u64_line(&mut text, "AvgDiskBytesPerWrite     : ", &self.AvgDiskBytesPerWrite);
        push_u64_line(&mut text, "AvgDiskQueueLength       : ", &self.AvgDiskQueueLength);
        push_u64_line(&mut text, "AvgDiskReadQueueLength   : ", &self.AvgDiskReadQueueLength);
        push_u32_line(&mut text, "AvgDisksecPerRead        : ", &self.AvgDisksecPerRead);
        push_u32_line(&mut text, "AvgDisksecPerTransfer    : ", &self.AvgDisksecPerTransfer);
        push_u32_line(&mut text, "AvgDisksecPerWrite       : ", &self.AvgDisksecPerWrite);
        push_u32_line(&mut text, "CurrentDiskQueueLength   : ", &self.CurrentDiskQueueLength);
        push_u64_line(&mut text, "DiskBytesPersec          : ", &self.DiskBytesPersec);
        push_u64_line(&mut text, "DiskReadBytesPersec      : ", &self.DiskReadBytesPersec);
        push_u32_line(&mut text, "DiskReadsPersec          : ", &self.DiskReadsPersec);
        push_u32_line(&mut text, "DiskTransfersPersec      : ", &self.DiskTransfersPersec);
        push_u64_line(&mut text, "DiskWriteBytesPersec     : ", &self.DiskWriteBytesPersec);
        push_u32_line(&mut text, "DiskWritesPersec         : ", &self.DiskWritesPersec);
        push_u64_line(&mut text, "PercentDiskReadTime      : ", &self.PercentDiskReadTime);
        push_u64_line(&mut text, "PercentDiskTime          : ", &self.PercentDiskTime);
        push_u64_line(&mut text, "PercentDiskWriteTime     : ", &self.PercentDiskWriteTime);
        push_u64_line(&mut text, "PercentIdleTime          : ", &self.PercentIdleTime);
        push_u32_line(&mut text, "SplitIOPerSec            : ", &self.SplitIOPerSec);
        push_text_line(&mut text, "__CLASS                  : ", &self.__CLASS);
        push_list_line(&mut text, "__DERIVATION             : ", &self.__DERIVATION);
        push_text_line(&mut text, "__DYNASTY                : ", &self.__DYNASTY);
        push_i32_line(&mut text, "__GENUS                  : ", &self.__GENUS);
        push_text_line(&mut text, "__NAMESPACE              : ", &self.__NAMESPACE);
        push_text_line(&mut text, "__PATH                   : ", &self.__PATH);
        push_i32_line(&mut text, "__PROPERTY_COUNT         : ", &self.__PROPERTY_COUNT);
        push_text_line(&mut text, "__SERVER                 : ", &self.__SERVER);
        push_text_line(&mut text, "__SUPERCLASS             : ", &self.__SUPERCLASS);
        text
    }
}

} // verus!
