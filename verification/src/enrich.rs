//! What the operating system adds to a volume. The facts come from lookups
//! that this library cannot make itself: it says which lookup a step needs,
//! the caller makes it, and the library puts the answer into the volume. A
//! lookup that fails costs the volume the field that it was for and nothing
//! else.

use crate::disk::{known_file_system, DriveInfo, FileSystemType};
use crate::scan::{
    find_value_before, find_word_after, parse_u64, parsed_u64, trim, trimmed, value_before,
    word_after,
};
use crate::text::{chars_of, string_of};
use crate::wmi::encryptable_volume::Win32EncryptableVolume;
use vstd::prelude::*;
use vstd::string::*;

verus! {

/// The text that UTF-16 code units stand for, with the replacement
/// character in place of every unit that is not part of a valid pair.
pub uninterp spec fn utf16_lossy_text(units: Seq<u16>) -> Seq<char>;

/// `String::from_utf16_lossy` of the standard library decodes UTF-16 code
/// units into a string and never fails: what is not valid becomes the
/// replacement character. The result depends on the units alone.
pub assume_specification[ String::from_utf16_lossy ](units: &[u16]) -> (text: String)
    ensures
        text@ == utf16_lossy_text(units@),
;

/// The operating systems whose facilities the library knows how to ask.
#[derive(Debug, Clone, Copy, PartialEq, Eq, Hash, Structural)]
pub enum Platform {
    Windows,
    Linux,
    MacOs,
}

/// One step of the enrichment of a volume.
#[derive(Debug, Clone, Copy, PartialEq, Eq, Hash, Structural)]
pub enum Step {
    /// Windows: the mount point is the root path.
    MountPoint,
    /// Windows: the name of the device object behind the drive letter.
    DosDeviceName,
    /// Windows: the path of the volume in the device namespace.
    DevicePath,
    /// Windows: whether the volume is encrypted.
    EncryptionStatus,
    /// Linux: the identifier of the file system.
    FilesystemUuid,
    /// Linux: the size of a sector of the device.
    SectorSize,
    /// Linux: the size of a logical block of the device.
    BlockSize,
    /// Linux: the serial number of the device.
    SerialNumber,
    /// macOS: the identifier of the volume and the serial number of the
    /// disk.
    DiskUtility,
}

/// What a step needs from the operating system.
#[derive(Debug, Clone, PartialEq, Eq, Hash)]
pub enum Request {
    /// Nothing: the step needs no lookup, or what its lookup would start
    /// from is not known.
    Nothing,
    /// The name of the device object behind a drive letter.
    QueryDosDevice(String),
    /// The protection status of the volume with this identifier path.
    QueryEncryption(String),
    /// The output of a program run with these arguments.
    RunCommand { program: String, arguments: Vec<String> },
    /// The contents of the file at this path.
    ReadFile(String),
}

/// A request with its texts as sequences of characters.
pub enum RequestView {
    Nothing,
    QueryDosDevice(Seq<char>),
    QueryEncryption(Seq<char>),
    RunCommand { program: Seq<char>, arguments: Seq<Seq<char>> },
    ReadFile(Seq<char>),
}

impl View for Request {
    type V = RequestView;

    open spec fn view(&self) -> RequestView {
        match self {
            Request::Nothing => RequestView::Nothing,
            Request::QueryDosDevice(letter) => RequestView::QueryDosDevice(letter@),
            Request::QueryEncryption(volume) => RequestView::QueryEncryption(volume@),
            Request::RunCommand { program, arguments } => RequestView::RunCommand {
                program: program@,
                arguments: Seq::new(arguments@.len(), |i: int| arguments@[i]@),
            },
            Request::ReadFile(path) => RequestView::ReadFile(path@),
        }
    }
}

/// What came of a lookup.
#[derive(Debug, Clone, PartialEq, Eq, Hash)]
pub enum Answer {
    /// The lookup failed, or there was nothing to look up.
    Failed,
    /// The output of a program or the contents of a file.
    Text(String),
    /// What the query for a device name left: how many code units the
    /// system says it wrote, zero standing for failure, and the buffer it
    /// wrote them to.
    DeviceBuffer { written: u32, buffer: Vec<u16> },
    /// A yes or a no.
    Flag(bool),
}

/// The steps of a platform, in the order in which they are taken.
pub open spec fn steps_of(platform: Platform) -> Seq<Step> {
    match platform {
        Platform::Windows => seq![
            Step::MountPoint,
            Step::DosDeviceName,
            Step::DevicePath,
            Step::EncryptionStatus,
        ],
        Platform::Linux => seq![
            Step::FilesystemUuid,
            Step::SectorSize,
            Step::BlockSize,
            Step::SerialNumber,
        ],
        Platform::MacOs => seq![Step::DiskUtility],
    }
}

/// The steps of a platform, in the order in which they are taken.
pub fn steps_for(platform: Platform) -> (steps: Vec<Step>)
    ensures
        steps@ == steps_of(platform),
{
    let mut steps: Vec<Step> = Vec::new();
    match platform {
        Platform::Windows => {
            steps.push(Step::MountPoint);
            steps.push(Step::DosDeviceName);
            steps.push(Step::DevicePath);
            steps.push(Step::EncryptionStatus);
        },
        Platform::Linux => {
            steps.push(Step::FilesystemUuid);
            steps.push(Step::SectorSize);
            steps.push(Step::BlockSize);
            steps.push(Step::SerialNumber);
        },
        Platform::MacOs => {
            steps.push(Step::DiskUtility);
        },
    }
    assert(steps@ =~= steps_of(platform));
    steps
}

/// The file below `/sys/block` that holds a property of a device.
pub open spec fn block_file(device: Seq<char>, property: Seq<char>) -> Seq<char> {
    "/sys/block/"@ + device + property
}

/// What `step` needs from the operating system for `drive`.
pub open spec fn requested(step: Step, drive: DriveInfo) -> RequestView {
    match step {
        Step::MountPoint => RequestView::Nothing,
        Step::DosDeviceName => match drive.drive_letter {
            Some(letter) => RequestView::QueryDosDevice(letter@),
            None => RequestView::Nothing,
        },
        Step::DevicePath => RequestView::Nothing,
        Step::EncryptionStatus => match drive.volume_guid_path {
            Some(volume) => RequestView::QueryEncryption(volume@),
            None => RequestView::Nothing,
        },
        Step::FilesystemUuid => RequestView::RunCommand {
            program: "blkid"@,
            arguments: seq![drive.root_path@],
        },
        Step::SectorSize => RequestView::ReadFile(
            block_file(drive.drive_name@, "/queue/hw_sector_size"@),
        ),
        Step::BlockSize => RequestView::ReadFile(
            block_file(drive.drive_name@, "/queue/logical_block_size"@),
        ),
        Step::SerialNumber => RequestView::ReadFile(
            block_file(drive.drive_name@, "/device/serial"@),
        ),
        Step::DiskUtility => RequestView::RunCommand {
            program: "diskutil"@,
            arguments: seq!["info"@, drive.root_path@],
        },
    }
}

fn read_block_file(device: &str, property: &str) -> (request: Request)
    ensures
        request@ == RequestView::ReadFile(block_file(device@, property@)),
{
    let mut path = String::from_str("/sys/block/");
    path.append(device);
    path.append(property);
    Request::ReadFile(path)
}

/// Says what `step` needs from the operating system for `drive`. The
/// lookup of the encryption status is asked for only where the identifier
/// path of the volume is known, and that of the device name only where
/// the drive letter is.
pub fn request_for(step: Step, drive: &DriveInfo) -> (request: Request)
    ensures
        request@ == requested(step, *drive),
{
    match step {
        Step::MountPoint => Request::Nothing,
        Step::DosDeviceName => match &drive.drive_letter {
            Some(letter) => Request::QueryDosDevice(String::from_str(letter.as_str())),
            None => Request::Nothing,
        },
        Step::DevicePath => Request::Nothing,
        Step::EncryptionStatus => match &drive.volume_guid_path {
            Some(volume) => Request::QueryEncryption(String::from_str(volume.as_str())),
            None => Request::Nothing,
        },
        Step::FilesystemUuid => {
            let mut arguments: Vec<String> = Vec::new();
            arguments.push(String::from_str(drive.root_path.as_str()));
            let request = Request::RunCommand { program: String::from_str("blkid"), arguments };
            assert(request@->RunCommand_arguments =~= seq![drive.root_path@]);
            request
        },
        Step::SectorSize => read_block_file(drive.drive_name.as_str(), "/queue/hw_sector_size"),
        Step::BlockSize => read_block_file(drive.drive_name.as_str(), "/queue/logical_block_size"),
        Step::SerialNumber => read_block_file(drive.drive_name.as_str(), "/device/serial"),
        Step::DiskUtility => {
            let mut arguments: Vec<String> = Vec::new();
            arguments.push(String::from_str("info"));
            arguments.push(String::from_str(drive.root_path.as_str()));
            let request = Request::RunCommand { program: String::from_str("diskutil"), arguments };
            assert(request@->RunCommand_arguments =~= seq!["info"@, drive.root_path@]);
            request
        },
    }
}

/// Records the file system of the volume under the family that its name
/// stands for. This never fails: a name that is not known is recorded as
/// `Unknown`, as it was given.
pub fn resolve_file_system(drive: &mut DriveInfo, file_system_name: &str)
    ensures
        *final(drive) == (DriveInfo {
            file_system_type: final(drive).file_system_type,
            ..*old(drive)
        }),
        final(drive).file_system_type matches Some(family) && match known_file_system(
            file_system_name@,
        ) {
            Some(known) => family == known,
            None => family matches FileSystemType::Unknown(kept) && kept@
                == file_system_name@,
        },
{
    drive.file_system_type = Some(FileSystemType::from_name(file_system_name));
}

/// The text without the `c`s at its end.
pub open spec fn without_trailing(text: Seq<char>, c: char) -> Seq<char>
    decreases text.len(),
{
    if text.len() > 0 && text.last() == c {
        without_trailing(text.drop_last(), c)
    } else {
        text
    }
}

/// The path in the device namespace of the volume mounted at
/// `mount_point`: the mount point without the backslashes at its end,
/// behind the token of the namespace. `C:\` gives `\\.\C:`.
pub open spec fn device_path_text(mount_point: Seq<char>) -> Seq<char> {
    "\\\\.\\"@ + without_trailing(mount_point, '\\')
}

/// Derives the path of a volume in the device namespace from its mount
/// point.
pub fn convert_to_device_path(mount_point: &str) -> (path: String)
    ensures
        path@ == device_path_text(mount_point@),
{
    let chars = chars_of(mount_point);
    let mut end = chars.len();
    assert(chars@.take(end as int) =~= chars@);
    while end > 0 && chars[end - 1] == '\\'
        invariant
            end <= chars.len(),
            without_trailing(chars@, '\\') == without_trailing(chars@.take(end as int), '\\'),
        decreases end,
    {
        assert(chars@.take(end as int).drop_last() =~= chars@.take(end - 1));
        end -= 1;
    }
    let kept = string_of(&chars, 0, end);
    String::from_str("\\\\.\\").concat(kept.as_str())
}

/// How many code units stand before the first zero; all of them where
/// there is no zero.
pub open spec fn units_before_zero(buffer: Seq<u16>) -> nat
    decreases buffer.len(),
{
    if buffer.len() > 0 && buffer[0] != 0 {
        1 + units_before_zero(buffer.drop_first())
    } else {
        0
    }
}

/// The device name in a buffer that the system has filled: the code units
/// before the first zero.
pub open spec fn device_name_units(buffer: Seq<u16>) -> Seq<u16> {
    buffer.take(units_before_zero(buffer) as int)
}

proof fn lemma_units_before_zero_bound(buffer: Seq<u16>)
    ensures
        units_before_zero(buffer) <= buffer.len(),
    decreases buffer.len(),
{
    if buffer.len() > 0 && buffer[0] != 0 {
        lemma_units_before_zero_bound(buffer.drop_first());
    }
}

/// Reads the device name out of what the query for it left. A count of
/// zero says that the query failed; then there is no name.
pub fn query_dos_device(written: u32, buffer: &Vec<u16>) -> (name: Option<Vec<u16>>)
    ensures
        written == 0 <==> name is None,
        name matches Some(units) ==> units@ == device_name_units(buffer@),
{
    if written == 0 {
        return None;
    }
    let mut units: Vec<u16> = Vec::new();
    let mut i: usize = 0;
    proof {
        lemma_units_before_zero_bound(buffer@);
        assert(buffer@.subrange(0, buffer@.len() as int) =~= buffer@);
    }
    while i < buffer.len() && buffer[i] != 0
        invariant
            i <= buffer.len(),
            units@ == buffer@.take(i as int),
            units_before_zero(buffer@) == i + units_before_zero(
                buffer@.subrange(i as int, buffer@.len() as int),
            ),
        decreases buffer.len() - i,
    {
        assert(buffer@.subrange(i as int, buffer@.len() as int).drop_first() =~= buffer@.subrange(
            i + 1,
            buffer@.len() as int,
        ));
        units.push(buffer[i]);
        assert(units@ =~= buffer@.take(i + 1));
        i += 1;
    }
    Some(units)
}

/// What the records of the volumes that can be encrypted say of the volume
/// with the identifier `device_id`: the first record with that identifier
/// decides, and the volume is protected where the protection status of
/// the record is 1. `None` where no record has the identifier, or the
/// record has no protection status.
pub open spec fn protection_status_of(
    volumes: Seq<Win32EncryptableVolume>,
    device_id: Seq<char>,
) -> Option<bool>
    decreases volumes.len(),
{
    if volumes.len() == 0 {
        None
    } else if volumes[0].DeviceID@ == device_id {
        match volumes[0].ProtectionStatus {
            Some(status) => Some(status == 1),
            None => None,
        }
    } else {
        protection_status_of(volumes.drop_first(), device_id)
    }
}

/// Reads the encryption status of the volume with the identifier
/// `device_id` out of the records of the volumes that can be encrypted.
pub fn is_bitlocker_encrypted(volumes: &Vec<Win32EncryptableVolume>, device_id: &str) -> (protected:
    Option<bool>)
    ensures
        protected == protection_status_of(volumes@, device_id@),
{
    let mut i: usize = 0;
    assert(volumes@.subrange(0, volumes@.len() as int) =~= volumes@);
    while i < volumes.len()
        invariant
            i <= volumes.len(),
            protection_status_of(volumes@, device_id@) == protection_status_of(
                volumes@.subrange(i as int, volumes@.len() as int),
                device_id@,
            ),
        decreases volumes.len() - i,
    {
        let ghost rest = volumes@.subrange(i as int, volumes@.len() as int);
        assert(rest[0] == volumes@[i as int]);
        assert(rest.drop_first() =~= volumes@.subrange(i + 1, volumes@.len() as int));
        if volumes[i].DeviceID.as_str().eq(device_id) {
            return match volumes[i].ProtectionStatus {
                Some(status) => Some(status == 1),
                None => None,
            };
        }
        i += 1;
    }
    None
}

/// Whether `after` is `before` with the answer to `step` put in.
///
/// A step changes the fields that it is for and no others. The steps that
/// look something up change nothing unless the answer is of the kind that
/// the lookup gives; a failed lookup changes nothing at all, and neither
/// does an answer that holds no value: output without the marker, or a
/// file of a size whose contents stand for no number.
pub open spec fn is_applied(
    step: Step,
    before: DriveInfo,
    answer: Answer,
    after: DriveInfo,
) -> bool {
    match step {
        Step::MountPoint => {
            &&& after == DriveInfo { mount_point: after.mount_point, ..before }
            &&& after.mount_point matches Some(path) && path@ == before.root_path@
        },
        Step::DosDeviceName => match (before.drive_letter, answer) {
            (Some(_), Answer::DeviceBuffer { written, buffer }) if written != 0 => {
                let name = utf16_lossy_text(device_name_units(buffer@));
                &&& after == DriveInfo {
                    dos_device_name: after.dos_device_name,
                    physical_device_path: after.physical_device_path,
                    ..before
                }
                &&& after.dos_device_name matches Some(device) && device@ == name
                &&& after.physical_device_path matches Some(path) && path@ == name
            },
            _ => after == before,
        },
        Step::DevicePath => {
            &&& after == DriveInfo { device_path: after.device_path, ..before }
            &&& after.device_path matches Some(path) && path@ == device_path_text(
                before.root_path@,
            )
        },
        Step::EncryptionStatus => match (before.volume_guid_path, answer) {
            (Some(_), Answer::Flag(encrypted)) => after == DriveInfo {
                is_bitlocker_encrypted: Some(encrypted),
                ..before
            },
            _ => after == before,
        },
        Step::FilesystemUuid => match answer {
            Answer::Text(output) => match value_before(output@, "UUID=\""@, '"') {
                Some(value) => {
                    &&& after == DriveInfo { uuid: after.uuid, ..before }
                    &&& after.uuid matches Some(uuid) && uuid@ == value
                },
                None => after == before,
            },
            _ => after == before,
        },
        Step::SectorSize => match answer {
            Answer::Text(contents) => match parsed_u64(trimmed(contents@)) {
                Some(number) => after == DriveInfo { sector_size: Some(number), ..before },
                None => after == before,
            },
            _ => after == before,
        },
        Step::BlockSize => match answer {
            Answer::Text(contents) => match parsed_u64(trimmed(contents@)) {
                Some(number) => after == DriveInfo { block_size: Some(number), ..before },
                None => after == before,
            },
            _ => after == before,
        },
        Step::SerialNumber => match answer {
            Answer::Text(contents) => {
                &&& after == DriveInfo { serial_number: after.serial_number, ..before }
                &&& after.serial_number matches Some(serial) && serial@ == trimmed(contents@)
            },
            _ => after == before,
        },
        Step::DiskUtility => match answer {
            Answer::Text(output) => {
                &&& after == DriveInfo {
                    uuid: after.uuid,
                    serial_number: after.serial_number,
                    ..before
                }
                &&& match word_after(output@, "Volume UUID: "@) {
                    Some(value) => after.uuid matches Some(uuid) && uuid@ == value,
                    None => after.uuid == before.uuid,
                }
                &&& match word_after(output@, "Disk Serial Number: "@) {
                    Some(value) => after.serial_number matches Some(serial) && serial@ == value,
                    None => after.serial_number == before.serial_number,
                }
            },
            _ => after == before,
        },
    }
}

/// Reads the number that the contents of a file stand for once the white
/// space around them is taken off. Contents that stand for no number give
/// none.
fn read_number(contents: &str) -> (number: Option<u64>)
    ensures
        number == parsed_u64(trimmed(contents@)),
{
    let inner = trim(contents);
    parse_u64(inner.as_str())
}

/// Puts the answer to `step` into `drive`.
pub fn apply_answer(step: Step, drive: &mut DriveInfo, answer: &Answer)
    ensures
        is_applied(step, *old(drive), *answer, *final(drive)),
{
    match step {
        Step::MountPoint => {
            drive.mount_point = Some(String::from_str(drive.root_path.as_str()));
        },
        Step::DosDeviceName => {
            if drive.drive_letter.is_some() {
                if let Answer::DeviceBuffer { written, buffer } = answer {
                    if let Some(units) = query_dos_device(*written, buffer) {
                        let name = String::from_utf16_lossy(units.as_slice());
                        drive.dos_device_name = Some(name.clone());
                        drive.physical_device_path = Some(name);
                    }
                }
            }
        },
        Step::DevicePath => {
            drive.device_path = Some(convert_to_device_path(drive.root_path.as_str()));
        },
        Step::EncryptionStatus => {
            if drive.volume_guid_path.is_some() {
                if let Answer::Flag(encrypted) = answer {
                    drive.is_bitlocker_encrypted = Some(*encrypted);
                }
            }
        },
        Step::FilesystemUuid => {
            if let Answer::Text(output) = answer {
                if let Some(value) = find_value_before(output.as_str(), "UUID=\"", '"') {
                    drive.uuid = Some(value);
                }
            }
        },
        Step::SectorSize => {
            if let Answer::Text(contents) = answer {
                if let Some(number) = read_number(contents.as_str()) {
                    drive.sector_size = Some(number);
                }
            }
        },
        Step::BlockSize => {
            if let Answer::Text(contents) = answer {
                if let Some(number) = read_number(contents.as_str()) {
                    drive.block_size = Some(number);
                }
            }
        },
        Step::SerialNumber => {
            if let Answer::Text(contents) = answer {
                drive.serial_number = Some(trim(contents.as_str()));
            }
        },
        Step::DiskUtility => {
            if let Answer::Text(output) = answer {
                if let Some(value) = find_word_after(output.as_str(), "Volume UUID: ") {
                    drive.uuid = Some(value);
                }
                if let Some(value) = find_word_after(output.as_str(), "Disk Serial Number: ") {
                    drive.serial_number = Some(value);
                }
            }
        },
    }
}

/// Whether every field that a lookup can fill and that was filled in
/// `before` is still filled in `after`.
pub open spec fn keeps_resolved(before: DriveInfo, after: DriveInfo) -> bool {
    &&& before.file_system_type is Some ==> after.file_system_type is Some
    &&& before.uuid is Some ==> after.uuid is Some
    &&& before.serial_number is Some ==> after.serial_number is Some
    &&& before.mount_point is Some ==> after.mount_point is Some
    &&& before.sector_size is Some ==> after.sector_size is Some
    &&& before.block_size is Some ==> after.block_size is Some
    &&& before.cylinders is Some ==> after.cylinders is Some
    &&& before.tracks_per_cylinder is Some ==> after.tracks_per_cylinder is Some
    &&& before.sectors_per_track is Some ==> after.sectors_per_track is Some
    &&& before.bytes_per_sector is Some ==> after.bytes_per_sector is Some
    &&& before.media_type is Some ==> after.media_type is Some
    &&& before.volume_serial_number is Some ==> after.volume_serial_number is Some
    &&& before.volume_name is Some ==> after.volume_name is Some
    &&& before.ntfs_version is Some ==> after.ntfs_version is Some
    &&& before.physical_device_path is Some ==> after.physical_device_path is Some
    &&& before.is_bitlocker_encrypted is Some ==> after.is_bitlocker_encrypted is Some
    &&& before.max_component_length is Some ==> after.max_component_length is Some
    &&& before.drive_letter is Some ==> after.drive_letter is Some
    &&& before.drive_root is Some ==> after.drive_root is Some
    &&& before.dos_device_name is Some ==> after.dos_device_name is Some
    &&& before.device_path is Some ==> after.device_path is Some
    &&& before.volume_guid_path is Some ==> after.volume_guid_path is Some
    &&& before.mounted_folder_path is Some ==> after.mounted_folder_path is Some
    &&& before.unc_path is Some ==> after.unc_path is Some
    &&& before.device_identifier is Some ==> after.device_identifier is Some
    &&& before.container_size is Some ==> after.container_size is Some
    &&& before.volume_role is Some ==> after.volume_role is Some
    &&& before.apfs_version is Some ==> after.apfs_version is Some
    &&& before.device_node is Some ==> after.device_node is Some
    &&& before.raid_info is Some ==> after.raid_info is Some
    &&& before.inode_count is Some ==> after.inode_count is Some
    &&& before.mount_options is Some ==> after.mount_options is Some
}

/// Whether `after` holds what `before` holds of the volume's identity,
/// kind and sizes.
pub open spec fn same_volume(before: DriveInfo, after: DriveInfo) -> bool {
    &&& after.root_path == before.root_path
    &&& after.drive_name == before.drive_name
    &&& after.drive_letter == before.drive_letter
    &&& after.drive_type == before.drive_type
    &&& after.total_space == before.total_space
    &&& after.available_space == before.available_space
}

/// Whether a step gets its answer from the operating system.
pub open spec fn needs_lookup(step: Step) -> bool {
    step != Step::MountPoint && step != Step::DevicePath
}

/// A lookup that fails leaves the whole volume as it was: the field that
/// the lookup was for stays as it is, and so does every other field.
pub proof fn lemma_failed_lookup_changes_nothing(step: Step, before: DriveInfo, after: DriveInfo)
    requires
        needs_lookup(step),
        is_applied(step, before, Answer::Failed, after),
    ensures
        after == before,
{
}

/// A file of a size whose contents stand for no number leaves the whole
/// volume as it was: the size stays absent where it was absent, and a size
/// that was known stays known.
pub proof fn lemma_size_without_number_changes_nothing(
    step: Step,
    before: DriveInfo,
    contents: String,
    after: DriveInfo,
)
    requires
        step == Step::SectorSize || step == Step::BlockSize,
        parsed_u64(trimmed(contents@)) is None,
        is_applied(step, before, Answer::Text(contents), after),
    ensures
        after == before,
{
}

/// Whatever the answer to a step is, no field that was filled before the
/// step is empty after it, and the volume is still the same volume with
/// the same sizes.
pub proof fn lemma_step_keeps_resolved(
    step: Step,
    before: DriveInfo,
    answer: Answer,
    after: DriveInfo,
)
    requires
        is_applied(step, before, answer, after),
    ensures
        keeps_resolved(before, after),
        same_volume(before, after),
        before.wf() ==> after.wf(),
{
}

/// The encryption status of a volume whose identifier path is not known is
/// never asked for, and no answer changes the volume: its encryption
/// status stays as it is.
pub proof fn lemma_encryption_lookup_gated(drive: DriveInfo, answer: Answer, after: DriveInfo)
    requires
        drive.volume_guid_path is None,
    ensures
        requested(Step::EncryptionStatus, drive) == RequestView::Nothing,
        is_applied(Step::EncryptionStatus, drive, answer, after) ==> after == drive,
{
}

/// The encryption status is asked for exactly where the identifier path of
/// the volume is known, and then for that path.
pub proof fn lemma_encryption_lookup_needs_volume(drive: DriveInfo)
    ensures
        requested(Step::EncryptionStatus, drive) != RequestView::Nothing
            <==> drive.volume_guid_path is Some,
{
}

} // verus!
