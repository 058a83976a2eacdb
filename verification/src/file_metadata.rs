//! What is known of a file besides its name: sizes, times, permissions and
//! attributes.

use std::time::SystemTime;
use vstd::prelude::*;

verus! {

/// A point in time as the standard library holds it.
#[verifier::external_type_specification]
#[verifier::external_body]
pub struct ExSystemTime(SystemTime);

/// The kinds and properties that a file or a directory can have. A set of
/// flags, one bit for each.
#[derive(Debug, Clone, Copy, PartialEq, Eq, Hash, Default, Structural)]
pub struct FileAttributes {
    pub bits: u32,
}

impl FileAttributes {
    /// A directory.
    pub const DIRECTORY: u32 = 0x0001;

    /// A regular file.
    pub const FILE: u32 = 0x0002;

    /// A symbolic link.
    pub const SYMLINK: u32 = 0x0004;

    /// A hard link.
    pub const HARD_LINK: u32 = 0x0008;

    /// An NTFS reparse point.
    pub const REPARSE_POINT: u32 = 0x0010;

    /// An NTFS alternate data stream.
    pub const ALTERNATE_DATA_STREAM: u32 = 0x0020;

    /// An NTFS compressed file.
    pub const COMPRESSED: u32 = 0x0040;

    /// An NTFS sparse file.
    pub const SPARSE_FILE: u32 = 0x0080;

    /// A Unix block device.
    pub const BLOCK_DEVICE: u32 = 0x0100;

    /// A Unix character device.
    pub const CHARACTER_DEVICE: u32 = 0x0200;

    /// A Unix named pipe.
    pub const FIFO: u32 = 0x0400;

    /// A Unix socket.
    pub const SOCKET: u32 = 0x0800;

    /// A macOS bundle.
    pub const BUNDLE: u32 = 0x1000;

    /// A macOS package.
    pub const PACKAGE: u32 = 0x2000;

    /// An APFS clone.
    pub const APFS_CLONE: u32 = 0x4000;

    /// Anything that has no flag of its own.
    pub const OTHER: u32 = 0x8000;

    /// All the flags together.
    pub const ALL: u32 = 0xffff;

    /// Whether the set holds no bit that is not a flag.
    pub open spec fn wf(&self) -> bool {
        self.bits & !Self::ALL == 0
    }

    /// The set without any flag.
    pub fn empty() -> (set: Self)
        ensures
            set.bits == 0,
            set.wf(),
    {
        assert(0u32 & !Self::ALL == 0) by (bit_vector);
        Self { bits: 0 }
    }

    /// The set with exactly the bits given, if each of them is a flag.
    pub fn from_bits(bits: u32) -> (set: Option<Self>)
        ensures
            set is Some <==> bits & !Self::ALL == 0,
            set matches Some(flags) ==> flags.bits == bits && flags.wf(),
    {
        if bits & !Self::ALL == 0 {
            Some(Self { bits })
        } else {
            None
        }
    }

    /// The set with those of the bits given that are flags.
    pub fn from_bits_truncate(bits: u32) -> (set: Self)
        ensures
            set.bits == bits & Self::ALL,
            set.wf(),
    {
        assert((bits & Self::ALL) & !Self::ALL == 0) by (bit_vector);
        Self { bits: bits & Self::ALL }
    }

    /// Whether the set holds no flag.
    pub fn is_empty(&self) -> (none: bool)
        ensures
            none == (self.bits == 0),
    {
        self.bits == 0
    }

    /// Whether the set holds every one of `flags`.
    pub fn contains(&self, flags: u32) -> (all: bool)
        ensures
            all == (self.bits & flags == flags),
    {
        self.bits & flags == flags
    }

    /// Adds those of `flags` that are flags of this type.
    pub fn insert(&mut self, flags: u32)
        ensures
            final(self).bits == old(self).bits | (flags & Self::ALL),
            old(self).wf() ==> final(self).wf(),
    {
        let before = self.bits;
        assert(before & !Self::ALL == 0 ==> (before | (flags & Self::ALL)) & !Self::ALL == 0)
            by (bit_vector);
        self.bits = self.bits | (flags & Self::ALL);
    }

    /// Takes `flags` out of the set.
    pub fn remove(&mut self, flags: u32)
        ensures
            final(self).bits == old(self).bits & !flags,
            old(self).wf() ==> final(self).wf(),
    {
        let before = self.bits;
        assert(before & !Self::ALL == 0 ==> (before & !flags) & !Self::ALL == 0) by (bit_vector);
        self.bits = self.bits & !flags;
    }
}

/// The permission bits of a file on Unix: read, write and execute for the
/// owner, the group and the others, and the three special bits. A set of
/// flags, one bit for each.
#[derive(Debug, Clone, Copy, PartialEq, Eq, Hash, Default, Structural)]
pub struct UnixMode {
    pub bits: u32,
}

impl UnixMode {
    pub const USER_READ: u32 = 0x0100;

    pub const USER_WRITE: u32 = 0x0080;

    pub const USER_EXECUTE: u32 = 0x0040;

    pub const GROUP_READ: u32 = 0x0020;

    pub const GROUP_WRITE: u32 = 0x0010;

    pub const GROUP_EXECUTE: u32 = 0x0008;

    pub const OTHER_READ: u32 = 0x0004;

    pub const OTHER_WRITE: u32 = 0x0002;

    pub const OTHER_EXECUTE: u32 = 0x0001;

    pub const SETUID: u32 = 0x0800;

    pub const SETGID: u32 = 0x0400;

    pub const STICKY: u32 = 0x0200;

    /// All the flags together.
    pub const ALL: u32 = 0x0fff;

    /// Whether the set holds no bit that is not a flag.
    pub open spec fn wf(&self) -> bool {
        self.bits & !Self::ALL == 0
    }

    /// The set without any flag.
    pub fn empty() -> (set: Self)
        ensures
            set.bits == 0,
            set.wf(),
    {
        assert(0u32 & !Self::ALL == 0) by (bit_vector);
        Self { bits: 0 }
    }

    /// The set with exactly the bits given, if each of them is a flag.
    pub fn from_bits(bits: u32) -> (set: Option<Self>)
        ensures
            set is Some <==> bits & !Self::ALL == 0,
            set matches Some(flags) ==> flags.bits == bits && flags.wf(),
    {
        if bits & !Self::ALL == 0 {
            Some(Self { bits })
        } else {
            None
        }
    }

    /// The set with those of the bits given that are flags.
    pub fn from_bits_truncate(bits: u32) -> (set: Self)
        ensures
            set.bits == bits & Self::ALL,
            set.wf(),
    {
        assert((bits & Self::ALL) & !Self::ALL == 0) by (bit_vector);
        Self { bits: bits & Self::ALL }
    }

    /// Whether the set holds no flag.
    pub fn is_empty(&self) -> (none: bool)
        ensures
            none == (self.bits == 0),
    {
        self.bits == 0
    }

    /// Whether the set holds every one of `flags`.
    pub fn contains(&self, flags: u32) -> (all: bool)
        ensures
            all == (self.bits & flags == flags),
    {
        self.bits & flags == flags
    }

    /// Adds those of `flags` that are flags of this type.
    pub fn insert(&mut self, flags: u32)
        ensures
            final(self).bits == old(self).bits | (flags & Self::ALL),
            old(self).wf() ==> final(self).wf(),
    {
        let before = self.bits;
        assert(before & !Self::ALL == 0 ==> (before | (flags & Self::ALL)) & !Self::ALL == 0)
            by (bit_vector);
        self.bits = self.bits | (flags & Self::ALL);
    }

    /// Takes `flags` out of the set.
    pub fn remove(&mut self, flags: u32)
        ensures
            final(self).bits == old(self).bits & !flags,
            old(self).wf() ==> final(self).wf(),
    {
        let before = self.bits;
        assert(before & !Self::ALL == 0 ==> (before & !flags) & !Self::ALL == 0) by (bit_vector);
        self.bits = self.bits & !flags;
    }
}

/// What one entry of an access control list on Unix allows. A set of flags,
/// one bit for each.
#[derive(Debug, Clone, Copy, PartialEq, Eq, Hash, Default, Structural)]
pub struct UnixAclPermissions {
    pub bits: u32,
}

impl UnixAclPermissions {
    pub const READ: u32 = 0x0004;

    pub const WRITE: u32 = 0x0002;

    pub const EXECUTE: u32 = 0x0001;

    /// All the flags together.
    pub const ALL: u32 = 0x0007;

    /// Whether the set holds no bit that is not a flag.
    pub open spec fn wf(&self) -> bool {
        self.bits & !Self::ALL == 0
    }

    /// The set without any flag.
    pub fn empty() -> (set: Self)
        ensures
            set.bits == 0,
            set.wf(),
    {
        assert(0u32 & !Self::ALL == 0) by (bit_vector);
        Self { bits: 0 }
    }

    /// The set with exactly the bits given, if each of them is a flag.
    pub fn from_bits(bits: u32) -> (set: Option<Self>)
        ensures
            set is Some <==> bits & !Self::ALL == 0,
            set matches Some(flags) ==> flags.bits == bits && flags.wf(),
    {
        if bits & !Self::ALL == 0 {
            Some(Self { bits })
        } else {
            None
        }
    }

    /// The set with those of the bits given that are flags.
    pub fn from_bits_truncate(bits: u32) -> (set: Self)
        ensures
            set.bits == bits & Self::ALL,
            set.wf(),
    {
        assert((bits & Self::ALL) & !Self::ALL == 0) by (bit_vector);
        Self { bits: bits & Self::ALL }
    }

    /// Whether the set holds no flag.
    pub fn is_empty(&self) -> (none: bool)
        ensures
            none == (self.bits == 0),
    {
        self.bits == 0
    }

    /// Whether the set holds every one of `flags`.
    pub fn contains(&self, flags: u32) -> (all: bool)
        ensures
            all == (self.bits & flags == flags),
    {
        self.bits & flags == flags
    }

    /// Adds those of `flags` that are flags of this type.
    pub fn insert(&mut self, flags: u32)
        ensures
            final(self).bits == old(self).bits | (flags & Self::ALL),
            old(self).wf() ==> final(self).wf(),
    {
        let before = self.bits;
        assert(before & !Self::ALL == 0 ==> (before | (flags & Self::ALL)) & !Self::ALL == 0)
            by (bit_vector);
        self.bits = self.bits | (flags & Self::ALL);
    }

    /// Takes `flags` out of the set.
    pub fn remove(&mut self, flags: u32)
        ensures
            final(self).bits == old(self).bits & !flags,
            old(self).wf() ==> final(self).wf(),
    {
        let before = self.bits;
        assert(before & !Self::ALL == 0 ==> (before & !flags) & !Self::ALL == 0) by (bit_vector);
        self.bits = self.bits & !flags;
    }
}

/// What one entry of an access control list on NTFS allows. A set of flags,
/// one bit for each.
#[derive(Debug, Clone, Copy, PartialEq, Eq, Hash, Default, Structural)]
pub struct NtfsPermissions {
    pub bits: u32,
}

impl NtfsPermissions {
    /// To read the file or directory.
    pub const READ: u32 = 0x0001;

    /// To write to it.
    pub const WRITE: u32 = 0x0002;

    /// To run the file or pass through the directory.
    pub const EXECUTE: u32 = 0x0004;

    /// To delete it.
    pub const DELETE: u32 = 0x0008;

    /// To change it.
    pub const MODIFY: u32 = 0x0010;

    /// To become its owner.
    pub const TAKE_OWNERSHIP: u32 = 0x0020;

    /// To change who may do what with it.
    pub const CHANGE_PERMISSIONS: u32 = 0x0040;

    /// To do all of these.
    pub const FULL_CONTROL: u32 = 0x0080;

    /// All the flags together.
    pub const ALL: u32 = 0x00ff;

    /// Whether the set holds no bit that is not a flag.
    pub open spec fn wf(&self) -> bool {
        self.bits & !Self::ALL == 0
    }

    /// The set without any flag.
    pub fn empty() -> (set: Self)
        ensures
            set.bits == 0,
            set.wf(),
    {
        assert(0u32 & !Self::ALL == 0) by (bit_vector);
        Self { bits: 0 }
    }

    /// The set with exactly the bits given, if each of them is a flag.
    pub fn from_bits(bits: u32) -> (set: Option<Self>)
        ensures
            set is Some <==> bits & !Self::ALL == 0,
            set matches Some(flags) ==> flags.bits == bits && flags.wf(),
    {
        if bits & !Self::ALL == 0 {
            Some(Self { bits })
        } else {
            None
        }
    }

    /// The set with those of the bits given that are flags.
    pub fn from_bits_truncate(bits: u32) -> (set: Self)
        ensures
            set.bits == bits & Self::ALL,
            set.wf(),
    {
        assert((bits & Self::ALL) & !Self::ALL == 0) by (bit_vector);
        Self { bits: bits & Self::ALL }
    }

    /// Whether the set holds no flag.
    pub fn is_empty(&self) -> (none: bool)
        ensures
            none == (self.bits == 0),
    {
        self.bits == 0
    }

    /// Whether the set holds every one of `flags`.
    pub fn contains(&self, flags: u32) -> (all: bool)
        ensures
            all == (self.bits & flags == flags),
    {
        self.bits & flags == flags
    }

    /// Adds those of `flags` that are flags of this type.
    pub fn insert(&mut self, flags: u32)
        ensures
            final(self).bits == old(self).bits | (flags & Self::ALL),
            old(self).wf() ==> final(self).wf(),
    {
        let before = self.bits;
        assert(before & !Self::ALL == 0 ==> (before | (flags & Self::ALL)) & !Self::ALL == 0)
            by (bit_vector);
        self.bits = self.bits | (flags & Self::ALL);
    }

    /// Takes `flags` out of the set.
    pub fn remove(&mut self, flags: u32)
        ensures
            final(self).bits == old(self).bits & !flags,
            old(self).wf() ==> final(self).wf(),
    {
        let before = self.bits;
        assert(before & !Self::ALL == 0 ==> (before & !flags) & !Self::ALL == 0) by (bit_vector);
        self.bits = self.bits & !flags;
    }
}

/// The attributes that NTFS keeps for a file. A set of flags, one bit for
/// each.
#[derive(Debug, Clone, Copy, PartialEq, Eq, Hash, Default, Structural)]
pub struct NtfsAttributes {
    pub bits: u32,
}

impl NtfsAttributes {
    pub const READ_ONLY: u32 = 0x0001;

    pub const HIDDEN: u32 = 0x0002;

    pub const SYSTEM: u32 = 0x0004;

    pub const ARCHIVE: u32 = 0x0008;

    pub const TEMPORARY: u32 = 0x0010;

    pub const OFFLINE: u32 = 0x0020;

    pub const NOT_CONTENT_INDEXED: u32 = 0x0040;

    pub const ENCRYPTED: u32 = 0x0080;

    pub const COMPRESSED: u32 = 0x0100;

    pub const SPARSE: u32 = 0x0200;

    pub const REPARSE_POINT: u32 = 0x0400;

    pub const INTEGRITY_STREAM: u32 = 0x0800;

    pub const NO_SCRUB_DATA: u32 = 0x1000;

    /// All the flags together.
    pub const ALL: u32 = 0x1fff;

    /// Whether the set holds no bit that is not a flag.
    pub open spec fn wf(&self) -> bool {
        self.bits & !Self::ALL == 0
    }

    /// The set without any flag.
    pub fn empty() -> (set: Self)
        ensures
            set.bits == 0,
            set.wf(),
    {
        assert(0u32 & !Self::ALL == 0) by (bit_vector);
        Self { bits: 0 }
    }

    /// The set with exactly the bits given, if each of them is a flag.
    pub fn from_bits(bits: u32) -> (set: Option<Self>)
        ensures
            set is Some <==> bits & !Self::ALL == 0,
            set matches Some(flags) ==> flags.bits == bits && flags.wf(),
    {
        if bits & !Self::ALL == 0 {
            Some(Self { bits })
        } else {
            None
        }
    }

    /// The set with those of the bits given that are flags.
    pub fn from_bits_truncate(bits: u32) -> (set: Self)
        ensures
            set.bits == bits & Self::ALL,
            set.wf(),
    {
        assert((bits & Self::ALL) & !Self::ALL == 0) by (bit_vector);
        Self { bits: bits & Self::ALL }
    }

    /// Whether the set holds no flag.
    pub fn is_empty(&self) -> (none: bool)
        ensures
            none == (self.bits == 0),
    {
        self.bits == 0
    }

    /// Whether the set holds every one of `flags`.
    pub fn contains(&self, flags: u32) -> (all: bool)
        ensures
            all == (self.bits & flags == flags),
    {
        self.bits & flags == flags
    }

    /// Adds those of `flags` that are flags of this type.
    pub fn insert(&mut self, flags: u32)
        ensures
            final(self).bits == old(self).bits | (flags & Self::ALL),
            old(self).wf() ==> final(self).wf(),
    {
        let before = self.bits;
        assert(before & !Self::ALL == 0 ==> (before | (flags & Self::ALL)) & !Self::ALL == 0)
            by (bit_vector);
        self.bits = self.bits | (flags & Self::ALL);
    }

    /// Takes `flags` out of the set.
    pub fn remove(&mut self, flags: u32)
        ensures
            final(self).bits == old(self).bits & !flags,
            old(self).wf() ==> final(self).wf(),
    {
        let before = self.bits;
        assert(before & !Self::ALL == 0 ==> (before & !flags) & !Self::ALL == 0) by (bit_vector);
        self.bits = self.bits & !flags;
    }
}

/// What is known of a file besides its name.
#[derive(Debug, Clone, PartialEq, Eq, Hash, Default)]
pub struct FileMetadata {
    /// The permissions beyond the basic ones.
    pub extended_permissions: Option<ExtendedPermissions>,
    /// The size of the file in bytes.
    pub file_size: u64,
    /// The bytes that the file takes on disk.
    pub disk_size: Option<u64>,
    pub accessed: Option<SystemTime>,
    pub modified: Option<SystemTime>,
    pub created: Option<SystemTime>,
    // Unix
    pub inode: Option<u64>,
    pub hard_links: Option<u64>,
    pub device_id: Option<u64>,
    // NTFS
    pub ntfs_attributes: Option<NtfsAttributes>,
}

/// The permissions of a file, in the form of the system that keeps them.
#[derive(Debug, Clone, PartialEq, Eq, Hash)]
pub enum ExtendedPermissions {
    Unix(UnixPermissions),
    Ntfs(NtfsAcl),
}

/// The permissions of a file on Unix: its mode, and its access control
/// list where it has one.
#[derive(Debug, Clone, PartialEq, Eq, Hash, Default)]
pub struct UnixPermissions {
    pub mode: UnixMode,
    pub acl: Option<UnixAcl>,
}

/// An access control list on Unix.
#[derive(Debug, Clone, PartialEq, Eq, Hash, Default)]
pub struct UnixAcl {
    pub entries: Vec<AclEntry>,
}

/// One entry of an access control list on Unix: what a user or a group
/// may do.
#[derive(Debug, Clone, PartialEq, Eq, Hash, Default)]
pub struct AclEntry {
    pub user: Option<String>,
    pub group: Option<String>,
    pub permissions: UnixAclPermissions,
}

/// An access control list on NTFS.
#[derive(Debug, Clone, PartialEq, Eq, Hash, Default)]
pub struct NtfsAcl {
    pub entries: Vec<NtfsAclEntry>,
}

/// One entry of an access control list on NTFS: what a user or a group
/// may do.
#[derive(Debug, Clone, PartialEq, Eq, Hash, Default)]
pub struct NtfsAclEntry {
    /// The user or the group.
    pub principal: String,
    pub permissions: NtfsPermissions,
}

} // verus!
