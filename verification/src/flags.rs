//! The named bit constants of the mode bitmask: the file-type sub-field and
//! its seven recognized values, the three special bits, and the nine
//! per-class permission bits. Keeping them in one place keeps the masking in
//! the classifier, the permission-string builder and the report assembler
//! consistent.

use vstd::prelude::*;

verus! {

/// Mask isolating the file-type sub-field of a mode bitmask.
pub const S_IFMT: u32 = 0o170000;

/// Type sub-field value: block device.
pub const S_IFBLK: u32 = 0o060000;

/// Type sub-field value: character device.
pub const S_IFCHR: u32 = 0o020000;

/// Type sub-field value: directory.
pub const S_IFDIR: u32 = 0o040000;

/// Type sub-field value: FIFO (named pipe).
pub const S_IFIFO: u32 = 0o010000;

/// Type sub-field value: symbolic link.
pub const S_IFLNK: u32 = 0o120000;

/// Type sub-field value: regular file.
pub const S_IFREG: u32 = 0o100000;

/// Type sub-field value: socket.
pub const S_IFSOCK: u32 = 0o140000;

/// Special bit: set-user-id on execution.
pub const S_ISUID: u32 = 0o4000;

/// Special bit: set-group-id on execution.
pub const S_ISGID: u32 = 0o2000;

/// Special bit: sticky (restricted deletion).
pub const S_ISVTX: u32 = 0o1000;

/// Owner read bit.
pub const S_IRUSR: u32 = 0o400;

/// Owner write bit.
pub const S_IWUSR: u32 = 0o200;

/// Owner execute bit.
pub const S_IXUSR: u32 = 0o100;

/// Group read bit.
pub const S_IRGRP: u32 = 0o040;

/// Group write bit.
pub const S_IWGRP: u32 = 0o020;

/// Group execute bit.
pub const S_IXGRP: u32 = 0o010;

/// Other read bit.
pub const S_IROTH: u32 = 0o004;

/// Other write bit.
pub const S_IWOTH: u32 = 0o002;

/// Other execute bit.
pub const S_IXOTH: u32 = 0o001;

/// Mask of the permission and special bits: the nine rwx bits together with
/// setuid, setgid and sticky. This is the mask used for the octal value
/// printed in the report, so that the printed octal and the permission
/// string always describe the same bits.
pub const PERM_MASK: u32 = 0o7777;

/// True when any of the bits selected by `mask` is set in `mode`.
pub open spec fn bit_set(mode: u32, mask: u32) -> bool {
    mode & mask != 0
}

} // verus!
