//! The report assembler: turns one path and its raw status record into the
//! fixed eight-line report — path, size and type, device and inode,
//! permissions and ownership, the three timestamps, and the birth line,
//! which is always rendered unavailable since the underlying metadata call
//! does not provide creation time on every platform. Each line's exact text
//! is pinned by the contracts below.

use vstd::prelude::*;

use vstd::string::StringExecFns;

use crate::classify::{classify_type, file_type_of, long_label, long_label_str};
use crate::errors::{QueryError, ReportError};
use crate::flags::PERM_MASK;
use crate::ident::{resolve_group_name, resolve_user_name};
use crate::numfmt::{dec_seq, hex_seq, i64_dec_seq, i64_to_dec, oct_seq, u64_to_dec, u64_to_hex, u64_to_oct};
use crate::perms::{build_permission_string, perm_string};
use crate::timefmt::{format_timestamp, rfc3339_utc, ts_representable};

verus! {

/// One filesystem entry's raw status record, as the metadata query reports
/// it: every field a plain number. The mode bitmask encodes both the type
/// sub-field and the permission and special bits; each timestamp is a
/// (whole seconds since the epoch, nanoseconds within the second) pair.
#[derive(Clone, Copy, Debug, PartialEq, Eq, Structural)]
pub struct RawStatusRecord {
    /// Device identifier.
    pub dev: u64,
    /// Inode number.
    pub ino: u64,
    /// Mode bitmask: file type plus permission and special bits.
    pub mode: u32,
    /// Hard-link count.
    pub nlink: u64,
    /// Owning user id.
    pub uid: u32,
    /// Owning group id.
    pub gid: u32,
    /// Size in bytes.
    pub size: i64,
    /// Allocated 512-byte block count.
    pub blocks: i64,
    /// Preferred I/O block size.
    pub blksize: i64,
    /// Last access: whole seconds since the epoch.
    pub atime_sec: i64,
    /// Last access: nanoseconds within the second.
    pub atime_nsec: u32,
    /// Last modification: whole seconds since the epoch.
    pub mtime_sec: i64,
    /// Last modification: nanoseconds within the second.
    pub mtime_nsec: u32,
    /// Last status change: whole seconds since the epoch.
    pub ctime_sec: i64,
    /// Last status change: nanoseconds within the second.
    pub ctime_nsec: u32,
}

/// The first report line: the inspected path.
pub open spec fn file_line(path: Seq<char>) -> Seq<char> {
    "  File: "@ + path
}

/// The second report line: size, block counts and the long type label.
pub open spec fn size_line(size: i64, blocks: i64, blksize: i64, mode: u32) -> Seq<char> {
    "  Size: "@ + i64_dec_seq(size as int) + "\t\tBlocks: "@ + i64_dec_seq(blocks as int)
        + "\tIO Blocks: "@ + i64_dec_seq(blksize as int) + "\t"@ + long_label(file_type_of(mode))
}

/// The third report line: device (hexadecimal and decimal), inode and
/// hard-link count.
pub open spec fn device_line(dev: u64, ino: u64, nlink: u64) -> Seq<char> {
    "Device: "@ + hex_seq(dev as nat) + "h/"@ + dec_seq(dev as nat) + "d\tInode: "@ + dec_seq(
        ino as nat,
    ) + "\tLinks: "@ + dec_seq(nlink as nat)
}

/// The fourth report line: the permission and special bits in octal, the
/// ten-character permission string, and the resolved ownership. The octal
/// value is the mode masked to the permission and special bits — the same
/// bits the permission string renders, so the two stay consistent.
pub open spec fn ownership_line(
    mode: u32,
    uid: u32,
    gid: u32,
    user: Seq<char>,
    group: Seq<char>,
) -> Seq<char> {
    "Access: (0"@ + oct_seq((mode & PERM_MASK) as nat) + "/"@ + perm_string(mode)
        + ")    Uid: ( "@ + dec_seq(uid as nat) + "/ "@ + user + ")    Gid: ( "@ + dec_seq(
        gid as nat,
    ) + "/ "@ + group + ")"@
}

/// Whether all three timestamps of a record lie in the representable
/// calendar range.
pub open spec fn all_ts_representable(st: RawStatusRecord) -> bool {
    &&& ts_representable(st.atime_sec as int, st.atime_nsec as int)
    &&& ts_representable(st.mtime_sec as int, st.mtime_nsec as int)
    &&& ts_representable(st.ctime_sec as int, st.ctime_nsec as int)
}

/// The full report: eight lines, in fixed order, with the given resolved
/// user and group names on the ownership line and the birth line always
/// rendered unavailable.
pub open spec fn report_lines_match(
    lines: Seq<String>,
    path: Seq<char>,
    st: RawStatusRecord,
    user: Seq<char>,
    group: Seq<char>,
) -> bool {
    &&& lines.len() == 8
    &&& lines[0]@ == file_line(path)
    &&& lines[1]@ == size_line(st.size, st.blocks, st.blksize, st.mode)
    &&& lines[2]@ == device_line(st.dev, st.ino, st.nlink)
    &&& lines[3]@ == ownership_line(st.mode, st.uid, st.gid, user, group)
    &&& lines[4]@ == "Access: "@ + rfc3339_utc(st.atime_sec, st.atime_nsec)
    &&& lines[5]@ == "Modify: "@ + rfc3339_utc(st.mtime_sec, st.mtime_nsec)
    &&& lines[6]@ == "Change: "@ + rfc3339_utc(st.ctime_sec, st.ctime_nsec)
    &&& lines[7]@ == " Birth: -"@
}

/// Assembles the report with the ownership names already resolved, so that
/// every line's text is a function of the arguments alone. Fails — with no
/// partial report — exactly when one of the record's timestamps cannot be
/// represented.
pub fn assemble_report_with(
    path: &str,
    st: &RawStatusRecord,
    user: &str,
    group: &str,
) -> (r: Result<Vec<String>, ReportError>)
    ensures
        r is Ok <==> all_ts_representable(*st),
        r matches Ok(lines) ==> report_lines_match(lines@, path@, *st, user@, group@),
        r matches Err(e) ==> e == ReportError::TimestampOutOfRange,
{
    let atime = match format_timestamp(st.atime_sec, st.atime_nsec) {
        Ok(s) => s,
        Err(_) => {
            return Err(ReportError::TimestampOutOfRange);
        },
    };
    let mtime = match format_timestamp(st.mtime_sec, st.mtime_nsec) {
        Ok(s) => s,
        Err(_) => {
            return Err(ReportError::TimestampOutOfRange);
        },
    };
    let ctime = match format_timestamp(st.ctime_sec, st.ctime_nsec) {
        Ok(s) => s,
        Err(_) => {
            return Err(ReportError::TimestampOutOfRange);
        },
    };
    let mut lines: Vec<String> = Vec::new();

    let mut l0 = String::from_str("  File: ");
    l0.append(path);
    lines.push(l0);

    let mut l1 = String::from_str("  Size: ");
    l1.append(i64_to_dec(st.size).as_str());
    l1.append("\t\tBlocks: ");
    l1.append(i64_to_dec(st.blocks).as_str());
    l1.append("\tIO Blocks: ");
    l1.append(i64_to_dec(st.blksize).as_str());
    l1.append("\t");
    l1.append(long_label_str(classify_type(st.mode)));
    lines.push(l1);

    let mut l2 = String::from_str("Device: ");
    l2.append(u64_to_hex(st.dev).as_str());
    l2.append("h/");
    l2.append(u64_to_dec(st.dev).as_str());
    l2.append("d\tInode: ");
    l2.append(u64_to_dec(st.ino).as_str());
    l2.append("\tLinks: ");
    l2.append(u64_to_dec(st.nlink).as_str());
    lines.push(l2);

    let mut l3 = String::from_str("Access: (0");
    l3.append(u64_to_oct((st.mode & PERM_MASK) as u64).as_str());
    l3.append("/");
    l3.append(build_permission_string(st.mode).as_str());
    l3.append(")    Uid: ( ");
    l3.append(u64_to_dec(st.uid as u64).as_str());
    l3.append("/ ");
    l3.append(user);
    l3.append(")    Gid: ( ");
    l3.append(u64_to_dec(st.gid as u64).as_str());
    l3.append("/ ");
    l3.append(group);
    l3.append(")");
    lines.push(l3);

    let mut l4 = String::from_str("Access: ");
    l4.append(atime.as_str());
    lines.push(l4);

    let mut l5 = String::from_str("Modify: ");
    l5.append(mtime.as_str());
    lines.push(l5);

    let mut l6 = String::from_str("Change: ");
    l6.append(ctime.as_str());
    lines.push(l6);

    lines.push(String::from_str(" Birth: -"));

    Ok(lines)
}

/// Assembles the full report for one path: resolves the ownership names
/// against the host's identity database, then builds the eight lines. The
/// names on the ownership line are whatever the database yielded (or the
/// numeric fallback); every other character of the report is pinned.
pub fn assemble_report(path: &str, st: &RawStatusRecord) -> (r: Result<Vec<String>, ReportError>)
    ensures
        r is Ok <==> all_ts_representable(*st),
        r matches Ok(lines) ==> (exists|user: Seq<char>, group: Seq<char>|
            report_lines_match(lines@, path@, *st, user, group)),
        r matches Err(e) ==> e == ReportError::TimestampOutOfRange,
{
    let user = resolve_user_name(st.uid);
    let group = resolve_group_name(st.gid);
    let r = assemble_report_with(path, st, user.as_str(), group.as_str());
    proof {
        if r is Ok {
            assert(report_lines_match(r->Ok_0@, path@, *st, user@, group@));
        }
    }
    r
}

/// Builds the report for one path from the outcome of its metadata query.
/// A failed query yields exactly that failure and no partial report; a
/// successful one is assembled as `assemble_report` does.
pub fn report_for_query(path: &str, queried: Result<RawStatusRecord, QueryError>) -> (r: Result<
    Vec<String>,
    ReportError,
>)
    ensures
        queried matches Err(e) ==> r matches Err(re) && re == ReportError::Query(e),
        queried matches Ok(st) ==> {
            &&& r is Ok <==> all_ts_representable(st)
            &&& (r matches Ok(lines) ==> (exists|user: Seq<char>, group: Seq<char>|
                report_lines_match(lines@, path@, st, user, group)))
            &&& (r matches Err(e) ==> e == ReportError::TimestampOutOfRange)
        },
{
    match queried {
        Ok(st) => assemble_report(path, &st),
        Err(e) => Err(ReportError::Query(e)),
    }
}

} // verus!
