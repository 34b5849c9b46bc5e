use stat_report::errors::{QueryError, ReportError};
use stat_report::report::{assemble_report_with, report_for_query, RawStatusRecord};

fn sample_record() -> RawStatusRecord {
    RawStatusRecord {
        dev: 2050,
        ino: 123,
        mode: 0o100644,
        nlink: 1,
        uid: 1000,
        gid: 1000,
        size: 42,
        blocks: 8,
        blksize: 4096,
        atime_sec: 0,
        atime_nsec: 0,
        mtime_sec: 1709374530,
        mtime_nsec: 123456789,
        ctime_sec: 1709374530,
        ctime_nsec: 123456789,
    }
}

#[test]
fn end_to_end_report_for_a_regular_file() {
    let st = sample_record();
    let lines = assemble_report_with("/tmp/answer.txt", &st, "alice", "alice").unwrap();
    assert_eq!(lines.len(), 8);
    assert_eq!(lines[0].as_str(), "  File: /tmp/answer.txt");
    assert_eq!(
        lines[1].as_str(),
        "  Size: 42\t\tBlocks: 8\tIO Blocks: 4096\tregular file"
    );
    assert_eq!(lines[2].as_str(), "Device: 802h/2050d\tInode: 123\tLinks: 1");
    assert_eq!(
        lines[3].as_str(),
        "Access: (0644/-rw-r--r--)    Uid: ( 1000/ alice)    Gid: ( 1000/ alice)"
    );
    assert_eq!(lines[4].as_str(), "Access: 1970-01-01T00:00:00+00:00");
    assert_eq!(lines[5].as_str(), "Modify: 2024-03-02T10:15:30.123456789+00:00");
    assert_eq!(lines[6].as_str(), "Change: 2024-03-02T10:15:30.123456789+00:00");
    assert_eq!(lines[7].as_str(), " Birth: -");
}

#[test]
fn birth_line_is_always_unavailable() {
    let mut st = sample_record();
    st.mode = 0o041777;
    st.size = 0;
    let lines = assemble_report_with("/tmp", &st, "root", "root").unwrap();
    assert_eq!(lines[7].as_str(), " Birth: -");
}

#[test]
fn directory_report_shows_directory_label_and_sticky_overlay() {
    let mut st = sample_record();
    st.mode = 0o041777;
    let lines = assemble_report_with("/tmp", &st, "root", "root").unwrap();
    assert_eq!(lines[1].as_str(), "  Size: 42\t\tBlocks: 8\tIO Blocks: 4096\tdirectory");
    assert_eq!(
        lines[3].as_str(),
        "Access: (01777/drwxrwxrwt)    Uid: ( 1000/ root)    Gid: ( 1000/ root)"
    );
}

#[test]
fn failed_query_yields_that_failure_and_no_partial_report() {
    let r = report_for_query("/no/such/path", Err(QueryError::NotFound));
    assert_eq!(r, Err(ReportError::Query(QueryError::NotFound)));

    let r = report_for_query("/root/secret", Err(QueryError::PermissionDenied));
    assert_eq!(r, Err(ReportError::Query(QueryError::PermissionDenied)));

    let r = report_for_query("/dev/odd", Err(QueryError::OtherIo));
    assert_eq!(r, Err(ReportError::Query(QueryError::OtherIo)));
}

#[test]
fn nonexistent_path_surfaces_not_found_through_the_metadata_query() {
    let err = nix::sys::stat::stat("/definitely/not/here/at/all").unwrap_err();
    assert_eq!(err, nix::errno::Errno::ENOENT);
    let queried: Result<RawStatusRecord, QueryError> = Err(QueryError::NotFound);
    let r = report_for_query("/definitely/not/here/at/all", queried);
    assert_eq!(r, Err(ReportError::Query(QueryError::NotFound)));
}

#[test]
fn out_of_range_timestamp_fails_the_whole_report() {
    let mut st = sample_record();
    st.ctime_sec = i64::MAX;
    let r = assemble_report_with("/tmp/answer.txt", &st, "alice", "alice");
    assert_eq!(r, Err(ReportError::TimestampOutOfRange));
}
