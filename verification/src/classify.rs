//! The type classifier: maps a mode bitmask to a semantic file-type variant
//! and to its long label ("block device") or one-character short code ('b').
//! An unrecognized type sub-field degrades to a sentinel label rather than
//! failing: corrupted or exotic mode values never make the classifier err.

use vstd::prelude::*;

use vstd::string::StringExecFns;

use crate::flags::{S_IFBLK, S_IFCHR, S_IFDIR, S_IFIFO, S_IFLNK, S_IFMT, S_IFREG, S_IFSOCK};

verus! {

/// The closed set of file-type classifications: one variant for each of the
/// seven recognized values of the mode's type sub-field, and a sentinel for
/// everything else.
#[derive(Clone, Copy, Debug, PartialEq, Eq, Structural)]
pub enum FileType {
    BlockDevice,
    CharDevice,
    Directory,
    Fifo,
    Symlink,
    Regular,
    Socket,
    Unknown,
}

/// The classification of a mode bitmask: the type sub-field is isolated with
/// `S_IFMT` and matched against the seven recognized values.
pub open spec fn file_type_of(mode: u32) -> FileType {
    let field = mode & S_IFMT;
    if field == S_IFBLK {
        FileType::BlockDevice
    } else if field == S_IFCHR {
        FileType::CharDevice
    } else if field == S_IFDIR {
        FileType::Directory
    } else if field == S_IFIFO {
        FileType::Fifo
    } else if field == S_IFLNK {
        FileType::Symlink
    } else if field == S_IFREG {
        FileType::Regular
    } else if field == S_IFSOCK {
        FileType::Socket
    } else {
        FileType::Unknown
    }
}

/// The one-character short code of a classification.
pub open spec fn short_code(t: FileType) -> char {
    match t {
        FileType::BlockDevice => 'b',
        FileType::CharDevice => 'c',
        FileType::Directory => 'd',
        FileType::Fifo => 'p',
        FileType::Symlink => 'l',
        FileType::Regular => '-',
        FileType::Socket => 's',
        FileType::Unknown => '?',
    }
}

/// The descriptive long label of a classification.
pub open spec fn long_label(t: FileType) -> Seq<char> {
    match t {
        FileType::BlockDevice => "block device"@,
        FileType::CharDevice => "character device"@,
        FileType::Directory => "directory"@,
        FileType::Fifo => "FIFO/pipe"@,
        FileType::Symlink => "symlink"@,
        FileType::Regular => "regular file"@,
        FileType::Socket => "socket"@,
        FileType::Unknown => "unknown?"@,
    }
}

/// The label `classify` returns: the short code as a one-character sequence,
/// or the long label.
pub open spec fn classify_label(mode: u32, short_form: bool) -> Seq<char> {
    if short_form {
        seq![short_code(file_type_of(mode))]
    } else {
        long_label(file_type_of(mode))
    }
}

/// The classifier reads only the mode's type sub-field: masking a mode down
/// to that field beforehand does not change its classification, so the
/// caller need not pre-mask.
pub proof fn lemma_classification_masks_itself(mode: u32)
    ensures
        file_type_of(mode) == file_type_of(mode & S_IFMT),
{
    assert((mode & 0o170000u32) & 0o170000u32 == mode & 0o170000u32) by (bit_vector);
}

/// Classifies a mode bitmask. The mask need not be pre-applied by the
/// caller.
pub fn classify_type(mode: u32) -> (t: FileType)
    ensures
        t == file_type_of(mode),
{
    let field: u32 = mode & S_IFMT;
    if field == S_IFBLK {
        FileType::BlockDevice
    } else if field == S_IFCHR {
        FileType::CharDevice
    } else if field == S_IFDIR {
        FileType::Directory
    } else if field == S_IFIFO {
        FileType::Fifo
    } else if field == S_IFLNK {
        FileType::Symlink
    } else if field == S_IFREG {
        FileType::Regular
    } else if field == S_IFSOCK {
        FileType::Socket
    } else {
        FileType::Unknown
    }
}

/// The short code of a classification, as a string slice of one character.
pub fn short_code_str(t: FileType) -> (r: &'static str)
    ensures
        r@ == seq![short_code(t)],
{
    match t {
        FileType::BlockDevice => {
            proof {
                reveal_strlit("b");
            }
            assert("b"@ =~= seq!['b']);
            "b"
        },
        FileType::CharDevice => {
            proof {
                reveal_strlit("c");
            }
            assert("c"@ =~= seq!['c']);
            "c"
        },
        FileType::Directory => {
            proof {
                reveal_strlit("d");
            }
            assert("d"@ =~= seq!['d']);
            "d"
        },
        FileType::Fifo => {
            proof {
                reveal_strlit("p");
            }
            assert("p"@ =~= seq!['p']);
            "p"
        },
        FileType::Symlink => {
            proof {
                reveal_strlit("l");
            }
            assert("l"@ =~= seq!['l']);
            "l"
        },
        FileType::Regular => {
            proof {
                reveal_strlit("-");
            }
            assert("-"@ =~= seq!['-']);
            "-"
        },
        FileType::Socket => {
            proof {
                reveal_strlit("s");
            }
            assert("s"@ =~= seq!['s']);
            "s"
        },
        FileType::Unknown => {
            proof {
                reveal_strlit("?");
            }
            assert("?"@ =~= seq!['?']);
            "?"
        },
    }
}

/// The long label of a classification, as a string slice.
pub fn long_label_str(t: FileType) -> (r: &'static str)
    ensures
        r@ == long_label(t),
{
    match t {
        FileType::BlockDevice => "block device",
        FileType::CharDevice => "character device",
        FileType::Directory => "directory",
        FileType::Fifo => "FIFO/pipe",
        FileType::Symlink => "symlink",
        FileType::Regular => "regular file",
        FileType::Socket => "socket",
        FileType::Unknown => "unknown?",
    }
}

/// Maps a mode bitmask to its textual file-type label: the one-character
/// short code if `short_form` is set, else the descriptive phrase. Every
/// mode value gets a label; an unrecognized type sub-field yields the
/// sentinel ("?" or "unknown?") instead of an error.
pub fn classify(mode: u32, short_form: bool) -> (r: String)
    ensures
        r@ == classify_label(mode, short_form),
{
    let t = classify_type(mode);
    if short_form {
        String::from_str(short_code_str(t))
    } else {
        String::from_str(long_label_str(t))
    }
}

} // verus!
