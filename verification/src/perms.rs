//! The permission-string builder: maps a mode bitmask to the conventional
//! ten-character string, e.g. `-rwxr-xr-t`. Position 0 is the file type's
//! short code; positions 1 to 9 are the rwx triplets of owner, group and
//! other, each execute slot overlaid by that class's own special bit
//! (setuid, setgid, sticky): execute and special both set gives the
//! lowercase overlay ('s'/'s'/'t'), special without execute the uppercase
//! one ('S'/'S'/'T'), execute alone 'x', neither '-'.

use vstd::prelude::*;

use vstd::string::StringExecFns;

use crate::classify::{classify_type, file_type_of, short_code, short_code_str};
use crate::flags::{
    bit_set, PERM_MASK, S_IFMT, S_IRGRP, S_IROTH, S_IRUSR, S_ISGID, S_ISUID, S_ISVTX, S_IWGRP, S_IWOTH, S_IWUSR,
    S_IXGRP, S_IXOTH, S_IXUSR,
};

verus! {

/// The character of a plain read or write slot: the flag's own letter when
/// the bit is set, '-' otherwise.
pub open spec fn flag_char(set: bool, on: char) -> char {
    if set {
        on
    } else {
        '-'
    }
}

/// The character of an execute slot overlaid by a special bit, per the four
/// combinations of (execute set, special set).
pub open spec fn overlay_char(exec_set: bool, special_set: bool, low: char, up: char) -> char {
    if special_set {
        if exec_set {
            low
        } else {
            up
        }
    } else {
        if exec_set {
            'x'
        } else {
            '-'
        }
    }
}

/// The full ten-character permission string of a mode bitmask.
pub open spec fn perm_string(mode: u32) -> Seq<char> {
    seq![
        short_code(file_type_of(mode)),
        flag_char(bit_set(mode, S_IRUSR), 'r'),
        flag_char(bit_set(mode, S_IWUSR), 'w'),
        overlay_char(bit_set(mode, S_IXUSR), bit_set(mode, S_ISUID), 's', 'S'),
        flag_char(bit_set(mode, S_IRGRP), 'r'),
        flag_char(bit_set(mode, S_IWGRP), 'w'),
        overlay_char(bit_set(mode, S_IXGRP), bit_set(mode, S_ISGID), 's', 'S'),
        flag_char(bit_set(mode, S_IROTH), 'r'),
        flag_char(bit_set(mode, S_IWOTH), 'w'),
        overlay_char(bit_set(mode, S_IXOTH), bit_set(mode, S_ISVTX), 't', 'T'),
    ]
}

/// The permission string reads only the mode's type sub-field and its
/// permission-and-special bits — exactly the bits the report prints in
/// octal — so the printed octal value and the permission string always
/// describe the same mode bits.
pub proof fn lemma_perm_string_reads_only_masked_bits(m1: u32, m2: u32)
    requires
        m1 & S_IFMT == m2 & S_IFMT,
        m1 & PERM_MASK == m2 & PERM_MASK,
    ensures
        perm_string(m1) == perm_string(m2),
{
    assert(((m1 & 0o170000u32 == m2 & 0o170000u32) && (m1 & 0o7777u32 == m2 & 0o7777u32)) ==> (((
    m1 & 0o400u32 != 0) == (m2 & 0o400u32 != 0)) && ((m1 & 0o200u32 != 0) == (m2 & 0o200u32 != 0))
        && ((m1 & 0o100u32 != 0) == (m2 & 0o100u32 != 0)) && ((m1 & 0o4000u32 != 0) == (m2
        & 0o4000u32 != 0)) && ((m1 & 0o40u32 != 0) == (m2 & 0o40u32 != 0)) && ((m1 & 0o20u32 != 0)
        == (m2 & 0o20u32 != 0)) && ((m1 & 0o10u32 != 0) == (m2 & 0o10u32 != 0)) && ((m1 & 0o2000u32
        != 0) == (m2 & 0o2000u32 != 0)) && ((m1 & 0o4u32 != 0) == (m2 & 0o4u32 != 0)) && ((m1
        & 0o2u32 != 0) == (m2 & 0o2u32 != 0)) && ((m1 & 0o1u32 != 0) == (m2 & 0o1u32 != 0)) && ((m1
        & 0o1000u32 != 0) == (m2 & 0o1000u32 != 0)))) by (bit_vector);
    assert(perm_string(m1) =~= perm_string(m2));
}

/// Picks `s1` when any bit of `target` is set in `mode`, else `s2`.
fn bits_cmp(mode: u32, target: u32, s1: &'static str, s2: &'static str) -> (r: &'static str)
    ensures
        r == if bit_set(mode, target) {
            s1
        } else {
            s2
        },
{
    if mode & target != 0 {
        s1
    } else {
        s2
    }
}

/// The read or write slot of one class, as a one-character string.
fn flag_str(mode: u32, target: u32, on: &'static str) -> (r: &'static str)
    requires
        on@.len() == 1,
    ensures
        r@ == seq![flag_char(bit_set(mode, target), on@[0])],
{
    let r = bits_cmp(mode, target, on, "-");
    proof {
        reveal_strlit("-");
        assert("-"@ =~= seq!['-']);
        assert(on@ =~= seq![on@[0]]);
    }
    r
}

/// The execute slot of one class, overlaid by that class's special bit.
fn overlay_str(
    mode: u32,
    exec_bit: u32,
    special_bit: u32,
    low: &'static str,
    up: &'static str,
) -> (r: &'static str)
    requires
        low@.len() == 1,
        up@.len() == 1,
    ensures
        r@ == seq![
            overlay_char(bit_set(mode, exec_bit), bit_set(mode, special_bit), low@[0], up@[0]),
        ],
{
    let r = bits_cmp(mode, special_bit, bits_cmp(mode, exec_bit, low, up), bits_cmp(
        mode,
        exec_bit,
        "x",
        "-",
    ));
    proof {
        reveal_strlit("x");
        reveal_strlit("-");
        assert("x"@ =~= seq!['x']);
        assert("-"@ =~= seq!['-']);
        assert(low@ =~= seq![low@[0]]);
        assert(up@ =~= seq![up@[0]]);
    }
    r
}

/// Builds the ten-character permission string of a mode bitmask: the short
/// type code, then the owner, group and other triplets with the
/// setuid/setgid/sticky overlays.
pub fn build_permission_string(mode: u32) -> (r: String)
    ensures
        r@ == perm_string(mode),
        r@.len() == 10,
{
    let mut s = String::from_str(short_code_str(classify_type(mode)));
    proof {
        reveal_strlit("r");
        reveal_strlit("w");
        reveal_strlit("s");
        reveal_strlit("S");
        reveal_strlit("t");
        reveal_strlit("T");
    }
    s.append(flag_str(mode, S_IRUSR, "r"));
    s.append(flag_str(mode, S_IWUSR, "w"));
    s.append(overlay_str(mode, S_IXUSR, S_ISUID, "s", "S"));
    s.append(flag_str(mode, S_IRGRP, "r"));
    s.append(flag_str(mode, S_IWGRP, "w"));
    s.append(overlay_str(mode, S_IXGRP, S_ISGID, "s", "S"));
    s.append(flag_str(mode, S_IROTH, "r"));
    s.append(flag_str(mode, S_IWOTH, "w"));
    s.append(overlay_str(mode, S_IXOTH, S_ISVTX, "t", "T"));
    proof {
        assert(s@ =~= perm_string(mode));
    }
    s
}

} // verus!
