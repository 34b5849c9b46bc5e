//! The identity resolver: maps numeric user and group ids to symbolic
//! names. The host's identity database is consulted through one lookup call
//! per id; an id with no entry (or a database that cannot be read) falls
//! back to the decimal rendering of the id itself, so a missing identity
//! never aborts a report.

use vstd::prelude::*;

use crate::numfmt::{dec_seq, u64_to_dec};

verus! {

/// Relies on nix's `User::from_uid` (getpwuid_r): queries the host's user
/// database for the id and yields the entry's name. Which name — or whether
/// any — comes back depends on that database, so nothing is promised of the
/// outcome; a lookup failure and an absent entry are both `None`.
#[verifier::external_body]
fn lookup_user_name(uid: u32) -> (r: Option<String>) {
    match nix::unistd::User::from_uid(nix::unistd::Uid::from_raw(uid)) {
        Ok(Some(user)) => Some(user.name),
        _ => None,
    }
}

/// Relies on nix's `Group::from_gid` (getgrgid_r): queries the host's group
/// database for the id and yields the entry's name. Which name — or whether
/// any — comes back depends on that database, so nothing is promised of the
/// outcome; a lookup failure and an absent entry are both `None`.
#[verifier::external_body]
fn lookup_group_name(gid: u32) -> (r: Option<String>) {
    match nix::unistd::Group::from_gid(nix::unistd::Gid::from_raw(gid)) {
        Ok(Some(group)) => Some(group.name),
        _ => None,
    }
}

/// The symbolic name an id resolves to, given what the database lookup
/// produced: the looked-up name when there is one, else the decimal
/// rendering of the id itself.
pub fn name_or_fallback(id: u32, looked_up: Option<String>) -> (r: String)
    ensures
        looked_up matches Some(name) ==> r@ == name@,
        looked_up is None ==> r@ == dec_seq(id as nat),
{
    match looked_up {
        Some(name) => name,
        None => u64_to_dec(id as u64),
    }
}

/// Resolves a numeric user id to a symbolic name via one lookup against the
/// host's user database, falling back to the decimal id when the database
/// has no entry. The name returned depends on the host's database;
/// `name_or_fallback` states exactly how each possible lookup outcome is
/// turned into the result.
pub fn resolve_user_name(uid: u32) -> String {
    name_or_fallback(uid, lookup_user_name(uid))
}

/// Resolves a numeric group id to a symbolic name via one lookup against
/// the host's group database, falling back to the decimal id when the
/// database has no entry. The name returned depends on the host's database;
/// `name_or_fallback` states exactly how each possible lookup outcome is
/// turned into the result.
pub fn resolve_group_name(gid: u32) -> String {
    name_or_fallback(gid, lookup_group_name(gid))
}

} // verus!
