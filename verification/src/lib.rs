//! Reports detailed metadata about filesystem entries: given a raw,
//! numerically-encoded status record, this library classifies the entry's
//! type, builds the ten-character permission string (with the
//! setuid/setgid/sticky overlay rules), resolves numeric ownership ids to
//! symbolic names, formats timestamps, and assembles the full multi-line
//! report. The transformation from record to report is verified; the
//! operating-system queries themselves (status record, identity database,
//! calendar rendering) are external collaborators.

pub mod classify;
pub mod errors;
pub mod flags;
pub mod ident;
pub mod numfmt;
pub mod perms;
pub mod report;
pub mod timefmt;
