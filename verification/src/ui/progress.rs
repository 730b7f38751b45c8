//! The Progress Lens's command badge: which family of maintenance command
//! an in-flight operation belongs to (its color in the table).
use vstd::prelude::*;
use crate::text::{occurs_at, str_starts_with, to_uppercase, unicode_uppercase};

verus! {

/// Families of maintenance commands, told apart by the command's leading
/// words whatever their case.
#[derive(Clone, Copy, Debug, PartialEq, Eq, Structural)]
pub enum CommandClass {
    Vacuum,
    Index,
    Cluster,
    Analyze,
    Other,
}

pub open spec fn command_class_of(command: Seq<char>) -> CommandClass {
    let up = unicode_uppercase(command);
    if occurs_at(up, "VACUUM"@, 0) {
        CommandClass::Vacuum
    } else if occurs_at(up, "CREATE INDEX"@, 0) || occurs_at(up, "REINDEX"@, 0) {
        CommandClass::Index
    } else if occurs_at(up, "CLUSTER"@, 0) {
        CommandClass::Cluster
    } else if occurs_at(up, "ANALYZE"@, 0) {
        CommandClass::Analyze
    } else {
        CommandClass::Other
    }
}

pub fn command_class(command: &str) -> (r: CommandClass)
    ensures
        r == command_class_of(command@),
{
    let up = to_uppercase(command);
    let u = up.as_str();
    if str_starts_with(u, "VACUUM") {
        CommandClass::Vacuum
    } else if str_starts_with(u, "CREATE INDEX") || str_starts_with(u, "REINDEX") {
        CommandClass::Index
    } else if str_starts_with(u, "CLUSTER") {
        CommandClass::Cluster
    } else if str_starts_with(u, "ANALYZE") {
        CommandClass::Analyze
    } else {
        CommandClass::Other
    }
}

} // verus!
