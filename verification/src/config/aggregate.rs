//! Project metadata.

use vstd::prelude::*;
use vstd::string::*;

verus! {

/// Metadata of a project configuration.
#[derive(Debug, Clone)]
pub struct ProjectMeta {
    /// Display name of the project.
    pub name: String,
    /// Version string.
    pub version: String,
    /// Author.
    pub author: String,
}

impl Default for ProjectMeta {
    /// An untitled project, version 0.1.0, by an anonymous author.
    fn default() -> (r: Self)
        ensures
            r.name@ == "Untitled Project"@,
            r.version@ == "0.1.0"@,
            r.author@ == "Anonymous"@,
    {
        ProjectMeta {
            name: String::from_str("Untitled Project"),
            version: String::from_str("0.1.0"),
            author: String::from_str("Anonymous"),
        }
    }
}

} // verus!
