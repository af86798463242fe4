//! The version of the GBox repository schema.
use vstd::prelude::*;

verus! {

/// A schema version, as a repository writes it.
#[derive(Debug, Clone, PartialEq, Eq, Hash)]
pub struct SchemaVersion(String);

impl View for SchemaVersion {
    type V = Seq<char>;

    closed spec fn view(&self) -> Seq<char> {
        self.0@
    }
}

impl SchemaVersion {
    /// The schema version that this library writes: `1.1.2`.
    pub fn current() -> (res: SchemaVersion)
        ensures
            res@ == "1.1.2"@,
    {
        SchemaVersion("1.1.2".to_owned())
    }

    /// A schema version as read from a repository.
    pub fn new(version: String) -> (res: SchemaVersion)
        ensures
            res@ == version@,
    {
        SchemaVersion(version)
    }

    /// The version text.
    pub fn as_str(&self) -> (res: &str)
        ensures
            res@ == self@,
    {
        self.0.as_str()
    }
}

impl Default for SchemaVersion {
    /// The current schema version.
    fn default() -> (res: SchemaVersion)
        ensures
            res@ == "1.1.2"@,
    {
        SchemaVersion::current()
    }
}

} // verus!
