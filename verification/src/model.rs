//! The data model: one record per resolved package, and the lockfile as an
//! ordered sequence of records.

use vstd::prelude::*;

verus! {

/// One resolved dependency, as recorded in the lockfile.
///
/// `optional` is part of the schema but is never consulted when the
/// manifest is generated; it is kept so that a record carries everything
/// the source document states about it.
#[derive(Debug, PartialEq)]
pub struct Package {
    /// Grouping label; `"main"` and `"dev"` are the recognized values.
    pub category: String,
    /// Free-text description; not used in output.
    pub description: String,
    /// Distribution name.
    pub name: String,
    /// Present in the schema, currently inert.
    pub optional: bool,
    /// Interpreter-version constraint: the wildcard `"*"` or a
    /// comma-separated list of comparison clauses.
    pub python_versions: String,
    /// Exact resolved version, used verbatim.
    pub version: String,
}

/// Mathematical model of a package record: each string field as a
/// sequence of characters.
#[verifier::ext_equal]
pub struct PackageView {
    pub category: Seq<char>,
    pub description: Seq<char>,
    pub name: Seq<char>,
    pub optional: bool,
    pub python_versions: Seq<char>,
    pub version: Seq<char>,
}

impl View for Package {
    type V = PackageView;

    open spec fn view(&self) -> PackageView {
        PackageView {
            category: self.category@,
            description: self.description@,
            name: self.name@,
            optional: self.optional,
            python_versions: self.python_versions@,
            version: self.version@,
        }
    }
}

/// An ordered list of package records, as deserialized from one lockfile.
/// Order is preserved from the source document.
#[derive(Debug, PartialEq)]
pub struct LockFile {
    pub package: Vec<Package>,
}

impl View for LockFile {
    type V = Seq<PackageView>;

    open spec fn view(&self) -> Seq<PackageView> {
        Seq::new(self.package@.len(), |i: int| self.package@[i]@)
    }
}

} // verus!
