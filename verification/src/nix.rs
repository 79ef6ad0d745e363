//! Package references: named OS or language packages with an optional
//! version pin, contributed by providers and consumed by the external
//! environment-expression generator.
use vstd::prelude::*;

verus! {

/// A named package with an optional version pin. Equality is by name and
/// version.
#[derive(Clone, Debug, PartialEq, Eq)]
pub struct Pkg {
    pub name: String,
    pub version: Option<String>,
}

impl Pkg {
    /// A package reference with no version pin.
    pub fn new(name: &str) -> (p: Pkg)
        ensures
            p.name@ == name@,
            p.version is None,
    {
        Pkg { name: name.to_owned(), version: None }
    }

    /// A package reference pinned to a version.
    pub fn with_version(name: &str, version: &str) -> (p: Pkg)
        ensures
            p.name@ == name@,
            p.version matches Some(v) && v@ == version@,
    {
        Pkg { name: name.to_owned(), version: Some(version.to_owned()) }
    }
}

} // verus!
