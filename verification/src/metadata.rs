//! What the package says of itself.

use vstd::prelude::*;
use crate::text::{owned, pieces, pieces_of, views_of};

verus! {

/// The package's own description, as it was built.
#[derive(Debug, PartialEq, Eq)]
pub struct MetaData {
    pub crate_name: String,
    pub manifest_dir: String,
    pub authors: Vec<String>,
    pub description: String,
    pub homepage: String,
    pub pkg_name: String,
    pub pkg_repo: String,
    pub pkg_version: String,
    pub pkg_version_major: String,
    pub pkg_version_minor: String,
    pub pkg_version_patch: String,
    pub pkg_version_pre: String,
}

/// The authors of a package, which names them in one text with commas
/// between them.
pub fn authors(listed: &str) -> (r: Vec<String>)
    ensures
        views_of(r@) == pieces_of(listed@, ','),
{
    pieces(listed, ',')
}

/// What is printed where the version is asked for: the package's name and
/// its version.
pub fn version_line(metadata: &MetaData) -> (r: String)
    ensures
        r@ == metadata.pkg_name@ + " "@ + metadata.pkg_version@,
{
    let mut r = owned(metadata.pkg_name.as_str());
    r.append(" ");
    r.append(metadata.pkg_version.as_str());
    r
}

} // verus!
