//! The catalog of Direct3D-layer builds on offer.

use vstd::prelude::*;

verus! {

/// One build on offer.
#[derive(Debug)]
pub struct Version {
    pub name: String,
    pub uri: String,
    pub recommended: bool,
}

/// A named family of builds, in the order in which they are offered.
#[derive(Debug)]
pub struct Group {
    pub name: String,
    pub versions: Vec<Version>,
}

} // verus!
