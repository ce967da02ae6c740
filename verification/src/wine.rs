//! The catalog of compatibility-layer builds on offer.

use vstd::prelude::*;

verus! {

/// One build on offer.
#[derive(Debug)]
pub struct Version {
    pub name: String,
    pub title: String,
    pub uri: String,
    pub recommended: bool,
}

/// A named family of builds, in the order in which they are offered.
#[derive(Debug)]
pub struct Group {
    pub name: String,
    pub versions: Vec<Version>,
}

impl Clone for Version {
    fn clone(&self) -> (copy: Version)
        ensures
            copy == *self,
    {
        Version {
            name: self.name.clone(),
            title: self.title.clone(),
            uri: self.uri.clone(),
            recommended: self.recommended,
        }
    }
}

/// Whether the build at position `i` of group `g` is called `name`.
pub open spec fn named_at(groups: Seq<Group>, name: Seq<char>, g: int, i: int) -> bool {
    &&& 0 <= g < groups.len()
    &&& 0 <= i < groups[g].versions@.len()
    &&& groups[g].versions@[i].name@ == name
}

/// Whether the build at position `i` of group `g` is the first one called
/// `name`, going through the groups in order and through each group's builds
/// in order.
pub open spec fn first_named_at(groups: Seq<Group>, name: Seq<char>, g: int, i: int) -> bool {
    &&& named_at(groups, name, g, i)
    &&& forall|h: int, j: int| #[trigger]
        named_at(groups, name, h, j) ==> g < h || (g == h && i <= j)
}

/// Whether `version` is the first build called `name`.
pub open spec fn is_first_named(groups: Seq<Group>, name: Seq<char>, version: Version) -> bool {
    exists|g: int, i: int| #[trigger]
        first_named_at(groups, name, g, i) && version == groups[g].versions@[i]
}

/// Whether any build is called `name`.
pub open spec fn offers(groups: Seq<Group>, name: Seq<char>) -> bool {
    exists|g: int, i: int| named_at(groups, name, g, i)
}

/// The first build called `name`, if any build is.
pub fn find_version<'a>(groups: &'a Vec<Group>, name: &String) -> (found: Option<&'a Version>)
    ensures
        match found {
            Some(version) => is_first_named(groups@, name@, *version),
            None => !offers(groups@, name@),
        },
{
    let mut g: usize = 0;
    while g < groups.len()
        invariant
            g <= groups@.len(),
            forall|h: int, j: int| h < g ==> !named_at(groups@, name@, h, j),
        decreases groups@.len() - g,
    {
        let versions = &groups[g].versions;
        let mut i: usize = 0;
        while i < versions.len()
            invariant
                g < groups@.len(),
                *versions == groups@[g as int].versions,
                i <= versions@.len(),
                forall|h: int, j: int| h < g ==> !named_at(groups@, name@, h, j),
                forall|j: int| j < i ==> !named_at(groups@, name@, g as int, j),
            decreases versions@.len() - i,
        {
            if versions[i].name == *name {
                assert(first_named_at(groups@, name@, g as int, i as int));
                return Some(&versions[i]);
            }
            i += 1;
        }
        g += 1;
    }
    None
}

/// At most one build is the first one called `name`.
pub proof fn lemma_first_named_unique(
    groups: Seq<Group>,
    name: Seq<char>,
    g: int,
    i: int,
    h: int,
    j: int,
)
    requires
        first_named_at(groups, name, g, i),
        first_named_at(groups, name, h, j),
    ensures
        g == h,
        i == j,
{
}

} // verus!
