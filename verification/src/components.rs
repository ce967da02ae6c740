//! The builds on offer, as the component lists show them.

use crate::dxvk;
use crate::wine;
use vstd::prelude::*;
use vstd::std_specs::convert::FromSpecImpl;

verus! {

/// A list of components: where they are downloaded to, and the groups on
/// offer.
#[derive(Debug)]
pub struct ComponentsListPattern {
    pub download_folder: String,
    pub groups: Vec<ComponentsListGroup>,
}

/// One group of a list, with its builds in the order in which they are
/// offered.
#[derive(Debug)]
pub struct ComponentsListGroup {
    pub title: String,
    pub versions: Vec<ComponentsListVersion>,
}

/// One build of a list.
#[derive(Debug)]
pub struct ComponentsListVersion {
    pub title: String,
    pub uri: String,
    pub recommended: bool,
}

/// How a build of the compatibility layer is listed: under its title.
pub open spec fn listed_wine_version(version: wine::Version) -> ComponentsListVersion {
    ComponentsListVersion {
        title: version.title,
        uri: version.uri,
        recommended: version.recommended,
    }
}

/// How a build of the Direct3D layer is listed: under its name.
pub open spec fn listed_dxvk_version(version: dxvk::Version) -> ComponentsListVersion {
    ComponentsListVersion {
        title: version.name,
        uri: version.uri,
        recommended: version.recommended,
    }
}

impl From<wine::Version> for ComponentsListVersion {
    fn from(version: wine::Version) -> (listed: ComponentsListVersion)
        ensures
            listed == listed_wine_version(version),
    {
        ComponentsListVersion {
            title: version.title,
            uri: version.uri,
            recommended: version.recommended,
        }
    }
}

impl FromSpecImpl<wine::Version> for ComponentsListVersion {
    open spec fn obeys_from_spec() -> bool {
        true
    }

    open spec fn from_spec(version: wine::Version) -> ComponentsListVersion {
        listed_wine_version(version)
    }
}

impl From<dxvk::Version> for ComponentsListVersion {
    fn from(version: dxvk::Version) -> (listed: ComponentsListVersion)
        ensures
            listed == listed_dxvk_version(version),
    {
        ComponentsListVersion {
            title: version.name,
            uri: version.uri,
            recommended: version.recommended,
        }
    }
}

impl FromSpecImpl<dxvk::Version> for ComponentsListVersion {
    open spec fn obeys_from_spec() -> bool {
        true
    }

    open spec fn from_spec(version: dxvk::Version) -> ComponentsListVersion {
        listed_dxvk_version(version)
    }
}

/// A list is told by its contents, which the contract of `from` states;
/// equality of two lists as values says nothing of them.
impl FromSpecImpl<wine::Group> for ComponentsListGroup {
    open spec fn obeys_from_spec() -> bool {
        false
    }

    open spec fn from_spec(group: wine::Group) -> ComponentsListGroup {
        arbitrary()
    }
}

impl From<wine::Group> for ComponentsListGroup {
    /// The group under its name, with every build listed, in order.
    fn from(group: wine::Group) -> (listed: ComponentsListGroup)
        ensures
            listed.title == group.name,
            listed.versions@ == group.versions@.map_values(
                |version: wine::Version| listed_wine_version(version),
            ),
    {
        let wine::Group { name, versions } = group;
        let ghost all = versions@;
        let mut listed: Vec<ComponentsListVersion> = Vec::new();
        for version in each: versions.into_iter()
            invariant
                each.seq() == all,
                listed@ == all.take(each.index() as int).map_values(
                    |version: wine::Version| listed_wine_version(version),
                ),
        {
            listed.push(ComponentsListVersion::from(version));
        }
        ComponentsListGroup { title: name, versions: listed }
    }
}

/// A list is told by its contents, which the contract of `from` states;
/// equality of two lists as values says nothing of them.
impl FromSpecImpl<dxvk::Group> for ComponentsListGroup {
    open spec fn obeys_from_spec() -> bool {
        false
    }

    open spec fn from_spec(group: dxvk::Group) -> ComponentsListGroup {
        arbitrary()
    }
}

impl From<dxvk::Group> for ComponentsListGroup {
    /// The group under its name, with every build listed, in order.
    fn from(group: dxvk::Group) -> (listed: ComponentsListGroup)
        ensures
            listed.title == group.name,
            listed.versions@ == group.versions@.map_values(
                |version: dxvk::Version| listed_dxvk_version(version),
            ),
    {
        let dxvk::Group { name, versions } = group;
        let ghost all = versions@;
        let mut listed: Vec<ComponentsListVersion> = Vec::new();
        for version in each: versions.into_iter()
            invariant
                each.seq() == all,
                listed@ == all.take(each.index() as int).map_values(
                    |version: dxvk::Version| listed_dxvk_version(version),
                ),
        {
            listed.push(ComponentsListVersion::from(version));
        }
        ComponentsListGroup { title: name, versions: listed }
    }
}

} // verus!
