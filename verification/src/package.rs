//! Packages and their version ranges as the graph hands them out.
use vstd::prelude::*;

verus! {

/// A stored package row: the package URL's type, namespace and name.
#[derive(Debug)]
pub struct PackageModel {
    pub id: i32,
    pub package_type: String,
    pub namespace: Option<String>,
    pub name: String,
}

fn clone_optional(s: &Option<String>) -> (res: Option<String>)
    ensures
        res == *s,
{
    match s {
        Some(v) => Some(v.clone()),
        None => None,
    }
}

impl Clone for PackageModel {
    fn clone(&self) -> (res: Self)
        ensures
            res == *self,
    {
        PackageModel {
            id: self.id,
            package_type: self.package_type.clone(),
            namespace: clone_optional(&self.namespace),
            name: self.name.clone(),
        }
    }
}

/// A package as the graph hands it out.
#[derive(Debug)]
pub struct PackageContext {
    pub package: PackageModel,
}

impl Clone for PackageContext {
    fn clone(&self) -> (res: Self)
        ensures
            res == *self,
    {
        PackageContext { package: self.package.clone() }
    }
}

/// A stored version range of a package.
#[derive(Debug)]
pub struct PackageVersionRangeModel {
    pub id: i32,
    pub package_id: i32,
    pub start: String,
    pub end: String,
}

/// A version range together with its package.
#[derive(Debug)]
pub struct PackageVersionRangeContext {
    pub package: PackageContext,
    pub package_version_range: PackageVersionRangeModel,
}

impl<'a> From<(&'a PackageContext, PackageVersionRangeModel)> for PackageVersionRangeContext {
    fn from(parts: (&'a PackageContext, PackageVersionRangeModel)) -> (res: Self) {
        let (package, package_version_range) = parts;
        PackageVersionRangeContext { package: package.clone(), package_version_range }
    }
}

impl<'a> vstd::std_specs::convert::FromSpecImpl<(&'a PackageContext, PackageVersionRangeModel)> for PackageVersionRangeContext {
    open spec fn obeys_from_spec() -> bool {
        true
    }

    open spec fn from_spec(parts: (&'a PackageContext, PackageVersionRangeModel)) -> Self {
        PackageVersionRangeContext { package: *parts.0, package_version_range: parts.1 }
    }
}

} // verus!
