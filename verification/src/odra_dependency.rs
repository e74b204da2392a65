//! The framework dependency of a project, as its manifest names it.

use crate::cargo_toml::{dep_named, find_dependency, Dependency, Manifest};
use crate::consts::ODRA_CRATE_NAME;
use crate::errors::{Error, ErrorKind};
use vstd::prelude::*;
use vstd::string::*;

verus! {

/// The dependency on the framework among the manifest's own dependencies;
/// a manifest without one is a failure.
pub fn odra_dependency(manifest: &Manifest) -> (r: Result<Dependency, Error>)
    ensures
        match dep_named(manifest@.dependencies, ODRA_CRATE_NAME@) {
            Some(dep) => r is Ok && r->Ok_0@ == dep,
            None => r is Err && r->Err_0@ == (ErrorKind::OdraNotADependency, Seq::<char>::empty()),
        },
{
    match find_dependency(&manifest.dependencies, ODRA_CRATE_NAME) {
        Some(i) => {
            assert(manifest.dependencies.deep_view()[i as int] == (
                manifest.dependencies[i as int].0@,
                manifest.dependencies[i as int].1@,
            ));
            Ok(manifest.dependencies[i].1.duplicate())
        },
        None => Err(Error::OdraNotADependency),
    }
}

} // verus!
