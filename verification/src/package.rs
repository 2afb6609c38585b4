//! Resolution of the package that holds the notarization contracts.
//!
//! Which package is deployed on which network is kept by a registry outside this crate.
//! The functions here decide what follows from what the registry answered.

use crate::error::failure;
use crate::error::Error;
use crate::error::ErrorKind;
use crate::error::ErrorView;
use crate::types::object::ObjectID;
use vstd::prelude::*;
use vstd::string::StringExecFns;

verus! {

/// The package registered for a network, or the failure that is reported when none is.
pub open spec fn registered_package(network: Seq<char>, registered: Option<ObjectID>) -> Result<
    ObjectID,
    ErrorView,
> {
    match registered {
        Some(package_id) => Ok(package_id),
        None => Err(
            failure(
                ErrorKind::InvalidConfig,
                "cannot find Notarization package ID for network "@ + network,
            ),
        ),
    }
}

/// Returns the package ID for the notarization package on `network`, given what the
/// registry holds for that network.
pub fn notarization_package_id(network: &str, registered: Option<ObjectID>) -> (package: Result<
    ObjectID,
    Error,
>)
    ensures
        match package {
            Ok(found) => registered_package(network@, registered) == Ok::<ObjectID, ErrorView>(
                found,
            ),
            Err(error) => registered_package(network@, registered) == Err::<ObjectID, ErrorView>(
                error@,
            ),
        },
{
    match registered {
        Some(package_id) => Ok(package_id),
        None => Err(
            Error::InvalidConfig(
                String::from_str("cannot find Notarization package ID for network ").concat(
                    network,
                ),
            ),
        ),
    }
}

} // verus!
