//! The plain command value handed to a storage adapter when a user is
//! created.

use crate::users::validation::CreateUserParams;
use vstd::prelude::*;

verus! {

/// The creation fields of a user as one plain value, for a storage
/// adapter that wants them detached from the validated parameter type.
#[derive(Debug)]
pub struct CreateUserData {
    pub email: String,
    pub name: String,
}

impl CreateUserData {
    /// Copies the validated fields out of the parameter value.
    pub fn from_params(p: &CreateUserParams) -> (r: CreateUserData)
        ensures
            r.email@ == p@.email,
            r.name@ == p@.name,
    {
        CreateUserData { email: p.email().to_owned(), name: p.name().to_owned() }
    }
}

} // verus!
