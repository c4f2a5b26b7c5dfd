//! The body of a login request.

use vstd::prelude::*;

verus! {

/// The credentials of a login.
#[derive(Debug, Clone, PartialEq, Eq)]
pub struct LoginSchema {
    pub email: String,
    pub password: String,
}

} // verus!
