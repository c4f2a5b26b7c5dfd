//! Issuing session tokens with the secret of the deployment.

use vstd::prelude::*;

use crate::auth::jwt::{issued_token, token_for_reading, token_result_view, TokenError};

verus! {

/// A session token for `user_id`, signed with `secret` (the deployment's
/// `JWT_SECRET_KEY`), issued now and valid for one hour: the same
/// `token_for_reading` as `auth::jwt::generate_token` gives at the clock
/// reading taken, so the two agree whenever they read the same second.
pub fn generate_token(user_id: u128, secret: &str) -> (r: Result<String, TokenError>)
    ensures
        exists|reading: Option<u64>| token_result_view(r) == #[trigger] token_for_reading(user_id, secret@, reading),
        r matches Ok(t) ==> issued_token(t@, user_id, secret@),
{
    crate::auth::jwt::generate_token(user_id, secret)
}

} // verus!
