//! Caller identity.

use vstd::prelude::*;

verus! {

/// The identity of the acting user, pre-validated by an external auth
/// collaborator and trusted as-is.
#[derive(Debug)]
pub struct UserCtx {
    pub user_id: String,
}

impl Clone for UserCtx {
    fn clone(&self) -> (res: Self)
        ensures
            res == self,
    {
        UserCtx { user_id: self.user_id.clone() }
    }
}

} // verus!
