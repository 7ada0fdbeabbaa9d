//! User account rows and their manager.

use vstd::prelude::*;

use crate::models::auth::UserCtx;
use crate::models::Error;

verus! {

/// One user account row.
#[derive(Debug)]
pub struct User {
    pub supabase_id: String,
    pub email: String,
    pub first_name: String,
    pub last_name: String,
}

impl Clone for User {
    fn clone(&self) -> (res: Self)
        ensures
            res == self,
    {
        User {
            supabase_id: self.supabase_id.clone(),
            email: self.email.clone(),
            first_name: self.first_name.clone(),
            last_name: self.last_name.clone(),
        }
    }
}

/// A partial user update: only present fields overwrite the stored row.
#[derive(Debug)]
pub struct UserPatch {
    pub email: Option<String>,
    pub first_name: Option<String>,
    pub last_name: Option<String>,
}

impl UserPatch {
    /// A patch counts as empty when none of its fields is present.
    pub open spec fn spec_is_empty(&self) -> bool {
        self.email is None && self.first_name is None && self.last_name is None
    }

    #[verifier::when_used_as_spec(spec_is_empty)]
    pub fn is_empty(&self) -> (r: bool)
        ensures
            r == self.spec_is_empty(),
    {
        self.email.is_none() && self.first_name.is_none() && self.last_name.is_none()
    }
}

/// The user manager: every decision it takes about user rows.
pub struct UserManager;

impl UserManager {
    /// Decide a create request. An empty patch is rejected; a request whose
    /// email is already bound to an account (`existing` is the row a lookup
    /// by that email found) is refused; otherwise the new row takes the
    /// caller's identity, and every absent field comes out empty. When the
    /// request names no email, no lookup happens and `existing` plays no part.
    pub fn create(utx: UserCtx, data: UserPatch, existing: Option<User>) -> (r: Result<
        User,
        Error,
    >)
        ensures
            data.spec_is_empty() ==> (r matches Err(e) && e is MissingData),
            !data.spec_is_empty() && data.email is Some && existing is Some ==> (r matches Err(e)
                && e matches Error::EmailTaken(m) && m == data.email->0),
            !data.spec_is_empty() && (data.email is None || existing is None) ==> (r matches Ok(u)
                && u.supabase_id == utx.user_id && u.email@ == (if data.email is Some {
                data.email->0@
            } else {
                Seq::<char>::empty()
            }) && u.first_name@ == (if data.first_name is Some {
                data.first_name->0@
            } else {
                Seq::<char>::empty()
            }) && u.last_name@ == (if data.last_name is Some {
                data.last_name->0@
            } else {
                Seq::<char>::empty()
            })),
    {
        if data.is_empty() {
            return Err(Error::MissingData);
        }
        let email = match data.email {
            Some(email) => {
                if existing.is_some() {
                    return Err(Error::EmailTaken(email));
                }
                email
            },
            None => String::new(),
        };
        let first_name = match data.first_name {
            Some(first_name) => first_name,
            None => String::new(),
        };
        let last_name = match data.last_name {
            Some(last_name) => last_name,
            None => String::new(),
        };
        Ok(User { supabase_id: utx.user_id, email, first_name, last_name })
    }

    /// Merge a patch into the caller's own row: a present field overwrites
    /// the stored value, an absent field leaves it unchanged. The row is the
    /// one the store holds under the caller's identity.
    pub fn update(utx: UserCtx, current: User, data: UserPatch) -> (r: User)
        requires
            current.supabase_id@ == utx.user_id@,
        ensures
            r.supabase_id == current.supabase_id,
            r.email == (if data.email is Some {
                data.email->0
            } else {
                current.email
            }),
            r.first_name == (if data.first_name is Some {
                data.first_name->0
            } else {
                current.first_name
            }),
            r.last_name == (if data.last_name is Some {
                data.last_name->0
            } else {
                current.last_name
            }),
    {
        let email = match data.email {
            Some(email) => email,
            None => current.email,
        };
        let first_name = match data.first_name {
            Some(first_name) => first_name,
            None => current.first_name,
        };
        let last_name = match data.last_name {
            Some(last_name) => last_name,
            None => current.last_name,
        };
        User { supabase_id: current.supabase_id, email, first_name, last_name }
    }

    /// Replace only the email of the caller's own row.
    pub fn update_email(utx: UserCtx, current: User, email: String) -> (r: User)
        requires
            current.supabase_id@ == utx.user_id@,
        ensures
            r.supabase_id == current.supabase_id,
            r.email == email,
            r.first_name == current.first_name,
            r.last_name == current.last_name,
    {
        User {
            supabase_id: current.supabase_id,
            email,
            first_name: current.first_name,
            last_name: current.last_name,
        }
    }

    /// Replace only the first name of the caller's own row.
    pub fn update_first_name(utx: UserCtx, current: User, first_name: String) -> (r: User)
        requires
            current.supabase_id@ == utx.user_id@,
        ensures
            r.supabase_id == current.supabase_id,
            r.email == current.email,
            r.first_name == first_name,
            r.last_name == current.last_name,
    {
        User {
            supabase_id: current.supabase_id,
            email: current.email,
            first_name,
            last_name: current.last_name,
        }
    }

    /// Replace only the last name of the caller's own row.
    pub fn update_last_name(utx: UserCtx, current: User, last_name: String) -> (r: User)
        requires
            current.supabase_id@ == utx.user_id@,
        ensures
            r.supabase_id == current.supabase_id,
            r.email == current.email,
            r.first_name == current.first_name,
            r.last_name == last_name,
    {
        User {
            supabase_id: current.supabase_id,
            email: current.email,
            first_name: current.first_name,
            last_name,
        }
    }

    /// A delete always targets the row the store holds under the caller's own
    /// identity, and hands that row back.
    pub fn delete(utx: UserCtx, current: User) -> (r: User)
        requires
            current.supabase_id@ == utx.user_id@,
        ensures
            r == current,
    {
        current
    }
}

} // verus!
