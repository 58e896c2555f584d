//! User registration and role lookup.

use vstd::prelude::*;
use crate::enums::UserRole;
use crate::errors::IrisError;
use crate::store::{Keyed, KeyedVec};

verus! {

/// A registered user: identity, role, and registration time.
#[derive(Debug)]
pub struct UserProfile {
    pub user_id: String,
    pub role: UserRole,
    pub created_at: u64,
}

impl Clone for UserProfile {
    fn clone(&self) -> (r: Self)
        ensures
            r == *self,
    {
        UserProfile { user_id: self.user_id.clone(), role: self.role, created_at: self.created_at }
    }
}

impl Keyed for UserProfile {
    open spec fn key(&self) -> Seq<char> {
        self.user_id@
    }

    fn key_eq(&self, key: &String) -> (r: bool)
        ensures
            r == (self.key() == key@),
    {
        self.user_id == *key
    }
}

/// A request to register a user under a role.
#[derive(Debug)]
pub struct RegisterUserRequest {
    pub role: UserRole,
}

/// The keyed store of user profiles.
pub struct UserStore {
    pub users: KeyedVec<UserProfile>,
}

impl UserStore {
    /// Keys are pairwise distinct.
    pub open spec fn wf(self) -> bool {
        self.users.wf()
    }

    /// The profile of user `u`, if one exists.
    pub open spec fn spec_get(self, u: Seq<char>) -> Option<UserProfile> {
        self.users.spec_get(u)
    }

    /// Whether user `u` is registered.
    pub open spec fn contains(self, u: Seq<char>) -> bool {
        self.users.contains_key(u)
    }

    /// An empty registry.
    pub fn new() -> (r: Self)
        ensures
            r.wf(),
            r.users.items@ == Seq::<UserProfile>::empty(),
            forall|k: Seq<char>| r.spec_get(k) is None,
    {
        UserStore { users: KeyedVec::new() }
    }

    /// Registers a user once; registering the same identity again fails
    /// with `AlreadyRegistered` and changes nothing.
    pub fn register_user(&mut self, user_id: &String, role: UserRole, now: u64) -> (r: Result<
        UserProfile,
        IrisError,
    >)
        requires
            old(self).wf(),
        ensures
            final(self).wf(),
            r is Ok <==> !old(self).contains(user_id@),
            r is Err ==> r == Err::<UserProfile, _>(IrisError::AlreadyRegistered) && final(self).users.items@ == old(self).users.items@,
            r matches Ok(p) ==> p.user_id == *user_id && p.role == role && p.created_at == now
                && final(self).users.items@ == old(self).users.items@.push(p) && final(self).spec_get(user_id@) == Some(p),
            forall|k: Seq<char>|
                k != user_id@ ==> final(self).spec_get(k) == old(self).spec_get(k),
    {
        match self.users.index_of(user_id) {
            Some(_) => Err(IrisError::AlreadyRegistered),
            None => {
                let profile = UserProfile { user_id: user_id.clone(), role, created_at: now };
                let copy = profile.clone();
                self.users.push_item(profile);
                Ok(copy)
            },
        }
    }

    /// The user's profile; `NotFound` when it was never registered.
    pub fn get_user_profile(&self, user_id: &String) -> (r: Result<UserProfile, IrisError>)
        requires
            self.wf(),
        ensures
            r matches Ok(p) ==> self.spec_get(user_id@) == Some(p),
            r is Err <==> !self.contains(user_id@),
            r is Err ==> r == Err::<UserProfile, _>(IrisError::NotFound),
    {
        match self.users.get(user_id) {
            Some(p) => Ok(p.clone()),
            None => Err(IrisError::NotFound),
        }
    }

    /// The role the user registered under; `NotFound` for an unregistered
    /// identity.
    pub fn get_user_role(&self, user_id: &String) -> (r: Result<UserRole, IrisError>)
        requires
            self.wf(),
        ensures
            self.spec_get(user_id@) matches Some(p) ==> r == Ok::<_, IrisError>(p.role),
            r is Err <==> !self.contains(user_id@),
            r is Err ==> r == Err::<UserRole, _>(IrisError::NotFound),
    {
        match self.users.get(user_id) {
            Some(p) => Ok(p.role),
            None => Err(IrisError::NotFound),
        }
    }
}

/// The welcome line shown to a caller.
pub open spec fn spec_greeting(name: Seq<char>) -> Seq<char> {
    "Hello, "@ + name + "! Welcome to Iris Bitcoin Payment System."@
}

/// Greets a caller by name.
pub fn greet(name: &String) -> (r: String)
    ensures
        r@ == spec_greeting(name@),
{
    let mut s = String::from_str("Hello, ");
    s.append(name.as_str());
    s.append("! Welcome to Iris Bitcoin Payment System.");
    proof {
        assert(s@ =~= spec_greeting(name@));
    }
    s
}

} // verus!
