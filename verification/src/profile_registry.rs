//! User profiles: a display name of 1 to 64 bytes and a bio of at most 512
//! bytes per address.
use vstd::prelude::*;
use std::collections::HashMap;
use crate::common::{Address, Text, text_copy};

verus! {

broadcast use vstd::std_specs::hash::group_hash_axioms;

pub const MAX_NAME_LEN: usize = 64;
pub const MAX_BIO_LEN: usize = 512;

#[derive(Clone, Debug)]
pub struct UserProfile {
    pub name: Text,
    pub bio: Text,
}

#[derive(Clone, Copy, Debug, PartialEq, Eq, Structural)]
pub enum ProfileError {
    NameEmpty,
    NameTooLong,
    BioTooLong,
    ProfileNotFound,
}

/// The registry's storage: one profile per address.
pub struct ProfileRegistry {
    pub profiles: HashMap<Address, UserProfile>,
}

impl ProfileRegistry {
    pub fn new() -> (s: Self)
        ensures
            s.profiles@ == Map::<Address, UserProfile>::empty(),
    {
        ProfileRegistry { profiles: HashMap::new() }
    }

    /// Why `set_profile` fails, if it does.
    pub open spec fn profile_error(name: Seq<u8>, bio: Seq<u8>) -> Option<ProfileError> {
        if name.len() == 0 {
            Some(ProfileError::NameEmpty)
        } else if name.len() > MAX_NAME_LEN {
            Some(ProfileError::NameTooLong)
        } else if bio.len() > MAX_BIO_LEN {
            Some(ProfileError::BioTooLong)
        } else {
            None
        }
    }

    /// The user sets or replaces its profile.
    pub fn set_profile(&mut self, user: Address, name: Text, bio: Text) -> (r: Result<(), ProfileError>)
        ensures
            match Self::profile_error(name@, bio@) {
                Some(e) => r == Err::<(), ProfileError>(e) && final(self).profiles@ == old(self).profiles@,
                None => r is Ok && final(self).profiles@ == old(self).profiles@.insert(
                    user,
                    UserProfile { name, bio },
                ),
            },
    {
        if name.len() == 0 {
            return Err(ProfileError::NameEmpty);
        }
        if name.len() > MAX_NAME_LEN {
            return Err(ProfileError::NameTooLong);
        }
        if bio.len() > MAX_BIO_LEN {
            return Err(ProfileError::BioTooLong);
        }
        self.profiles.insert(user, UserProfile { name, bio });
        Ok(())
    }

    /// A copy of the user's profile, if it has one.
    pub fn get_profile(&self, user: Address) -> (r: Option<UserProfile>)
        ensures
            self.profiles@.contains_key(user) ==> r is Some && r->0.name@ == self.profiles@[user].name@
                && r->0.bio@ == self.profiles@[user].bio@,
            !self.profiles@.contains_key(user) ==> r is None,
    {
        match self.profiles.get(&user) {
            Some(p) => Some(UserProfile { name: text_copy(&p.name), bio: text_copy(&p.bio) }),
            None => None,
        }
    }

    /// The user removes its profile.
    pub fn delete_profile(&mut self, user: Address) -> (r: Result<(), ProfileError>)
        ensures
            !old(self).profiles@.contains_key(user) ==> r == Err::<(), ProfileError>(ProfileError::ProfileNotFound)
                && final(self).profiles@ == old(self).profiles@,
            old(self).profiles@.contains_key(user) ==> r is Ok && final(self).profiles@ == old(self).profiles@.remove(
                user,
            ),
    {
        if !self.profiles.contains_key(&user) {
            return Err(ProfileError::ProfileNotFound);
        }
        self.profiles.remove(&user);
        Ok(())
    }

    pub fn has_profile(&self, user: Address) -> (b: bool)
        ensures
            b == self.profiles@.contains_key(user),
    {
        self.profiles.contains_key(&user)
    }
}

/// A profile reads back as written: after a successful `set_profile`,
/// `get_profile` gives the same name and bio, and after `delete_profile`
/// there is none.
pub proof fn lemma_profile_round_trip(before: ProfileRegistry, after: ProfileRegistry, user: Address, name: Text, bio: Text)
    requires
        ProfileRegistry::profile_error(name@, bio@) is None,
        after.profiles@ == before.profiles@.insert(user, UserProfile { name, bio }),
    ensures
        after.profiles@.contains_key(user),
        after.profiles@[user].name@ == name@,
        after.profiles@[user].bio@ == bio@,
        !after.profiles@.remove(user).contains_key(user),
{
}

} // verus!
