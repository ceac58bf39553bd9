//! Persisted record types of the two registries.
//!
//! `DBUser` is one document of the `users` collection, `DBBot` one of the
//! `bots` collection.  Contracts throughout the crate speak of the records
//! through the ghost views `UserV` and `BotV`, which carry the string
//! fields as `Seq<char>`.

use vstd::prelude::*;

verus! {

/// Ghost view of a [`DBUser`] record.
#[verifier::ext_equal]
pub ghost struct UserV {
    pub user_id: u64,
    pub role: Seq<char>,
    pub active_in: Seq<Seq<char>>,
    pub created_mirrors: Seq<Seq<char>>,
    pub is_active: bool,
}

/// One user known to any mirror of the fleet.
///
/// `role` is `"default"` or `"admin"`; `active_in` lists the credential
/// tokens of the mirrors the user has started a conversation with;
/// `is_active` is a soft-delete flag.
#[derive(Clone, Debug)]
pub struct DBUser {
    pub user_id: u64,
    pub role: String,
    pub active_in: Vec<String>,
    pub created_mirrors: Vec<String>,
    pub is_active: bool,
}

impl View for DBUser {
    type V = UserV;

    open spec fn view(&self) -> UserV {
        UserV {
            user_id: self.user_id,
            role: self.role@,
            active_in: self.active_in@.map_values(|t: String| t@),
            created_mirrors: self.created_mirrors@.map_values(|t: String| t@),
            is_active: self.is_active,
        }
    }
}

/// Ghost view of a [`DBBot`] record.
#[verifier::ext_equal]
pub ghost struct BotV {
    pub token: Seq<char>,
    pub created_by: u64,
    pub is_active: bool,
}

/// One mirror credential known to the fleet.
///
/// `created_by` is the user id of the admin who registered the mirror
/// (`0` for the seed mirror); `is_active` says whether the orchestrator
/// should be running a listener for it.
#[derive(Clone, Debug)]
pub struct DBBot {
    pub token: String,
    pub created_by: u64,
    pub is_active: bool,
}

impl View for DBBot {
    type V = BotV;

    open spec fn view(&self) -> BotV {
        BotV { token: self.token@, created_by: self.created_by, is_active: self.is_active }
    }
}

} // verus!
