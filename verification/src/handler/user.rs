//! User account endpoints: list, create, show, delete.
//!
//! Listings and lookups return the public projection of a user and never
//! expose the stored password hash.

use vstd::prelude::*;

use crate::model::IdRes;
use crate::model::StoreError;
use crate::model::User;
use crate::model::UserRes;
use crate::model::Users;
use crate::store::Store;
use crate::store::find_user;

verus! {

/// Returns every user, projected to identifier and display name.
pub fn list_users(s: &Store) -> (res: Result<Users, StoreError>)
    ensures
        res matches Ok(us) && us.users@.len() == s.users@.len(),
        forall|i: int|
            0 <= i < s.users@.len() ==> {
                &&& (#[trigger] res->Ok_0.users@[i]).user_id == s.users@[i].user_id
                &&& res->Ok_0.users@[i].user_name == s.users@[i].user_name
            },
{
    let mut users: Vec<UserRes> = Vec::new();
    let mut i: usize = 0;
    while i < s.users.len()
        invariant
            i <= s.users@.len(),
            users@.len() == i,
            forall|j: int|
                0 <= j < i ==> {
                    &&& (#[trigger] users@[j]).user_id == s.users@[j].user_id
                    &&& users@[j].user_name == s.users@[j].user_name
                },
        decreases s.users@.len() - i,
    {
        users.push(UserRes {
            user_id: s.users[i].user_id,
            user_name: s.users[i].user_name.clone(),
        });
        i = i + 1;
    }
    Ok(Users { users })
}

/// Inserts a user row; refuses an identifier that is already taken.
pub fn create_user(s: &mut Store, payload: User) -> (res: Result<IdRes, StoreError>)
    requires
        old(s).wf(),
    ensures
        final(s).wf(),
        final(s).cells@ == old(s).cells@,
        final(s).family_tree@ == old(s).family_tree@,
        old(s).has_user(payload.user_id) ==> {
            &&& res == Err::<IdRes, StoreError>(StoreError::Duplicate)
            &&& final(s).users@ == old(s).users@
        },
        !old(s).has_user(payload.user_id) ==> {
            &&& res matches Ok(r) && r.id == payload.user_id
            &&& final(s).users@ == old(s).users@.push(payload)
        },
{
    if find_user(s, payload.user_id).is_some() {
        return Err(StoreError::Duplicate);
    }
    let ghost old_ids = s.user_ids();
    let id = payload.user_id;
    s.users.push(payload);
    proof {
        assert(s.user_ids() =~= old_ids.push(id));
        assert forall|i: int, j: int|
            0 <= i < s.user_ids().len() && 0 <= j < s.user_ids().len() && i != j
                implies s.user_ids()[i] != s.user_ids()[j] by {
            if i == old_ids.len() || j == old_ids.len() {
                assert(!old_ids.contains(id));
            }
        }
    }
    Ok(IdRes { id })
}

/// Looks one user up by identifier, again without the password hash.
pub fn show_user(s: &Store, user_id: u128) -> (res: Result<UserRes, StoreError>)
    requires
        s.wf(),
    ensures
        match res {
            Ok(u) => {
                &&& s.has_user(user_id)
                &&& u.user_id == user_id
                &&& u.user_name == s.user_at(user_id).user_name
            },
            Err(e) => !s.has_user(user_id) && e == StoreError::NotFound,
        },
{
    match find_user(s, user_id) {
        Some(i) => Ok(UserRes {
            user_id: s.users[i].user_id,
            user_name: s.users[i].user_name.clone(),
        }),
        None => Err(StoreError::NotFound),
    }
}

/// Removes the user row carrying `user_id`; removing an absent row is,
/// as in any `DELETE`, not an error.
pub fn delete_user(s: &mut Store, user_id: u128) -> (res: Result<IdRes, StoreError>)
    requires
        old(s).wf(),
    ensures
        final(s).wf(),
        final(s).cells@ == old(s).cells@,
        final(s).family_tree@ == old(s).family_tree@,
        res matches Ok(r) && r.id == user_id,
        old(s).has_user(user_id) ==> final(s).users@ == old(s).users@.remove(
            old(s).user_index(user_id),
        ),
        !old(s).has_user(user_id) ==> final(s).users@ == old(s).users@,
        !final(s).has_user(user_id),
{
    match find_user(s, user_id) {
        Some(i) => {
            let ghost old_ids = s.user_ids();
            s.users.remove(i);
            proof {
                assert(s.user_ids() =~= old_ids.remove(i as int));
                assert forall|j: int, k: int|
                    0 <= j < s.user_ids().len() && 0 <= k < s.user_ids().len() && j != k
                        implies s.user_ids()[j] != s.user_ids()[k] by {
                    let j0: int = if j < i { j } else { j + 1 };
                    let k0: int = if k < i { k } else { k + 1 };
                    assert(s.user_ids()[j] == old_ids[j0]);
                    assert(s.user_ids()[k] == old_ids[k0]);
                }
                assert(old_ids[i as int] == user_id);
                assert forall|j: int| 0 <= j < s.user_ids().len()
                    implies s.user_ids()[j] != user_id by {
                    let j0: int = if j < i { j } else { j + 1 };
                    assert(s.user_ids()[j] == old_ids[j0]);
                    assert(old_ids[j0] != old_ids[i as int]);
                }
            }
            Ok(IdRes { id: user_id })
        },
        None => Ok(IdRes { id: user_id }),
    }
}

} // verus!
