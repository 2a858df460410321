//! Who may act on what: administrators may act on every recording, other
//! users only on their own.
use vstd::prelude::*;
use crate::text::same_text;

verus! {

/// Whether `role` is the administrator role, `admin`.
pub open spec fn admin_role(role: Seq<char>) -> bool {
    role == "admin"@
}

/// Whether a user with `role` may act on the administrator-only functions.
pub fn is_admin(role: &str) -> (r: bool)
    ensures
        r == admin_role(role@),
{
    same_text(role, "admin")
}

/// Whether `user_id`, with `role`, may act on a recording owned by `owner`
/// (none when its owner is unknown): administrators always, others only on
/// their own recordings.
pub fn may_access_file(role: &str, owner: Option<u128>, user_id: u128) -> (r: bool)
    ensures
        r == (admin_role(role@) || owner == Some(user_id)),
{
    if is_admin(role) {
        return true;
    }
    match owner {
        Some(o) => o == user_id,
        None => false,
    }
}

} // verus!
