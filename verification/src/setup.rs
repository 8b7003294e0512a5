//! Setting up a new store: the checks of the request and the answer on
//! whether a store code is still free.
use vstd::prelude::*;
use crate::errors::{ErrorCode, RpcError, STATUS_BAD_REQUEST, STATUS_CONFLICT};
use crate::session::{argon2_hash, argon2_verifies};
use crate::identity::{owner_ids, owner_key};
use crate::text::to_owned;

verus! {

/// A new store needs a name, and its owner an email and a password.
pub fn check_initialize_store(store_name: &str, owner_email: &str, owner_password: &str) -> (r:
    Result<(), RpcError>)
    ensures
        r is Ok <==> store_name@.len() > 0 && owner_email@.len() > 0 && owner_password@.len() > 0,
        r matches Err(e) ==> e.status == STATUS_BAD_REQUEST && e.error.code
            == ErrorCode::InvalidArgument && e.error.message@ == if store_name@.len() == 0 {
            "store_name is required"@
        } else if owner_email@.len() == 0 {
            "owner_email is required"@
        } else {
            "owner_password is required"@
        },
{
    if store_name.is_empty() {
        return Err(RpcError::invalid_argument("store_name is required"));
    }
    if owner_email.is_empty() {
        return Err(RpcError::invalid_argument("owner_email is required"));
    }
    if owner_password.is_empty() {
        return Err(RpcError::invalid_argument("owner_password is required"));
    }
    Ok(())
}

/// A store's name and code must both be unused (409 `already_exists`).
pub fn check_store_available(name_taken: bool, code_taken: bool) -> (r: Result<(), RpcError>)
    ensures
        r is Ok <==> !name_taken && !code_taken,
        r matches Err(e) ==> e.status == STATUS_CONFLICT && e.error.code
            == ErrorCode::AlreadyExists && e.error.message@ == if name_taken {
            "store already exists"@
        } else {
            "store_code already exists"@
        },
{
    if name_taken {
        return Err(RpcError::new(STATUS_CONFLICT, ErrorCode::AlreadyExists, "store already exists"));
    }
    if code_taken {
        return Err(
            RpcError::new(STATUS_CONFLICT, ErrorCode::AlreadyExists, "store_code already exists"),
        );
    }
    Ok(())
}

/// Whether a store code is free, and the message shown: a code that does
/// not parse is not free and its refusal is shown; a taken code is not
/// free; any other code is.
pub fn store_code_availability(refusal: Option<&str>, taken: bool) -> (r: (bool, String))
    ensures
        match refusal {
            Some(m) => !r.0 && r.1@ == m@,
            None => if taken {
                !r.0 && r.1@ == "store_code already exists"@
            } else {
                r.0 && r.1@ == "store_code is available"@
            },
        },
{
    match refusal {
        Some(m) => (false, to_owned(m)),
        None => if taken {
            (false, to_owned("store_code already exists"))
        } else {
            (true, to_owned("store_code is available"))
        },
    }
}

/// The owner's password hash, or 500 "failed to hash password" when
/// hashing failed.
pub fn owner_hash_outcome(hashed: Option<String>) -> (r: Result<String, RpcError>)
    ensures
        match hashed {
            Some(h) => r matches Ok(s) && s@ == h@,
            None => r matches Err(e) && e.status == crate::errors::STATUS_INTERNAL_SERVER_ERROR
                && e.error.code == ErrorCode::Internal && e.error.message@
                == "failed to hash password"@,
        },
{
    match hashed {
        Some(h) => Ok(h),
        None => Err(RpcError::internal("failed to hash password")),
    }
}

/// Hashes the owner's password; the stored hash verifies the password, and
/// a failure is 500 "failed to hash password".
pub fn hash_owner_password(password: &str) -> (r: Result<String, RpcError>)
    ensures
        vstd::utf8::encode_utf8(password@).len() <= 0xFFFF_FFFF ==> r is Ok,
        r matches Ok(h) ==> argon2_verifies(password@, h@),
        r matches Err(e) ==> e.status == crate::errors::STATUS_INTERNAL_SERVER_ERROR
            && e.error.code == ErrorCode::Internal && e.error.message@
            == "failed to hash password"@,
{
    owner_hash_outcome(argon2_hash(password))
}

/// A role a new store starts with: its key, name and description.
#[derive(Debug, Clone, PartialEq, Eq)]
pub struct RoleSeed {
    pub key: String,
    pub name: String,
    pub description: String,
}

/// What setting up a store writes, once the checks have passed: the
/// tenant, the store, its vendor, its two roles, the customer sync
/// setting and the owner's membership.
#[derive(Debug, Clone, PartialEq, Eq)]
pub struct StorePlan {
    pub tenant_name: String,
    pub tenant_type: String,
    pub default_currency: String,
    pub tenant_status: String,
    pub store_name: String,
    pub store_code: String,
    pub store_status: String,
    pub vendor_name: String,
    pub vendor_status: String,
    pub owner_role: RoleSeed,
    pub staff_role: RoleSeed,
    pub customer_sync_enabled: bool,
    pub owner_email: String,
    pub owner_role_key: String,
    pub owner_status: String,
}

/// The key, name and description of a seeded role.
pub open spec fn seed_view(r: RoleSeed) -> (Seq<char>, Seq<char>, Seq<char>) {
    (r.key@, r.name@, r.description@)
}

/// The rows a new store gets: a single-brand tenant in yen named after the
/// store, the store with its code, a vendor of the same name, the owner
/// and staff roles, customer sync switched on, and the owner as an active
/// member holding the owner role; everything starts active.
pub fn initialize_plan(store_name: &str, owner_email: &str, store_code: &str) -> (r: StorePlan)
    ensures
        r.tenant_name@ == store_name@,
        r.tenant_type@ == "single_brand"@,
        r.default_currency@ == "JPY"@,
        r.tenant_status@ == "active"@,
        r.store_name@ == store_name@,
        r.store_code@ == store_code@,
        r.store_status@ == "active"@,
        r.vendor_name@ == store_name@,
        r.vendor_status@ == "active"@,
        seed_view(r.owner_role) == ("owner"@, "Owner"@, "Full access owner role"@),
        seed_view(r.staff_role) == ("staff"@, "Staff"@, "Standard staff role"@),
        r.customer_sync_enabled,
        r.owner_email@ == owner_email@,
        r.owner_role_key@ == r.owner_role.key@,
        r.owner_status@ == "active"@,
{
    StorePlan {
        tenant_name: to_owned(store_name),
        tenant_type: to_owned("single_brand"),
        default_currency: to_owned("JPY"),
        tenant_status: to_owned("active"),
        store_name: to_owned(store_name),
        store_code: to_owned(store_code),
        store_status: to_owned("active"),
        vendor_name: to_owned(store_name),
        vendor_status: to_owned("active"),
        owner_role: RoleSeed {
            key: to_owned("owner"),
            name: to_owned("Owner"),
            description: to_owned("Full access owner role"),
        },
        staff_role: RoleSeed {
            key: to_owned("staff"),
            name: to_owned("Staff"),
            description: to_owned("Standard staff role"),
        },
        customer_sync_enabled: true,
        owner_email: to_owned(owner_email),
        owner_role_key: to_owned("owner"),
        owner_status: to_owned("active"),
    }
}

/// A new store starts with exactly one owner: its only member, the owner
/// set up with it, holds the owner role (`initialize_plan` gives the owner
/// the key `"owner"`); `lemma_transfer_keeps_one_owner` carries this
/// through every accepted ownership transfer.
pub proof fn lemma_new_store_has_one_owner(owner_id: Seq<char>)
    ensures
        owner_ids(seq![(owner_id, "owner"@)]) == set![owner_id],
{
    let members = seq![(owner_id, "owner"@)];
    assert(members[0] == (owner_id, owner_key()));
    assert(owner_ids(members) =~= set![owner_id]);
}

} // verus!
