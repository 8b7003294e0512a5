//! Staff, roles and ownership: who may change whom, the checks of each
//! identity request, and the audit fields of an actor.
use vstd::prelude::*;
use crate::context::ActorContext;
use crate::errors::IdentityError;
use crate::text::{opt_view, pair_views, str_eq, string_views, to_owned};

verus! {

/// The role key of a store's owner.
pub open spec fn owner_key() -> Seq<char> {
    "owner"@
}

/// The actor's id, when it has a non-empty one.
pub open spec fn actor_id_spec(actor: Option<ActorContext>) -> Option<Seq<char>> {
    match actor {
        Some(a) => if a.actor_id@.len() > 0 {
            Some(a.actor_id@)
        } else {
            None
        },
        None => None,
    }
}

/// The actor's kind, or `default` when it has none.
pub open spec fn actor_type_spec(actor: Option<ActorContext>, default: Seq<char>) -> Seq<char> {
    match actor {
        Some(a) => if a.actor_type@.len() > 0 {
            a.actor_type@
        } else {
            default
        },
        None => default,
    }
}

/// The actor's id, when it has a non-empty one.
pub fn actor_id_of(actor: Option<&ActorContext>) -> (r: Option<String>)
    ensures
        match actor {
            Some(a) => match actor_id_spec(Some(*a)) {
                Some(id) => r is Some && r->0@ == id,
                None => r is None,
            },
            None => r is None,
        },
{
    match actor {
        Some(a) => if a.actor_id.as_str().is_empty() {
            None
        } else {
            Some(a.actor_id.clone())
        },
        None => None,
    }
}

/// The actor's kind, or `default` when it has none.
pub fn actor_type_or(actor: Option<&ActorContext>, default: &str) -> (r: String)
    ensures
        r@ == match actor {
            Some(a) => actor_type_spec(Some(*a), default@),
            None => default@,
        },
{
    match actor {
        Some(a) => if a.actor_type.as_str().is_empty() {
            to_owned(default)
        } else {
            a.actor_type.clone()
        },
        None => to_owned(default),
    }
}

/// The audit fields of an actor in the catalog, order and promotion
/// services: its id, and its kind or `system`.
pub fn actor_fields(actor: Option<ActorContext>) -> (r: (Option<String>, String))
    ensures
        match actor_id_spec(actor) {
            Some(id) => r.0 is Some && r.0->0@ == id,
            None => r.0 is None,
        },
        r.1@ == actor_type_spec(actor, "system"@),
{
    match actor {
        Some(a) => {
            let id = actor_id_of(Some(&a));
            let kind = actor_type_or(Some(&a), "system");
            (id, kind)
        },
        None => (None, to_owned("system")),
    }
}

/// The actor of an owner-only request must be of kind `owner`.
pub fn require_owner(actor: Option<&ActorContext>) -> (r: Result<(), IdentityError>)
    ensures
        r is Ok <==> match actor {
            Some(a) => a.actor_type@ == owner_key(),
            None => false,
        },
        r matches Err(e) ==> e == IdentityError::PermissionDenied(e.payload()) && e.payload()@
            == "owner role is required"@,
{
    let is_owner = match actor {
        Some(a) => str_eq(a.actor_type.as_str(), "owner"),
        None => false,
    };
    if !is_owner {
        return Err(IdentityError::permission_denied("owner role is required"));
    }
    Ok(())
}

/// Refuses an empty identifier with `message` (400 `invalid_argument`).
pub fn require_value(value: &str, message: &str) -> (r: Result<(), IdentityError>)
    ensures
        r is Ok <==> value@.len() > 0,
        r matches Err(e) ==> e == IdentityError::InvalidArgument(e.payload()) && e.payload()@
            == message@,
{
    if value.is_empty() {
        Err(IdentityError::invalid_argument(message))
    } else {
        Ok(())
    }
}

/// An update of a staff member names the member and changes something.
pub fn check_staff_update_request(staff_id: &str, role_id: &str, status: &str, display_name: &str) -> (r:
    Result<(), IdentityError>)
    ensures
        staff_id@.len() == 0 ==> r is Err && r->Err_0.payload()@ == "staff_id is required"@,
        staff_id@.len() > 0 && role_id@.len() == 0 && status@.len() == 0 && display_name@.len()
            == 0 ==> r is Err && r->Err_0.payload()@ == "role_id, status, or display_name is required"@,
        r is Ok <==> staff_id@.len() > 0 && (role_id@.len() > 0 || status@.len() > 0
            || display_name@.len() > 0),
        r matches Err(e) ==> e == IdentityError::InvalidArgument(e.payload()),
{
    if staff_id.is_empty() {
        return Err(IdentityError::invalid_argument("staff_id is required"));
    }
    if role_id.is_empty() && status.is_empty() && display_name.is_empty() {
        return Err(IdentityError::invalid_argument("role_id, status, or display_name is required"));
    }
    Ok(())
}

/// The owner's role is fixed: an update that names a role is refused for
/// the owner (`current_role` is the member's current role key).
pub fn check_role_change(current_role: Option<&str>, requested_role_id: &str) -> (r: Result<
    (),
    IdentityError,
>)
    ensures
        r is Ok <==> !(opt_view(current_role) == Some(owner_key()) && requested_role_id@.len() > 0),
        r matches Err(e) ==> e == IdentityError::PermissionDenied(e.payload()) && e.payload()@
            == "owner role cannot be changed"@,
{
    if let Some(role) = current_role {
        if str_eq(role, "owner") && !requested_role_id.is_empty() {
            return Err(IdentityError::permission_denied("owner role cannot be changed"));
        }
    }
    Ok(())
}

/// The role an update assigns must exist in the store and not be the
/// owner's (`role_key` is the key of the named role, when it exists).
pub fn check_assignable_role(role_key: Option<&str>) -> (r: Result<(), IdentityError>)
    ensures
        role_key is None ==> r is Err && r->Err_0 == IdentityError::InvalidArgument(
            r->Err_0.payload(),
        ) && r->Err_0.payload()@ == "role_id is invalid"@,
        role_key matches Some(k) ==> if k@ == owner_key() {
            r is Err && r->Err_0 == IdentityError::PermissionDenied(r->Err_0.payload())
                && r->Err_0.payload()@ == "owner role cannot be assigned"@
        } else {
            r is Ok
        },
{
    match role_key {
        None => Err(IdentityError::invalid_argument("role_id is invalid")),
        Some(k) => if str_eq(k, "owner") {
            Err(IdentityError::permission_denied("owner role cannot be assigned"))
        } else {
            Ok(())
        },
    }
}

/// The checks of an invitation after its role is looked up, in order: the
/// role exists, is not the owner's, the email is not a member's, and no
/// invitation for it is pending.
pub fn check_invite(role_key: Option<&str>, email_taken: bool, invite_pending: bool) -> (r: Result<
    (),
    IdentityError,
>)
    ensures
        role_key is None ==> r is Err && r->Err_0 == IdentityError::InvalidArgument(
            r->Err_0.payload(),
        ) && r->Err_0.payload()@ == "role_id is invalid"@,
        role_key matches Some(k) && k@ == owner_key() ==> r is Err && r->Err_0
            == IdentityError::InvalidArgument(r->Err_0.payload()) && r->Err_0.payload()@
            == "owner role cannot be invited"@,
        role_key matches Some(k) && k@ != owner_key() && email_taken ==> r is Err && r->Err_0
            == IdentityError::AlreadyExists(r->Err_0.payload()) && r->Err_0.payload()@
            == "email already exists"@,
        role_key matches Some(k) && k@ != owner_key() && !email_taken && invite_pending ==> r is Err
            && r->Err_0 == IdentityError::AlreadyExists(r->Err_0.payload()) && r->Err_0.payload()@
            == "invite already exists"@,
        r is Ok <==> (role_key matches Some(k) && k@ != owner_key()) && !email_taken
            && !invite_pending,
{
    match role_key {
        None => {
            return Err(IdentityError::invalid_argument("role_id is invalid"));
        },
        Some(k) => {
            if str_eq(k, "owner") {
                return Err(IdentityError::invalid_argument("owner role cannot be invited"));
            }
        },
    }
    if email_taken {
        return Err(IdentityError::already_exists("email already exists"));
    }
    if invite_pending {
        return Err(IdentityError::already_exists("invite already exists"));
    }
    Ok(())
}

/// The reason an ownership transfer is refused, after the current owner
/// (`current_owner`), the actor and the new owner's state (`target_status`,
/// when the new owner is a member) are known; checked in this order.
pub open spec fn transfer_rejection(
    new_owner: Seq<char>,
    current_owner: Option<Seq<char>>,
    actor_id: Option<Seq<char>>,
    target_status: Option<Seq<char>>,
) -> Option<(int, Seq<char>)> {
    if current_owner is None {
        Some((1, "owner not found"@))
    } else if current_owner->0 == new_owner {
        Some((0, "new owner is already the owner"@))
    } else if actor_id is Some && actor_id->0 != current_owner->0 {
        Some((2, "only owner can transfer ownership"@))
    } else if target_status is None {
        Some((1, "new owner staff not found"@))
    } else if target_status->0 != "active"@ {
        Some((0, "new owner must be active"@))
    } else {
        None
    }
}

/// An ownership transfer goes through only when the store has an owner,
/// the new owner is someone else, the actor (when named) is the current
/// owner, and the new owner is an active member; an actor other than the
/// owner is refused with permission denied.
pub proof fn lemma_transfer_only_by_owner(
    new_owner: Seq<char>,
    current_owner: Option<Seq<char>>,
    actor_id: Option<Seq<char>>,
    target_status: Option<Seq<char>>,
)
    ensures
        transfer_rejection(new_owner, current_owner, actor_id, target_status) is None ==> {
            &&& current_owner is Some
            &&& current_owner->0 != new_owner
            &&& actor_id matches Some(x) ==> x == current_owner->0
            &&& target_status == Some("active"@)
        },
        current_owner is Some && current_owner->0 != new_owner && actor_id is Some && actor_id->0
            != current_owner->0 ==> transfer_rejection(new_owner, current_owner, actor_id, target_status) == Some(
            (2int, "only owner can transfer ownership"@),
        ),
{
}

/// The error of a refusal: kind 0 is an invalid argument, 1 not found,
/// 2 permission denied.
pub open spec fn refusal_matches(e: IdentityError, kind: int, message: Seq<char>) -> bool {
    &&& e.payload()@ == message
    &&& kind == 0 ==> e == IdentityError::InvalidArgument(e.payload())
    &&& kind == 1 ==> e == IdentityError::NotFound(e.payload())
    &&& kind == 2 ==> e == IdentityError::PermissionDenied(e.payload())
}

/// Checks an ownership transfer to `new_owner`.
pub fn check_transfer_owner(
    new_owner: &str,
    current_owner: Option<&str>,
    actor_id: Option<&str>,
    target_status: Option<&str>,
) -> (r: Result<(), IdentityError>)
    ensures
        match transfer_rejection(new_owner@, opt_view(current_owner), opt_view(actor_id), opt_view(target_status)) {
            None => r is Ok,
            Some((kind, m)) => r is Err && refusal_matches(r->Err_0, kind, m),
        },
{
    let owner = match current_owner {
        None => {
            return Err(IdentityError::not_found("owner not found"));
        },
        Some(o) => o,
    };
    if str_eq(owner, new_owner) {
        return Err(IdentityError::invalid_argument("new owner is already the owner"));
    }
    if let Some(actor) = actor_id {
        if !str_eq(actor, owner) {
            return Err(IdentityError::permission_denied("only owner can transfer ownership"));
        }
    }
    match target_status {
        None => Err(IdentityError::not_found("new owner staff not found")),
        Some(s) => if str_eq(s, "active") {
            Ok(())
        } else {
            Err(IdentityError::invalid_argument("new owner must be active"))
        },
    }
}

/// The role key every member other than the owner falls back to.
pub open spec fn staff_key() -> Seq<char> {
    "staff"@
}

/// A member's role after an ownership transfer from `old_owner` to
/// `new_owner`: the new owner takes the owner role, then the old owner
/// takes the staff role; everyone else keeps theirs.
pub open spec fn transferred_role(
    id: Seq<char>,
    role: Seq<char>,
    new_owner: Seq<char>,
    old_owner: Seq<char>,
) -> Seq<char> {
    if id == old_owner {
        staff_key()
    } else if id == new_owner {
        owner_key()
    } else {
        role
    }
}

/// The members of a store, each as (staff id, role key), after the transfer.
pub open spec fn transfer_roles_spec(
    members: Seq<(Seq<char>, Seq<char>)>,
    new_owner: Seq<char>,
    old_owner: Seq<char>,
) -> Seq<(Seq<char>, Seq<char>)> {
    members.map_values(
        |m: (Seq<char>, Seq<char>)| (m.0, transferred_role(m.0, m.1, new_owner, old_owner)),
    )
}

/// The ids of the members that hold the owner role.
pub open spec fn owner_ids(members: Seq<(Seq<char>, Seq<char>)>) -> Set<Seq<char>> {
    Set::new(
        |id: Seq<char>|
            exists|i: int| 0 <= i < members.len() && #[trigger] members[i] == (id, owner_key()),
    )
}

/// The role of each member (staff id, role key) once an accepted transfer
/// from `old_owner` to `new_owner` has been written.
pub fn transfer_roles(
    members: &Vec<(String, String)>,
    new_owner: &str,
    old_owner: &str,
) -> (r: Vec<(String, String)>)
    ensures
        pair_views(r@) == transfer_roles_spec(pair_views(members@), new_owner@, old_owner@),
{
    let mut out: Vec<(String, String)> = Vec::new();
    let mut i: usize = 0;
    while i < members.len()
        invariant
            i <= members.len(),
            pair_views(out@) == transfer_roles_spec(
                pair_views(members@),
                new_owner@,
                old_owner@,
            ).take(i as int),
        decreases members.len() - i,
    {
        let id = members[i].0.as_str();
        let role = if str_eq(id, old_owner) {
            to_owned("staff")
        } else if str_eq(id, new_owner) {
            to_owned("owner")
        } else {
            to_owned(members[i].1.as_str())
        };
        proof {
            reveal_strlit("staff");
            reveal_strlit("owner");
        }
        let ghost before = out@;
        out.push((to_owned(id), role));
        assert(pair_views(out@) =~= transfer_roles_spec(
            pair_views(members@),
            new_owner@,
            old_owner@,
        ).take(i + 1)) by {
            assert(pair_views(out@) =~= pair_views(before).push(
                (members@[i as int].0@, transferred_role(members@[i as int].0@, members@[i as int].1@, new_owner@, old_owner@)),
            ));
        }
        i = i + 1;
    }
    assert(transfer_roles_spec(pair_views(members@), new_owner@, old_owner@).take(
        members.len() as int,
    ) =~= transfer_roles_spec(pair_views(members@), new_owner@, old_owner@));
    out
}

/// After an accepted transfer the store still has exactly one owner, and it
/// is the new one: if `old_owner` was the only owner and `new_owner` is
/// another member, the members' roles after the transfer name `new_owner`
/// and no one else as owner.
pub proof fn lemma_transfer_keeps_one_owner(
    members: Seq<(Seq<char>, Seq<char>)>,
    new_owner: Seq<char>,
    old_owner: Seq<char>,
)
    requires
        owner_ids(members) == set![old_owner],
        new_owner != old_owner,
        exists|i: int| 0 <= i < members.len() && #[trigger] members[i].0 == new_owner,
    ensures
        owner_ids(transfer_roles_spec(members, new_owner, old_owner)) == set![new_owner],
{
    let after = transfer_roles_spec(members, new_owner, old_owner);
    let k = choose|i: int| 0 <= i < members.len() && #[trigger] members[i].0 == new_owner;
    assert(after[k] == (new_owner, owner_key()));
    assert forall|id: Seq<char>| owner_ids(after).contains(id) implies id == new_owner by {
        let j = choose|j: int| 0 <= j < after.len() && #[trigger] after[j] == (id, owner_key());
        if id != new_owner {
            assert(members[j].0 == id);
            if id == old_owner {
                assert(transferred_role(id, members[j].1, new_owner, old_owner) == staff_key());
                assert(staff_key() != owner_key()) by {
                    reveal_strlit("staff");
                    reveal_strlit("owner");
                    assert(staff_key()[0] != owner_key()[0]);
                }
            } else {
                assert(members[j] == (id, owner_key()));
                assert(owner_ids(members).contains(id));
            }
        }
    }
    assert(owner_ids(after).contains(new_owner));
    assert(owner_ids(after) =~= set![new_owner]);
}

/// The reason a role assignment is refused: both ids are named, the role
/// exists in this store (`role_store` is its store), and the member is not
/// the owner (`current_role`).
pub open spec fn assign_rejection(
    staff_id: Seq<char>,
    role_id: Seq<char>,
    role_store: Option<Seq<char>>,
    store_id: Seq<char>,
    current_role: Option<Seq<char>>,
) -> Option<(int, Seq<char>)> {
    if staff_id.len() == 0 || role_id.len() == 0 {
        Some((0, "staff_id and role_id are required"@))
    } else if role_store is None {
        Some((0, "role_id is invalid"@))
    } else if role_store->0 != store_id {
        Some((2, "role does not belong to store"@))
    } else if current_role == Some(owner_key()) {
        Some((2, "owner role cannot be assigned"@))
    } else {
        None
    }
}

/// The store always keeps its owner: a role assignment to the member who
/// holds the owner role is refused, and once the ids are given and the role
/// belongs to the store it is refused as "owner role cannot be assigned"
/// (permission denied); an assignment goes through only for a named staff
/// member and role of this store.
pub proof fn lemma_owner_role_never_reassigned(
    staff_id: Seq<char>,
    role_id: Seq<char>,
    role_store: Option<Seq<char>>,
    store_id: Seq<char>,
    current_role: Option<Seq<char>>,
)
    ensures
        current_role == Some("owner"@) ==> assign_rejection(
            staff_id,
            role_id,
            role_store,
            store_id,
            current_role,
        ) is Some,
        current_role == Some("owner"@) && staff_id.len() > 0 && role_id.len() > 0 && role_store
            == Some(store_id) ==> assign_rejection(staff_id, role_id, role_store, store_id, current_role)
            == Some((2int, "owner role cannot be assigned"@)),
        assign_rejection(staff_id, role_id, role_store, store_id, current_role) is None ==> {
            &&& staff_id.len() > 0
            &&& role_id.len() > 0
            &&& role_store == Some(store_id)
            &&& current_role != Some("owner"@)
        },
{
}

/// Checks a role assignment.
pub fn check_assign_role(
    staff_id: &str,
    role_id: &str,
    role_store: Option<&str>,
    store_id: &str,
    current_role: Option<&str>,
) -> (r: Result<(), IdentityError>)
    ensures
        match assign_rejection(staff_id@, role_id@, opt_view(role_store), store_id@, opt_view(current_role)) {
            None => r is Ok,
            Some((kind, m)) => r is Err && refusal_matches(r->Err_0, kind, m),
        },
        opt_view(current_role) == Some("owner"@) ==> r is Err,
        r is Ok ==> (staff_id@.len() > 0 && role_id@.len() > 0 && opt_view(role_store) == Some(
            store_id@,
        ) && opt_view(current_role) != Some("owner"@)),
{
    if staff_id.is_empty() || role_id.is_empty() {
        return Err(IdentityError::invalid_argument("staff_id and role_id are required"));
    }
    match role_store {
        None => {
            return Err(IdentityError::invalid_argument("role_id is invalid"));
        },
        Some(s) => {
            if !str_eq(s, store_id) {
                return Err(IdentityError::permission_denied("role does not belong to store"));
            }
        },
    }
    if let Some(role) = current_role {
        if str_eq(role, "owner") {
            return Err(IdentityError::permission_denied("owner role cannot be assigned"));
        }
    }
    Ok(())
}

/// The checks of a new staff member's fields, in order: a role, some way
/// to sign in, and a password.
pub fn check_new_staff(email: &str, login_id: &str, phone: &str, password: &str, role_id: &str) -> (r:
    Result<(), IdentityError>)
    ensures
        role_id@.len() == 0 ==> r is Err && r->Err_0.payload()@ == "role_id is required"@,
        role_id@.len() > 0 && email@.len() == 0 && login_id@.len() == 0 && phone@.len() == 0 ==> r is Err
            && r->Err_0.payload()@ == "email or login_id or phone is required"@,
        role_id@.len() > 0 && (email@.len() > 0 || login_id@.len() > 0 || phone@.len() > 0)
            && password@.len() == 0 ==> r is Err && r->Err_0.payload()@ == "password is required"@,
        r is Ok <==> role_id@.len() > 0 && (email@.len() > 0 || login_id@.len() > 0 || phone@.len()
            > 0) && password@.len() > 0,
        r matches Err(e) ==> e == IdentityError::InvalidArgument(e.payload()),
{
    if role_id.is_empty() {
        return Err(IdentityError::invalid_argument("role_id is required"));
    }
    if email.is_empty() && login_id.is_empty() && phone.is_empty() {
        return Err(IdentityError::invalid_argument("email or login_id or phone is required"));
    }
    if password.is_empty() {
        return Err(IdentityError::invalid_argument("password is required"));
    }
    Ok(())
}

/// The role a new staff member gets must exist and not be the owner's.
pub fn check_new_staff_role(role_key: Option<&str>) -> (r: Result<(), IdentityError>)
    ensures
        r is Ok <==> (role_key is Some && role_key.unwrap()@ != owner_key()),
        r matches Err(e) ==> e == IdentityError::InvalidArgument(e.payload()) && e.payload()@
            == if role_key is None {
            "role_id is invalid"@
        } else {
            "owner role cannot be assigned"@
        },
{
    match role_key {
        None => Err(IdentityError::invalid_argument("role_id is invalid")),
        Some(k) => if str_eq(k, "owner") {
            Err(IdentityError::invalid_argument("owner role cannot be assigned"))
        } else {
            Ok(())
        },
    }
}

/// The kind of identifier a staff member signs in with.
#[derive(Debug, Clone, Copy, PartialEq, Eq)]
pub enum SignInKey {
    Email,
    LoginId,
    Phone,
}

impl SignInKey {
    /// The name recorded in the sign-in audit entry.
    pub fn as_str(self) -> (r: &'static str)
        ensures
            r@ == match self {
                SignInKey::Email => "email"@,
                SignInKey::LoginId => "login_id"@,
                SignInKey::Phone => "phone"@,
            },
    {
        match self {
            SignInKey::Email => "email",
            SignInKey::LoginId => "login_id",
            SignInKey::Phone => "phone",
        }
    }
}

/// The identifier a sign-in uses: the email when given, else the login id,
/// else the phone.
pub fn sign_in_identifier(email: &str, login_id: &str, phone: &str) -> (r: Option<(SignInKey, String)>)
    ensures
        email@.len() > 0 ==> r is Some && r.unwrap().0 == SignInKey::Email && r.unwrap().1@ == email@,
        email@.len() == 0 && login_id@.len() > 0 ==> r is Some && r.unwrap().0 == SignInKey::LoginId
            && r.unwrap().1@ == login_id@,
        email@.len() == 0 && login_id@.len() == 0 && phone@.len() > 0 ==> r is Some && r.unwrap().0
            == SignInKey::Phone && r.unwrap().1@ == phone@,
        email@.len() == 0 && login_id@.len() == 0 && phone@.len() == 0 ==> r is None,
{
    if !email.is_empty() {
        Some((SignInKey::Email, to_owned(email)))
    } else if !login_id.is_empty() {
        Some((SignInKey::LoginId, to_owned(login_id)))
    } else if !phone.is_empty() {
        Some((SignInKey::Phone, to_owned(phone)))
    } else {
        None
    }
}

/// The checks of a sign-in before its member is looked up: a password and
/// an identifier.
pub fn check_sign_in(password: &str, email: &str, login_id: &str, phone: &str) -> (r: Result<
    SignInKey,
    IdentityError,
>)
    ensures
        password@.len() == 0 ==> r is Err && r->Err_0.payload()@ == "password is required"@,
        password@.len() > 0 && email@.len() == 0 && login_id@.len() == 0 && phone@.len() == 0
            ==> r is Err && r->Err_0.payload()@ == "email or login_id or phone is required"@,
        password@.len() > 0 && email@.len() > 0 ==> r == Ok::<SignInKey, IdentityError>(SignInKey::Email),
        password@.len() > 0 && email@.len() == 0 && login_id@.len() > 0 ==> r == Ok::<
            SignInKey,
            IdentityError,
        >(SignInKey::LoginId),
        password@.len() > 0 && email@.len() == 0 && login_id@.len() == 0 && phone@.len() > 0
            ==> r == Ok::<SignInKey, IdentityError>(SignInKey::Phone),
        r matches Err(e) ==> e == IdentityError::InvalidArgument(e.payload()),
{
    if password.is_empty() {
        return Err(IdentityError::invalid_argument("password is required"));
    }
    match sign_in_identifier(email, login_id, phone) {
        Some((key, _)) => Ok(key),
        None => Err(IdentityError::invalid_argument("email or login_id or phone is required")),
    }
}

/// The answer to credentials that do not match an active member.
pub fn invalid_credentials() -> (r: IdentityError)
    ensures
        r == IdentityError::Unauthenticated(r.payload()),
        r.payload()@ == "invalid credentials"@,
{
    IdentityError::unauthenticated("invalid credentials")
}

/// A new role needs a key and a name.
pub fn check_role_key_name(key: &str, name: &str) -> (r: Result<(), IdentityError>)
    ensures
        r is Ok <==> key@.len() > 0 && name@.len() > 0,
        r matches Err(e) ==> e == IdentityError::InvalidArgument(e.payload()) && e.payload()@
            == "key and name are required"@,
{
    if key.is_empty() || name.is_empty() {
        Err(IdentityError::invalid_argument("key and name are required"))
    } else {
        Ok(())
    }
}

/// Every requested permission key must exist: `found` of the `requested`
/// keys were found.
pub fn check_permission_keys(found: usize, requested: usize) -> (r: Result<(), IdentityError>)
    ensures
        r is Ok <==> found == requested || requested == 0,
        r matches Err(e) ==> e == IdentityError::InvalidArgument(e.payload()) && e.payload()@
            == "unknown permission key included"@,
{
    if found != requested && requested != 0 {
        Err(IdentityError::invalid_argument("unknown permission key included"))
    } else {
        Ok(())
    }
}

/// A role still held by staff cannot be deleted.
pub fn check_role_detached(attached: bool) -> (r: Result<(), IdentityError>)
    ensures
        r is Ok <==> !attached,
        r matches Err(e) ==> e == IdentityError::FailedPrecondition(e.payload()) && e.payload()@
            == "role is attached to staff"@,
{
    if attached {
        Err(IdentityError::failed_precondition("role is attached to staff"))
    } else {
        Ok(())
    }
}

/// A role with its permission keys.
#[derive(Debug, Clone, PartialEq, Eq)]
pub struct RoleDetail {
    pub id: String,
    pub key: String,
    pub name: String,
    pub description: String,
    pub permission_keys: Vec<String>,
}

/// The index of the first role whose id is `id`, or `roles.len()`.
pub open spec fn role_index(roles: Seq<RoleDetail>, id: Seq<char>) -> int
    decreases roles.len(),
{
    if roles.len() == 0 {
        0
    } else if roles[0].id@ == id {
        0
    } else {
        1 + role_index(roles.drop_first(), id)
    }
}

/// The permission keys among `rows` that belong to role `i`: those whose
/// role id first matches role `i`, in order.
pub open spec fn keys_of(roles: Seq<RoleDetail>, rows: Seq<(Seq<char>, Seq<char>)>, i: int) -> Seq<
    Seq<char>,
>
    decreases rows.len(),
{
    if rows.len() == 0 {
        Seq::empty()
    } else {
        let before = keys_of(roles, rows.drop_last(), i);
        if role_index(roles, rows.last().0) == i {
            before.push(rows.last().1)
        } else {
            before
        }
    }
}

proof fn lemma_role_index_bounds(roles: Seq<RoleDetail>, id: Seq<char>)
    ensures
        0 <= role_index(roles, id) <= roles.len(),
        role_index(roles, id) < roles.len() ==> roles[role_index(roles, id)].id@ == id,
        forall|k: int| 0 <= k < role_index(roles, id) ==> roles[k].id@ != id,
    decreases roles.len(),
{
    if roles.len() > 0 && roles[0].id@ != id {
        lemma_role_index_bounds(roles.drop_first(), id);
        assert forall|k: int| 0 <= k < role_index(roles, id) implies roles[k].id@ != id by {
            if k > 0 {
                assert(roles[k] == roles.drop_first()[k - 1]);
            }
        }
    }
}

fn find_role(roles: &Vec<RoleDetail>, id: &str) -> (r: usize)
    ensures
        r as int == role_index(roles@, id@),
{
    proof {
        lemma_role_index_bounds(roles@, id@);
    }
    let mut k: usize = 0;
    while k < roles.len() && !str_eq(roles[k].id.as_str(), id)
        invariant
            k <= roles.len(),
            forall|m: int| 0 <= m < k ==> roles@[m].id@ != id@,
            role_index(roles@, id@) >= k,
            0 <= role_index(roles@, id@) <= roles@.len(),
            role_index(roles@, id@) < roles@.len() ==> roles@[role_index(roles@, id@)].id@ == id@,
        decreases roles.len() - k,
    {
        k = k + 1;
    }
    k
}

/// Attaches each `(role id, permission key)` row to the first role with
/// that id; rows of unknown roles are dropped.
pub fn attach_permissions(roles: Vec<RoleDetail>, rows: Vec<(String, String)>) -> (r: Vec<
    RoleDetail,
>)
    ensures
        r@.len() == roles@.len(),
        forall|i: int|
            0 <= i < r@.len() ==> {
                &&& (#[trigger] r@[i]).id == roles@[i].id
                &&& r@[i].key == roles@[i].key
                &&& r@[i].name == roles@[i].name
                &&& r@[i].description == roles@[i].description
                &&& string_views(r@[i].permission_keys@) == string_views(
                    roles@[i].permission_keys@,
                ) + keys_of(roles@, pair_views(rows@), i)
            },
{
    let ghost initial = roles@;
    let mut out = roles;
    let mut k: usize = 0;
    while k < rows.len()
        invariant
            k <= rows.len(),
            out@.len() == initial.len(),
            forall|i: int|
                0 <= i < out@.len() ==> {
                    &&& (#[trigger] out@[i]).id == initial[i].id
                    &&& out@[i].key == initial[i].key
                    &&& out@[i].name == initial[i].name
                    &&& out@[i].description == initial[i].description
                    &&& string_views(out@[i].permission_keys@) == string_views(
                        initial[i].permission_keys@,
                    ) + keys_of(initial, pair_views(rows@).take(k as int), i)
                },
        decreases rows.len() - k,
    {
        let ghost prev = out@;
        assert(pair_views(rows@).take(k + 1).drop_last() =~= pair_views(rows@).take(k as int));
        assert(pair_views(rows@).take(k + 1).last() == (rows@[k as int].0@, rows@[k as int].1@));
        proof {
            assert forall|i: int| 0 <= i < initial.len() implies #[trigger] initial[i].id
                == prev[i].id by {}
        }
        let idx = find_role(&out, rows[k].0.as_str());
        proof {
            assert(out@ =~= prev);
            lemma_role_index_bounds(initial, rows@[k as int].0@);
            lemma_role_index_bounds(prev, rows@[k as int].0@);
            // The ids agree, so the first matching index agrees.
            assert(role_index(prev, rows@[k as int].0@) == role_index(
                initial,
                rows@[k as int].0@,
            )) by {
                let a = role_index(prev, rows@[k as int].0@);
                let b = role_index(initial, rows@[k as int].0@);
                if a < b {
                    assert(prev[a].id == initial[a].id);
                } else if b < a {
                    assert(prev[b].id == initial[b].id);
                }
            }
        }
        if idx < out.len() {
            let key = rows[k].1.clone();
            let mut role = out.remove(idx);
            let ghost old_keys = role.permission_keys@;
            role.permission_keys.push(key);
            out.insert(idx, role);
            proof {
                assert(string_views(out@[idx as int].permission_keys@) =~= string_views(old_keys).push(
                    rows@[k as int].1@,
                ));
                assert forall|i: int| 0 <= i < out@.len() implies {
                    &&& (#[trigger] out@[i]).id == initial[i].id
                    &&& out@[i].key == initial[i].key
                    &&& out@[i].name == initial[i].name
                    &&& out@[i].description == initial[i].description
                    &&& string_views(out@[i].permission_keys@) == string_views(
                        initial[i].permission_keys@,
                    ) + keys_of(initial, pair_views(rows@).take(k + 1), i)
                } by {
                    if i == idx {
                        assert(string_views(initial[i].permission_keys@) + keys_of(
                            initial,
                            pair_views(rows@).take(k as int),
                            i,
                        ).push(rows@[k as int].1@) =~= (string_views(initial[i].permission_keys@)
                            + keys_of(initial, pair_views(rows@).take(k as int), i)).push(
                            rows@[k as int].1@,
                        ));
                    } else {
                        assert(out@[i] == prev[i]);
                    }
                }
            }
        }
        k = k + 1;
    }
    assert(pair_views(rows@).take(rows.len() as int) =~= pair_views(rows@));
    out
}

} // verus!
