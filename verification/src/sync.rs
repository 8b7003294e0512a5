//! Customer data shared across a tenant's stores: which outbox events are
//! fanned out, to which stores, and what an event's outcome records.
use vstd::prelude::*;
use crate::text::{str_eq, to_owned};

verus! {

/// The kinds of customer event the sync worker handles.
#[derive(Debug, Clone, Copy, PartialEq, Eq)]
pub enum SyncEvent {
    ProfileUpsert,
    IdentityUpsert,
    AddressUpsert,
    Other,
}

/// The kind of an outbox event, by its type name.
pub open spec fn event_kind_spec(event_type: Seq<char>) -> SyncEvent {
    if event_type == "customer.profile_upsert"@ {
        SyncEvent::ProfileUpsert
    } else if event_type == "customer.identity_upsert"@ {
        SyncEvent::IdentityUpsert
    } else if event_type == "customer.address_upsert"@ {
        SyncEvent::AddressUpsert
    } else {
        SyncEvent::Other
    }
}

/// The kind of an outbox event, by its type name.
pub fn event_kind(event_type: &str) -> (r: SyncEvent)
    ensures
        r == event_kind_spec(event_type@),
{
    if str_eq(event_type, "customer.profile_upsert") {
        SyncEvent::ProfileUpsert
    } else if str_eq(event_type, "customer.identity_upsert") {
        SyncEvent::IdentityUpsert
    } else if str_eq(event_type, "customer.address_upsert") {
        SyncEvent::AddressUpsert
    } else {
        SyncEvent::Other
    }
}

/// Only profile and identity changes are copied to the other stores;
/// address changes and other events are acknowledged without work.
pub fn is_fanned_out(kind: SyncEvent) -> (r: bool)
    ensures
        r == (kind == SyncEvent::ProfileUpsert || kind == SyncEvent::IdentityUpsert),
{
    match kind {
        SyncEvent::ProfileUpsert => true,
        SyncEvent::IdentityUpsert => true,
        _ => false,
    }
}

/// A change is copied to a store (ids as 128-bit UUID values) unless the
/// store is where it came from or already took this event.
pub fn should_sync_store(store: u128, source: Option<u128>, already_processed: bool) -> (r: bool)
    ensures
        r == (source != Some(store) && !already_processed),
{
    let from_source = match source {
        Some(s) => s == store,
        None => false,
    };
    !from_source && !already_processed
}

/// The status an outbox event is left in: `published` when handled,
/// `failed` otherwise.
pub fn outcome_status(handled: bool) -> (r: String)
    ensures
        r@ == if handled {
            "published"@
        } else {
            "failed"@
        },
{
    if handled {
        to_owned("published")
    } else {
        to_owned("failed")
    }
}

/// An optional text column: none for empty text.
pub fn optional_column(value: &str) -> (r: Option<String>)
    ensures
        if value@.len() == 0 {
            r is None
        } else {
            r matches Some(s) && s@ == value@
        },
{
    if value.is_empty() {
        None
    } else {
        Some(to_owned(value))
    }
}

} // verus!
