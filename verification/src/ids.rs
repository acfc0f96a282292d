//! Entity ids as the API writes them: `{"id": <uuid>, "entityType": <type>}`.

use vstd::prelude::*;

verus! {

/// An entity id with the name of its entity type.
pub struct IdResponse {
    pub id: u128,
    pub entity_type: String,
}

impl IdResponse {
    pub fn new(id: u128, entity_type: &str) -> (r: Self)
        ensures
            r.id == id,
            r.entity_type@ == entity_type@,
    {
        IdResponse { id, entity_type: entity_type.to_owned() }
    }

    pub fn with_type(id: u128, entity_type: String) -> (r: Self)
        ensures
            r.id == id,
            r.entity_type == entity_type,
    {
        IdResponse { id, entity_type }
    }

    pub fn device(id: u128) -> (r: Self)
        ensures
            r.id == id,
            r.entity_type@ == "DEVICE"@,
    {
        Self::new(id, "DEVICE")
    }

    pub fn tenant(id: u128) -> (r: Self)
        ensures
            r.id == id,
            r.entity_type@ == "TENANT"@,
    {
        Self::new(id, "TENANT")
    }

    pub fn customer(id: u128) -> (r: Self)
        ensures
            r.id == id,
            r.entity_type@ == "CUSTOMER"@,
    {
        Self::new(id, "CUSTOMER")
    }

    pub fn profile(id: u128) -> (r: Self)
        ensures
            r.id == id,
            r.entity_type@ == "DEVICE_PROFILE"@,
    {
        Self::new(id, "DEVICE_PROFILE")
    }

    pub fn asset(id: u128) -> (r: Self)
        ensures
            r.id == id,
            r.entity_type@ == "ASSET"@,
    {
        Self::new(id, "ASSET")
    }

    pub fn alarm(id: u128) -> (r: Self)
        ensures
            r.id == id,
            r.entity_type@ == "ALARM"@,
    {
        Self::new(id, "ALARM")
    }

    pub fn dashboard(id: u128) -> (r: Self)
        ensures
            r.id == id,
            r.entity_type@ == "DASHBOARD"@,
    {
        Self::new(id, "DASHBOARD")
    }
}

/// `IdResponse::new(id, t)` for an optional id.
pub fn opt_id(id: Option<u128>, entity_type: &str) -> (r: Option<IdResponse>)
    ensures
        id is None ==> r is None,
        id matches Some(i) ==> r matches Some(x) && x.id == i && x.entity_type@ == entity_type@,
{
    match id {
        Some(i) => Some(IdResponse::new(i, entity_type)),
        None => None,
    }
}

} // verus!
