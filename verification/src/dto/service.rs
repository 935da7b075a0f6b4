//! Services as clients see and send them. An administrator sees a service
//! with its key; everyone else sees it without.

use crate::database::models::service;
use crate::database::models::service::Service;
use vstd::prelude::*;
use vstd::std_specs::convert::FromSpecImpl;

verus! {

/// A service as an administrator sees it.
#[derive(Debug, Clone, PartialEq, Eq)]
pub struct ServicePayloadAdmin {
    pub id: u32,
    pub name: String,
    pub api_key: String,
}

/// A service as a user sees it: without its key.
#[derive(Debug, Clone, PartialEq, Eq)]
pub struct ServicePayloadUser {
    pub id: u32,
    pub name: String,
}

/// A service that a client wants to create.
#[derive(Debug, Clone, PartialEq, Eq)]
pub struct ServiceCreatePayload {
    pub name: String,
}

/// A change that a client wants to make to a service.
#[derive(Debug, Clone, PartialEq, Eq)]
pub struct ServicePatchPayload {
    pub name: String,
}

/// A service as an administrator sees it.
pub open spec fn admin_view(value: Service) -> ServicePayloadAdmin {
    ServicePayloadAdmin { id: value.id, name: value.name, api_key: value.api_key }
}

/// A service as a user sees it.
pub open spec fn user_view(value: Service) -> ServicePayloadUser {
    ServicePayloadUser { id: value.id, name: value.name }
}

impl From<Service> for ServicePayloadAdmin {
    fn from(value: Service) -> (payload: ServicePayloadAdmin) {
        ServicePayloadAdmin { id: value.id, name: value.name, api_key: value.api_key }
    }
}

impl FromSpecImpl<Service> for ServicePayloadAdmin {
    open spec fn obeys_from_spec() -> bool {
        true
    }

    open spec fn from_spec(value: Service) -> ServicePayloadAdmin {
        admin_view(value)
    }
}

impl From<Service> for ServicePayloadUser {
    fn from(value: Service) -> (payload: ServicePayloadUser) {
        ServicePayloadUser { id: value.id, name: value.name }
    }
}

impl FromSpecImpl<Service> for ServicePayloadUser {
    open spec fn obeys_from_spec() -> bool {
        true
    }

    open spec fn from_spec(value: Service) -> ServicePayloadUser {
        user_view(value)
    }
}

impl From<ServiceCreatePayload> for service::ServiceCreatePayload {
    fn from(value: ServiceCreatePayload) -> (create: service::ServiceCreatePayload) {
        service::ServiceCreatePayload { name: value.name }
    }
}

impl FromSpecImpl<ServiceCreatePayload> for service::ServiceCreatePayload {
    open spec fn obeys_from_spec() -> bool {
        true
    }

    open spec fn from_spec(value: ServiceCreatePayload) -> service::ServiceCreatePayload {
        service::ServiceCreatePayload { name: value.name }
    }
}

impl From<ServicePatchPayload> for service::ServicePatchPayload {
    fn from(value: ServicePatchPayload) -> (patch: service::ServicePatchPayload) {
        service::ServicePatchPayload { name: value.name }
    }
}

impl FromSpecImpl<ServicePatchPayload> for service::ServicePatchPayload {
    open spec fn obeys_from_spec() -> bool {
        true
    }

    open spec fn from_spec(value: ServicePatchPayload) -> service::ServicePatchPayload {
        service::ServicePatchPayload { name: value.name }
    }
}

impl ServicePayloadAdmin {
    /// All services as an administrator sees them, in the order given.
    pub fn all(services: Vec<Service>) -> (payloads: Vec<ServicePayloadAdmin>)
        ensures
            payloads.len() == services.len(),
            forall|i: int|
                0 <= i < services.len() ==> #[trigger] payloads[i] == admin_view(services[i]),
    {
        let mut left = services;
        let mut payloads: Vec<ServicePayloadAdmin> = Vec::new();
        let ghost all = left@;
        while left.len() > 0
            invariant
                all == services@,
                payloads.len() + left.len() == all.len(),
                left@ == all.subrange(payloads.len() as int, all.len() as int),
                forall|i: int|
                    0 <= i < payloads.len() ==> #[trigger] payloads[i] == admin_view(all[i]),
            decreases left.len(),
        {
            let ghost before = left@;
            let service = left.remove(0);
            assert(left@ =~= all.subrange(payloads.len() + 1, all.len() as int));
            payloads.push(ServicePayloadAdmin::from(service));
        }
        payloads
    }
}

impl ServicePayloadUser {
    /// All services as a user sees them, in the order given.
    pub fn all(services: Vec<Service>) -> (payloads: Vec<ServicePayloadUser>)
        ensures
            payloads.len() == services.len(),
            forall|i: int|
                0 <= i < services.len() ==> #[trigger] payloads[i] == user_view(services[i]),
    {
        let mut left = services;
        let mut payloads: Vec<ServicePayloadUser> = Vec::new();
        let ghost all = left@;
        while left.len() > 0
            invariant
                all == services@,
                payloads.len() + left.len() == all.len(),
                left@ == all.subrange(payloads.len() as int, all.len() as int),
                forall|i: int|
                    0 <= i < payloads.len() ==> #[trigger] payloads[i] == user_view(all[i]),
            decreases left.len(),
        {
            let service = left.remove(0);
            assert(left@ =~= all.subrange(payloads.len() + 1, all.len() as int));
            payloads.push(ServicePayloadUser::from(service));
        }
        payloads
    }
}

} // verus!
