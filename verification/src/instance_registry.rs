//! The instance registry: services register an endpoint against a fee, not
//! more often than once a minute for one authority, and report that they
//! are alive.
//!
//! As in the ledger, the registry does not collect the fee itself. It says
//! which transfer a registration needs, and takes the answer to finish.

use vstd::prelude::*;
use vstd::utf8::encode_utf8;
use crate::authority::{Authority, Transfer};
use crate::errors::TransferError;
use crate::identity::Identity;

verus! {

/// The longest endpoint of an instance, in bytes.
pub const MAX_ENDPOINT_LEN: usize = 200;

/// The least number of seconds between two registrations of one authority.
pub const REGISTRATION_INTERVAL: i64 = 60;

/// The length of an endpoint as it is stored: the number of bytes of its
/// UTF-8 form.
pub open spec fn endpoint_len(endpoint: Seq<char>) -> nat {
    encode_utf8(endpoint).len()
}

/// A rule of the registry that a request broke.
#[derive(Clone, Copy, Debug, PartialEq, Eq, Structural)]
pub enum RegistryError {
    /// The authority registered another instance less than a minute ago.
    RateLimitExceeded,
    /// The endpoint is longer than the limit.
    EndpointTooLong,
    /// The instance was deactivated.
    InstanceNotActive,
    /// The caller is not the authority that the operation needs.
    UnauthorizedAccess,
}

impl RegistryError {
    /// The text shown to a caller for this error.
    pub fn message(&self) -> (text: &'static str)
        ensures
            text@ == match *self {
                RegistryError::RateLimitExceeded => "Rate limit exceeded. Please wait before registering another instance."@,
                RegistryError::EndpointTooLong => "Endpoint string is too long (max 200 characters)."@,
                RegistryError::InstanceNotActive => "Instance is not active."@,
                RegistryError::UnauthorizedAccess => "Unauthorized access."@,
            },
    {
        match self {
            RegistryError::RateLimitExceeded => "Rate limit exceeded. Please wait before registering another instance.",
            RegistryError::EndpointTooLong => "Endpoint string is too long (max 200 characters).",
            RegistryError::InstanceNotActive => "Instance is not active.",
            RegistryError::UnauthorizedAccess => "Unauthorized access.",
        }
    }
}

/// Why an operation on the registry was aborted. An aborted operation leaves
/// every account as it was.
#[derive(Clone, Copy, Debug, PartialEq, Eq, Structural)]
pub enum RegistryFailure {
    /// A rule of the registry was broken.
    Registry(RegistryError),
    /// The registry exists already.
    AlreadyInitialized,
    /// An instance with this id is registered already.
    InstanceAlreadyRegistered,
    /// A counter or a difference of times would leave the range of its type.
    Arithmetic,
    /// The fee could not be collected.
    Transfer(TransferError),
}

/// The settings and the statistics of the registry. There is one per
/// deployment.
#[derive(Clone, Copy, Debug, PartialEq, Eq)]
pub struct RegistryConfig {
    /// The identity that may change the fee.
    pub admin: Identity,
    /// What a registration costs.
    pub registration_fee: u64,
    /// The number of instances ever registered.
    pub total_instances: u64,
    /// The nonce with which the address of the registry was derived.
    pub bump: u8,
}

/// The record of one registered instance.
#[derive(Clone, Debug, PartialEq, Eq)]
pub struct InstanceRecord {
    pub instance_id: [u8; 32],
    /// The identity that registered the instance and speaks for it.
    pub authority: Identity,
    /// Where the instance is reached, at most `MAX_ENDPOINT_LEN` bytes.
    pub endpoint: String,
    pub registered_at: i64,
    /// When the instance last reported that it is alive.
    pub last_heartbeat: i64,
    pub is_active: bool,
    /// The nonce with which the address of the record was derived.
    pub bump: u8,
}

impl InstanceRecord {
    /// The endpoint fits the space that a record has for it.
    pub open spec fn wf(self) -> bool {
        endpoint_len(self.endpoint@) <= MAX_ENDPOINT_LEN
    }
}

/// What the registry remembers of the registrations of one authority.
#[derive(Clone, Copy, Debug, PartialEq, Eq)]
pub struct RateLimitAccount {
    pub authority: Identity,
    /// When the authority last registered an instance; 0 before the first.
    pub last_registration: i64,
    pub registration_count: u32,
    /// The nonce with which the address of the account was derived.
    pub bump: u8,
}

/// The notice that an instance was registered.
#[derive(Clone, Copy, Debug, PartialEq, Eq)]
pub struct InstanceRegistered {
    pub instance_id: [u8; 32],
    pub authority: Identity,
    pub timestamp: i64,
}

/// The notice that an instance was deactivated.
#[derive(Clone, Copy, Debug, PartialEq, Eq)]
pub struct InstanceDeactivated {
    pub instance_id: [u8; 32],
    pub timestamp: i64,
}

/// The accounts of `initialize`.
#[derive(Clone, Copy, Debug, PartialEq, Eq)]
pub struct Initialize {
    /// The place of the registry: empty until it is created.
    pub registry: Option<RegistryConfig>,
    /// The caller, who becomes the admin.
    pub admin: Identity,
    /// The nonce with which the address of the registry was derived.
    pub bump: u8,
}

/// The accounts of `register_instance`.
#[derive(Clone, Debug, PartialEq, Eq)]
pub struct RegisterInstance {
    pub registry: RegistryConfig,
    /// The address of the registry, which receives the fee.
    pub registry_key: Identity,
    /// The place of the record under the id of the instance: empty until the
    /// instance is registered.
    pub instance: Option<InstanceRecord>,
    /// What is remembered of the caller's registrations: nothing before the
    /// first.
    pub rate_limit: Option<RateLimitAccount>,
    /// The caller, who pays the fee.
    pub authority: Identity,
    /// The nonce with which the address of the record was derived.
    pub instance_bump: u8,
    /// The nonce with which the address of the rate limit was derived.
    pub rate_limit_bump: u8,
}

/// The accounts of `update_heartbeat`.
#[derive(Clone, Debug, PartialEq, Eq)]
pub struct UpdateHeartbeat {
    pub instance: InstanceRecord,
    /// The caller.
    pub authority: Identity,
}

/// The accounts of `deactivate_instance`.
#[derive(Clone, Debug, PartialEq, Eq)]
pub struct DeactivateInstance {
    pub instance: InstanceRecord,
    /// The caller.
    pub authority: Identity,
}

/// The accounts of `update_registration_fee`.
#[derive(Clone, Copy, Debug, PartialEq, Eq)]
pub struct UpdateRegistry {
    pub registry: RegistryConfig,
    /// The caller.
    pub admin: Identity,
}

impl Initialize {
    /// These accounts once the registry is created with the fee
    /// `registration_fee`.
    pub open spec fn created(self, registration_fee: u64) -> Initialize {
        Initialize {
            registry: Some(
                RegistryConfig { admin: self.admin, registration_fee, total_instances: 0, bump: self.bump },
            ),
            ..self
        }
    }
}

impl RegisterInstance {
    /// When the caller last registered an instance; 0 before the first.
    pub open spec fn last_registration(self) -> i64 {
        match self.rate_limit {
            Some(limit) => limit.last_registration,
            None => 0,
        }
    }

    /// How many instances the caller has registered.
    pub open spec fn registration_count(self) -> u32 {
        match self.rate_limit {
            Some(limit) => limit.registration_count,
            None => 0,
        }
    }

    /// Why a registration at `now` is refused before the fee is asked for,
    /// if it is. The place of the record is checked first, then the
    /// endpoint, then the time since the caller's last registration.
    pub open spec fn rejection(self, endpoint: Seq<char>, now: i64) -> Option<RegistryFailure> {
        if self.instance is Some {
            Some(RegistryFailure::InstanceAlreadyRegistered)
        } else if endpoint_len(endpoint) > MAX_ENDPOINT_LEN {
            Some(RegistryFailure::Registry(RegistryError::EndpointTooLong))
        } else if self.last_registration() <= 0 {
            None
        } else if now - self.last_registration() < i64::MIN {
            Some(RegistryFailure::Arithmetic)
        } else if now - self.last_registration() < REGISTRATION_INTERVAL {
            Some(RegistryFailure::Registry(RegistryError::RateLimitExceeded))
        } else {
            None
        }
    }

    /// The transfer that collects the fee: from the caller to the registry,
    /// signed by the caller.
    pub open spec fn transfer(self) -> Transfer {
        Transfer {
            from: self.authority,
            to: self.registry_key,
            authority: Authority::Owner(self.authority),
            amount: self.registry.registration_fee,
        }
    }

    /// The notice of a registration of `instance_id` at `now`.
    pub open spec fn notice(self, instance_id: [u8; 32], now: i64) -> InstanceRegistered {
        InstanceRegistered { instance_id, authority: self.authority, timestamp: now }
    }

    /// How a registration at `now` ends when the fee transfer, if it was
    /// asked for, was answered by `outcome`.
    pub open spec fn result(
        self,
        instance_id: [u8; 32],
        endpoint: Seq<char>,
        now: i64,
        outcome: Result<(), TransferError>,
    ) -> Result<InstanceRegistered, RegistryFailure> {
        match self.rejection(endpoint, now) {
            Some(e) => Err(e),
            None => match outcome {
                Err(e) => Err(RegistryFailure::Transfer(e)),
                Ok(_) => if self.registration_count() == u32::MAX || self.registry.total_instances
                    == u64::MAX {
                    Err(RegistryFailure::Arithmetic)
                } else {
                    Ok(self.notice(instance_id, now))
                },
            },
        }
    }

    /// These accounts after `instance_id` was registered at `now`.
    pub open spec fn registered(self, instance_id: [u8; 32], endpoint: String, now: i64) -> RegisterInstance {
        RegisterInstance {
            registry: RegistryConfig {
                total_instances: (self.registry.total_instances + 1) as u64,
                ..self.registry
            },
            instance: Some(
                InstanceRecord {
                    instance_id,
                    authority: self.authority,
                    endpoint,
                    registered_at: now,
                    last_heartbeat: now,
                    is_active: true,
                    bump: self.instance_bump,
                },
            ),
            rate_limit: Some(
                RateLimitAccount {
                    authority: self.authority,
                    last_registration: now,
                    registration_count: (self.registration_count() + 1) as u32,
                    bump: self.rate_limit_bump,
                },
            ),
            ..self
        }
    }
}

impl UpdateHeartbeat {
    /// How a heartbeat ends. The instance is checked first, then the caller.
    pub open spec fn result(self) -> Result<(), RegistryFailure> {
        if !self.instance.is_active {
            Err(RegistryFailure::Registry(RegistryError::InstanceNotActive))
        } else if self.authority != self.instance.authority {
            Err(RegistryFailure::Registry(RegistryError::UnauthorizedAccess))
        } else {
            Ok(())
        }
    }

    /// These accounts after a heartbeat at `now`.
    pub open spec fn beaten(self, now: i64) -> UpdateHeartbeat {
        UpdateHeartbeat { instance: InstanceRecord { last_heartbeat: now, ..self.instance }, ..self }
    }
}

impl DeactivateInstance {
    /// These accounts after the instance was deactivated.
    pub open spec fn deactivated(self) -> DeactivateInstance {
        DeactivateInstance { instance: InstanceRecord { is_active: false, ..self.instance }, ..self }
    }
}

impl UpdateRegistry {
    /// These accounts after the fee was set to `new_fee`.
    pub open spec fn with_fee(self, new_fee: u64) -> UpdateRegistry {
        UpdateRegistry { registry: RegistryConfig { registration_fee: new_fee, ..self.registry }, ..self }
    }
}

/// Creates the registry with the caller as admin, the fee
/// `registration_fee` and no instance counted. A second creation in the
/// same place is refused.
pub fn initialize(ctx: &mut Initialize, registration_fee: u64) -> (r: Result<(), RegistryFailure>)
    ensures
        old(ctx).registry is Some ==> r == Err::<(), RegistryFailure>(RegistryFailure::AlreadyInitialized),
        old(ctx).registry is None ==> r is Ok,
        r is Ok ==> *final(ctx) == old(ctx).created(registration_fee),
        r is Err ==> *final(ctx) == *old(ctx),
{
    if ctx.registry.is_some() {
        return Err(RegistryFailure::AlreadyInitialized);
    }
    ctx.registry = Some(
        RegistryConfig { admin: ctx.admin, registration_fee, total_instances: 0, bump: ctx.bump },
    );
    Ok(())
}

/// Checks a registration with `endpoint` at `now` and gives the transfer
/// that collects the fee. The id must be free, the endpoint may not be
/// longer than `MAX_ENDPOINT_LEN` bytes, and a caller that has registered
/// before must have waited `REGISTRATION_INTERVAL` seconds.
pub fn register_instance_transfer(ctx: &RegisterInstance, endpoint: &String, now: i64) -> (r: Result<Transfer, RegistryFailure>)
    ensures
        r == match ctx.rejection(endpoint@, now) {
            Some(e) => Err::<Transfer, RegistryFailure>(e),
            None => Ok(ctx.transfer()),
        },
{
    if ctx.instance.is_some() {
        return Err(RegistryFailure::InstanceAlreadyRegistered);
    }
    if endpoint.as_str().as_bytes().len() > MAX_ENDPOINT_LEN {
        return Err(RegistryFailure::Registry(RegistryError::EndpointTooLong));
    }
    let last: i64 = match &ctx.rate_limit {
        Some(limit) => limit.last_registration,
        None => 0,
    };
    if last > 0 {
        match now.checked_sub(last) {
            None => {
                return Err(RegistryFailure::Arithmetic);
            },
            Some(waited) => {
                if waited < REGISTRATION_INTERVAL {
                    return Err(RegistryFailure::Registry(RegistryError::RateLimitExceeded));
                }
            },
        }
    }
    Ok(
        Transfer {
            from: ctx.authority,
            to: ctx.registry_key,
            authority: Authority::Owner(ctx.authority),
            amount: ctx.registry.registration_fee,
        },
    )
}

/// Registers the instance `instance_id` with `endpoint` at `now`, given the
/// answer to the transfer of `register_instance_transfer`, and gives the
/// notice to publish. The rules are checked before the answer is looked at.
/// When no rule is broken, the fee was collected and both counters have
/// room, the record is created active, the caller's rate limit is set to
/// `now` and both counters go up by one; else nothing changes.
pub fn register_instance(
    ctx: &mut RegisterInstance,
    instance_id: [u8; 32],
    endpoint: String,
    now: i64,
    outcome: Result<(), TransferError>,
) -> (r: Result<InstanceRegistered, RegistryFailure>)
    ensures
        r == old(ctx).result(instance_id, endpoint@, now, outcome),
        r is Ok ==> *final(ctx) == old(ctx).registered(instance_id, endpoint, now),
        r is Ok ==> final(ctx).instance is Some && final(ctx).instance->0.wf(),
        r is Err ==> *final(ctx) == *old(ctx),
{
    match register_instance_transfer(ctx, &endpoint, now) {
        Err(e) => {
            return Err(e);
        },
        Ok(_) => {},
    }
    match outcome {
        Err(e) => {
            return Err(RegistryFailure::Transfer(e));
        },
        Ok(_) => {},
    }
    let count: u32 = match &ctx.rate_limit {
        Some(limit) => limit.registration_count,
        None => 0,
    };
    let new_count: u32 = match count.checked_add(1) {
        None => {
            return Err(RegistryFailure::Arithmetic);
        },
        Some(c) => c,
    };
    let new_total: u64 = match ctx.registry.total_instances.checked_add(1) {
        None => {
            return Err(RegistryFailure::Arithmetic);
        },
        Some(t) => t,
    };
    ctx.instance = Some(
        InstanceRecord {
            instance_id,
            authority: ctx.authority,
            endpoint,
            registered_at: now,
            last_heartbeat: now,
            is_active: true,
            bump: ctx.instance_bump,
        },
    );
    ctx.rate_limit = Some(
        RateLimitAccount {
            authority: ctx.authority,
            last_registration: now,
            registration_count: new_count,
            bump: ctx.rate_limit_bump,
        },
    );
    ctx.registry.total_instances = new_total;
    Ok(InstanceRegistered { instance_id, authority: ctx.authority, timestamp: now })
}

/// Records that the instance is alive at `now`. The instance must be active
/// and the caller must be its authority.
pub fn update_heartbeat(ctx: &mut UpdateHeartbeat, now: i64) -> (r: Result<(), RegistryFailure>)
    ensures
        r == old(ctx).result(),
        r is Ok ==> *final(ctx) == old(ctx).beaten(now),
        r is Err ==> *final(ctx) == *old(ctx),
{
    if !ctx.instance.is_active {
        return Err(RegistryFailure::Registry(RegistryError::InstanceNotActive));
    }
    if ctx.authority != ctx.instance.authority {
        return Err(RegistryFailure::Registry(RegistryError::UnauthorizedAccess));
    }
    ctx.instance.last_heartbeat = now;
    Ok(())
}

/// Deactivates the instance, whether it was active or not, and gives the
/// notice to publish, stamped with `now`. The caller must be the authority
/// of the instance.
pub fn deactivate_instance(ctx: &mut DeactivateInstance, now: i64) -> (r: Result<InstanceDeactivated, RegistryFailure>)
    ensures
        old(ctx).authority != old(ctx).instance.authority ==> r == Err::<InstanceDeactivated, RegistryFailure>(
            RegistryFailure::Registry(RegistryError::UnauthorizedAccess),
        ),
        old(ctx).authority == old(ctx).instance.authority ==> r == Ok::<InstanceDeactivated, RegistryFailure>(
            InstanceDeactivated { instance_id: old(ctx).instance.instance_id, timestamp: now },
        ),
        r is Ok ==> *final(ctx) == old(ctx).deactivated(),
        r is Err ==> *final(ctx) == *old(ctx),
{
    if ctx.authority != ctx.instance.authority {
        return Err(RegistryFailure::Registry(RegistryError::UnauthorizedAccess));
    }
    ctx.instance.is_active = false;
    Ok(InstanceDeactivated { instance_id: ctx.instance.instance_id, timestamp: now })
}

/// Sets the fee of a registration to `new_fee`. Only the admin of the
/// registry may do so.
pub fn update_registration_fee(ctx: &mut UpdateRegistry, new_fee: u64) -> (r: Result<(), RegistryFailure>)
    ensures
        old(ctx).admin != old(ctx).registry.admin ==> r == Err::<(), RegistryFailure>(
            RegistryFailure::Registry(RegistryError::UnauthorizedAccess),
        ),
        old(ctx).admin == old(ctx).registry.admin ==> r is Ok,
        r is Ok ==> *final(ctx) == old(ctx).with_fee(new_fee),
        r is Err ==> *final(ctx) == *old(ctx),
{
    if ctx.admin != ctx.registry.admin {
        return Err(RegistryFailure::Registry(RegistryError::UnauthorizedAccess));
    }
    ctx.registry.registration_fee = new_fee;
    Ok(())
}

} // verus!
