//! Who is calling: a user, or a microdevice of a cluster.
use vstd::prelude::*;
use crate::dispatch::{ErrorReason, LookupError};

verus! {

/// The caller's identity, handed over by the session layer.
#[derive(Debug, PartialEq)]
pub enum Ctx {
    UserCtx { user_id: String },
    MicrodeviceCtx { device_id: String, cluster_id: String },
}

impl Ctx {
    /// The context of the user with this id.
    pub fn new_user(uuid: String) -> (r: Ctx)
        ensures
            r == (Ctx::UserCtx { user_id: uuid }),
    {
        Ctx::UserCtx { user_id: uuid }
    }

    /// The user's id, for a user context.
    pub fn get_user_id(&self) -> (r: Option<&String>)
        ensures
            match *self {
                Ctx::UserCtx { user_id } => r == Some(&user_id),
                _ => r is None,
            },
    {
        match self {
            Ctx::UserCtx { user_id } => Some(user_id),
            _ => None,
        }
    }

    /// The device and cluster ids, for a microdevice context.
    pub fn get_microdevice_ids(&self) -> (r: Option<(&String, &String)>)
        ensures
            match *self {
                Ctx::MicrodeviceCtx { device_id, cluster_id } => r == Some((&device_id, &cluster_id)),
                _ => r is None,
            },
    {
        match self {
            Ctx::MicrodeviceCtx { device_id, cluster_id } => Some((device_id, cluster_id)),
            _ => None,
        }
    }
}

/// Cluster operations are open to users only: the user's id, or an
/// unauthorized error for a microdevice.
pub fn validate_user_ctx(ctx: &Ctx) -> (r: Result<&String, LookupError>)
    ensures
        match *ctx {
            Ctx::UserCtx { user_id } => r == Ok::<&String, LookupError>(&user_id),
            _ => r matches Err(e) && e.reason == ErrorReason::Unauthorized && e.message@
                == "Microdevice context cannot access cluster operations"@,
        },
{
    match ctx {
        Ctx::UserCtx { user_id } => Ok(user_id),
        _ => Err(
            LookupError {
                reason: ErrorReason::Unauthorized,
                message: String::from_str("Microdevice context cannot access cluster operations"),
            },
        ),
    }
}

} // verus!
