//! The acting identity: who makes the request, in what lifecycle state, and
//! with which capabilities. The identity is resolved once per request —
//! outside this library for a presented token — and is immutable afterwards;
//! a request without a token acts as the guest, with a configured default
//! permission set and the nil user id.

use vstd::prelude::*;

use crate::models::{Permission, UserId, UserState};

verus! {

/// The nil user id, used by the guest actor.
pub const GUEST_USER_ID: UserId = 0;

/// What every use case asks of the acting identity. Implementations must
/// answer consistently within a request: each accessor returns the one value
/// the corresponding spec function names.
pub trait IdProvider {
    spec fn spec_user_id(&self) -> UserId;

    spec fn spec_user_state(&self) -> UserState;

    spec fn spec_permissions(&self) -> Seq<Permission>;

    fn user_id(&self) -> (r: &UserId)
        ensures
            *r == self.spec_user_id(),
    ;

    fn user_state(&self) -> (r: &UserState)
        ensures
            *r == self.spec_user_state(),
    ;

    fn permissions(&self) -> (r: &Vec<Permission>)
        ensures
            r@ == self.spec_permissions(),
    ;
}

/// The identity carried by a verified token's claims, or the guest identity
/// when no token was presented. Token verification itself happens outside;
/// this type only holds what it resolved to.
pub struct JwtIdProvider {
    user_id: UserId,
    permissions: Vec<Permission>,
    user_state: UserState,
}

impl JwtIdProvider {
    /// The guest actor: nil user id, active, with the configured default
    /// permission set.
    pub fn guest(guest_perms: Vec<Permission>) -> (r: JwtIdProvider)
        ensures
            r.spec_user_id() == GUEST_USER_ID,
            r.spec_user_state() == UserState::Active,
            r.spec_permissions() == guest_perms@,
    {
        JwtIdProvider { user_id: GUEST_USER_ID, permissions: guest_perms, user_state: UserState::Active }
    }

    /// The actor a verified token's claims describe.
    pub fn from_claims(user_id: UserId, permissions: Vec<Permission>, user_state: UserState) -> (r:
        JwtIdProvider)
        ensures
            r.spec_user_id() == user_id,
            r.spec_user_state() == user_state,
            r.spec_permissions() == permissions@,
    {
        JwtIdProvider { user_id, permissions, user_state }
    }
}

impl IdProvider for JwtIdProvider {
    closed spec fn spec_user_id(&self) -> UserId {
        self.user_id
    }

    closed spec fn spec_user_state(&self) -> UserState {
        self.user_state
    }

    closed spec fn spec_permissions(&self) -> Seq<Permission> {
        self.permissions@
    }

    fn user_id(&self) -> (r: &UserId) {
        &self.user_id
    }

    fn user_state(&self) -> (r: &UserState) {
        &self.user_state
    }

    fn permissions(&self) -> (r: &Vec<Permission>) {
        &self.permissions
    }
}

} // verus!
