//! Account data carried between the caller and the authentication
//! collaborator.
//!
//! The HTTP exchange itself is request/response glue outside this crate;
//! these are the plain values it hands back and forth.

use vstd::prelude::*;

verus! {

/// The organizations an account may sign into.
#[derive(Clone, Debug, PartialEq, Eq)]
pub struct OrganizationList {
    pub list: Vec<String>,
}

/// The identity the authentication collaborator reports for a signed-in
/// account.
#[derive(Clone, Debug, PartialEq, Eq)]
pub struct ServerResponse {
    pub user_id: String,
    pub username: String,
}

/// The caller's view of the current sign-in state.
#[derive(Clone, Debug, PartialEq, Eq)]
pub struct AuthState {
    pub is_logged_in: bool,
    pub username: Option<String>,
    pub user_id: Option<String>,
    pub organization: Option<String>,
}

impl AuthState {
    /// The signed-out state: no identity and no organization.
    pub fn signed_out() -> (r: AuthState)
        ensures
            r.is_logged_in == false,
            r.username is None,
            r.user_id is None,
            r.organization is None,
    {
        AuthState { is_logged_in: false, username: None, user_id: None, organization: None }
    }
}

} // verus!
