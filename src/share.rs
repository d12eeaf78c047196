//! Payloads exchanged with the sharing service.
use vstd::prelude::*;

verus! {

/// The kind of resource an invitation grants access to.
#[derive(Clone, Copy, Debug, PartialEq, Eq, Structural)]
pub enum ShareScope {
    Project,
    Service,
    Space,
}

/// The permission level an invitation grants.
#[derive(Clone, Copy, Debug, PartialEq, Eq, Structural)]
pub enum RoleInShare {
    Admin,
    Guest,
    Service,
}

/// Which class of invitations a listing enumerates.
#[derive(Clone, Copy, Debug, PartialEq, Eq, Structural)]
pub enum InvitationListKind {
    All,
    Sent,
    Received,
    Accepted,
}

/// Body of a request that creates an invitation.
#[derive(Clone, Debug, PartialEq, Eq)]
pub struct CreateInvitation {
    pub expires_at: Option<String>,
    pub grant_role: RoleInShare,
    pub recipient_email: String,
    pub remaining_uses: Option<usize>,
    pub scope: ShareScope,
    pub target_id: String,
}

/// Body of a request that creates an invitation to a shared service, with the
/// connection material the recipient needs. No field is checked here: the
/// service is authoritative.
#[derive(Clone, Debug, PartialEq, Eq)]
pub struct CreateServiceInvitation {
    pub expires_at: Option<String>,
    pub project_id: String,
    pub recipient_email: String,
    pub project_identity: String,
    pub project_route: String,
    pub project_authority_identity: String,
    pub project_authority_route: String,
    pub shared_node_identity: String,
    pub shared_node_route: String,
    pub enrollment_ticket: String,
}

/// Body of a request that redeems an invitation.
#[derive(Clone, Debug, PartialEq, Eq)]
pub struct AcceptInvitation {
    pub id: String,
}

/// Body of a request that lists invitations.
#[derive(Clone, Copy, Debug, PartialEq, Eq, Structural)]
pub struct ListInvitations {
    pub kind: InvitationListKind,
}

} // verus!
