//! A typed client for a remote invitation-sharing service: typed operations are
//! shaped into addressed requests, and transport outcomes into typed replies.
//! The default-identity resolution of the command line is modelled as a decision
//! over the local identity state.
use vstd::prelude::*;

pub mod text;
pub mod share;
pub mod request;
pub mod reply;
pub mod invitations;
pub mod identity;

pub use identity::{
    create_default_identity, default_identity_name, identity_name_parser, DefaultIdentityCreation,
    IdentityCommand, IdentityHandler, IdentitySubcommand, IdentityTask, NameResolution,
};
pub use invitations::{Controller, Invitations, ServiceRequest};
pub use reply::{reply_from_exchange, Exchange, Failure, FailureKind, Reply, STATUS_OK};
pub use request::{BodyKind, Method, Operation, Request, RequestBody, ResultKind};
pub use share::{
    AcceptInvitation, CreateInvitation, CreateServiceInvitation, InvitationListKind,
    ListInvitations, RoleInShare, ShareScope,
};

verus! {

} // verus!
