//! The invitation operations, shaped into requests addressed to the sharing
//! service.
use vstd::prelude::*;

use crate::request::{
    body_kind_of, invitation_path_prefix, invites_path, kind_of_body, method_of, operation_of,
    path_of, redeem_path, result_kind_of, service_invites_path, Method, Operation, Request,
    RequestBody, ResultKind,
};
use crate::share::{
    AcceptInvitation, CreateInvitation, CreateServiceInvitation, InvitationListKind,
    ListInvitations, RoleInShare, ShareScope,
};

verus! {

/// The name of the remote service every invitation request is addressed to.
pub open spec fn api_service() -> Seq<char> {
    seq!['u', 's', 'e', 'r', 's']
}

/// A request, the service it is addressed to, and the payload type that a
/// successful reply to it carries.
#[derive(Clone, Debug, PartialEq, Eq)]
pub struct ServiceRequest {
    pub service: String,
    pub request: Request,
    pub expects: ResultKind,
}

/// Whether `r` is the request of operation `op`, addressed to the sharing
/// service, with `id` standing in its path where the operation takes one.
pub open spec fn is_request_of(r: ServiceRequest, op: Operation, id: Seq<char>) -> bool {
    &&& r.service@ == api_service()
    &&& r.request.method == method_of(op)
    &&& r.request.path@ == path_of(op, id)
    &&& kind_of_body(r.request.body) == body_kind_of(op)
    &&& r.expects == result_kind_of(op)
}

/// The five operations on invitations. Each builds one request with a fixed
/// method and path and the parameters, unchanged, as its body.
pub trait Invitations {
    fn create_invitation(
        &self,
        expires_at: Option<String>,
        grant_role: RoleInShare,
        recipient_email: String,
        remaining_uses: Option<usize>,
        scope: ShareScope,
        target_id: String,
    ) -> (r: ServiceRequest)
        ensures
            is_request_of(r, Operation::CreateInvitation, seq![]),
            r.request.body == Some(
                RequestBody::CreateInvitation(
                    CreateInvitation {
                        expires_at,
                        grant_role,
                        recipient_email,
                        remaining_uses,
                        scope,
                        target_id,
                    },
                ),
            ),
    ;

    fn create_service_invitation(
        &self,
        expires_at: Option<String>,
        project_id: String,
        recipient_email: String,
        project_identity: String,
        project_route: String,
        project_authority_identity: String,
        project_authority_route: String,
        shared_node_identity: String,
        shared_node_route: String,
        enrollment_ticket: String,
    ) -> (r: ServiceRequest)
        ensures
            is_request_of(r, Operation::CreateServiceInvitation, seq![]),
            r.request.body == Some(
                RequestBody::CreateServiceInvitation(
                    CreateServiceInvitation {
                        expires_at,
                        project_id,
                        recipient_email,
                        project_identity,
                        project_route,
                        project_authority_identity,
                        project_authority_route,
                        shared_node_identity,
                        shared_node_route,
                        enrollment_ticket,
                    },
                ),
            ),
    ;

    fn accept_invitation(&self, invitation_id: String) -> (r: ServiceRequest)
        ensures
            is_request_of(r, Operation::AcceptInvitation, seq![]),
            r.request.body == Some(
                RequestBody::AcceptInvitation(AcceptInvitation { id: invitation_id }),
            ),
    ;

    fn show_invitation(&self, invitation_id: String) -> (r: ServiceRequest)
        ensures
            is_request_of(r, Operation::ShowInvitation, invitation_id@),
            r.request.body.is_none(),
    ;

    fn list_invitations(&self, kind: InvitationListKind) -> (r: ServiceRequest)
        ensures
            is_request_of(r, Operation::ListInvitations, seq![]),
            r.request.body == Some(RequestBody::ListInvitations(ListInvitations { kind })),
    ;
}

/// The client of the sharing service. Every request it builds is addressed to
/// the same service.
#[derive(Clone, Copy, Debug, PartialEq, Eq, Structural)]
pub struct Controller {}

impl Controller {
    pub fn new() -> (r: Controller) {
        Controller {  }
    }

    /// The name of the service this client addresses.
    pub fn service_address(&self) -> (r: String)
        ensures
            r@ == api_service(),
    {
        let r = String::from_str("users");
        proof {
            reveal_strlit("users");
        }
        assert(r@ =~= api_service());
        r
    }

    fn addressed(&self, request: Request, expects: ResultKind) -> (r: ServiceRequest)
        ensures
            r.service@ == api_service(),
            r.request == request,
            r.expects == expects,
    {
        ServiceRequest { service: self.service_address(), request, expects }
    }
}

fn invites() -> (r: String)
    ensures
        r@ == invites_path(),
{
    let r = String::from_str("/v0/invites");
    proof {
        reveal_strlit("/v0/invites");
    }
    assert(r@ =~= invites_path());
    r
}

impl Invitations for Controller {
    fn create_invitation(
        &self,
        expires_at: Option<String>,
        grant_role: RoleInShare,
        recipient_email: String,
        remaining_uses: Option<usize>,
        scope: ShareScope,
        target_id: String,
    ) -> (r: ServiceRequest) {
        let body = CreateInvitation {
            expires_at,
            grant_role,
            recipient_email,
            remaining_uses,
            scope,
            target_id,
        };
        let req = Request::post(invites()).body(RequestBody::CreateInvitation(body));
        self.addressed(req, ResultKind::SentInvitation)
    }

    fn create_service_invitation(
        &self,
        expires_at: Option<String>,
        project_id: String,
        recipient_email: String,
        project_identity: String,
        project_route: String,
        project_authority_identity: String,
        project_authority_route: String,
        shared_node_identity: String,
        shared_node_route: String,
        enrollment_ticket: String,
    ) -> (r: ServiceRequest) {
        let body = CreateServiceInvitation {
            expires_at,
            project_id,
            recipient_email,
            project_identity,
            project_route,
            project_authority_identity,
            project_authority_route,
            shared_node_identity,
            shared_node_route,
            enrollment_ticket,
        };
        let path = String::from_str("/v0/invites/service");
        proof {
            reveal_strlit("/v0/invites/service");
        }
        assert(path@ =~= service_invites_path());
        let req = Request::post(path).body(RequestBody::CreateServiceInvitation(body));
        self.addressed(req, ResultKind::SentInvitation)
    }

    fn accept_invitation(&self, invitation_id: String) -> (r: ServiceRequest) {
        let path = String::from_str("/v0/redeem_invite");
        proof {
            reveal_strlit("/v0/redeem_invite");
        }
        assert(path@ =~= redeem_path());
        let body = AcceptInvitation { id: invitation_id };
        let req = Request::post(path).body(RequestBody::AcceptInvitation(body));
        self.addressed(req, ResultKind::AcceptedInvitation)
    }

    fn show_invitation(&self, invitation_id: String) -> (r: ServiceRequest) {
        let prefix = String::from_str("/v0/invites/");
        proof {
            reveal_strlit("/v0/invites/");
        }
        assert(prefix@ =~= invitation_path_prefix());
        let path = prefix.concat(invitation_id.as_str());
        let req = Request::get(path);
        self.addressed(req, ResultKind::InvitationWithAccess)
    }

    fn list_invitations(&self, kind: InvitationListKind) -> (r: ServiceRequest) {
        let req = Request::get(invites()).body(
            RequestBody::ListInvitations(ListInvitations { kind }),
        );
        self.addressed(req, ResultKind::InvitationList)
    }
}

/// Re-deriving the operation from a request built for it gives that operation
/// back: the method, the path and the body type of each operation single it
/// out among the five, whatever identifier stands in the path.
pub proof fn lemma_operation_round_trip(op: Operation, id: Seq<char>, body: Option<RequestBody>)
    requires
        kind_of_body(body) == body_kind_of(op),
    ensures
        operation_of(method_of(op), path_of(op, id), body) == Some(op),
{
    assert(!invitation_path_prefix().is_prefix_of(invites_path()));
    assert(invitation_path_prefix().is_prefix_of(invitation_path_prefix() + id)) by {
        assert((invitation_path_prefix() + id).subrange(0, invitation_path_prefix().len() as int)
            =~= invitation_path_prefix());
    }
    assert(service_invites_path().len() != invites_path().len());
    assert(redeem_path().len() != invites_path().len());
    assert(redeem_path().len() != service_invites_path().len());
}

/// Every request the client builds is recognised as the request of the
/// operation that built it, and matches that operation's row of the table.
pub proof fn lemma_request_round_trip(r: ServiceRequest, op: Operation, id: Seq<char>)
    requires
        is_request_of(r, op, id),
    ensures
        operation_of(r.request.method, r.request.path@, r.request.body) == Some(op),
        r.request.method == method_of(op),
        kind_of_body(r.request.body) == body_kind_of(op),
        r.expects == result_kind_of(op),
{
    lemma_operation_round_trip(op, id, r.request.body);
}

/// The two listings of sent and of received invitations differ only in the
/// kind their body names.
pub proof fn lemma_list_kinds_differ_only_in_kind(
    sent: ServiceRequest,
    received: ServiceRequest,
)
    requires
        is_request_of(sent, Operation::ListInvitations, seq![]),
        is_request_of(received, Operation::ListInvitations, seq![]),
        sent.request.body == Some(
            RequestBody::ListInvitations(ListInvitations { kind: InvitationListKind::Sent }),
        ),
        received.request.body == Some(
            RequestBody::ListInvitations(ListInvitations { kind: InvitationListKind::Received }),
        ),
    ensures
        sent.service@ == received.service@,
        sent.request.method == Method::Get,
        received.request.method == Method::Get,
        sent.request.path@ == received.request.path@,
        sent.expects == received.expects,
        sent.request.body != received.request.body,
{
}

} // verus!
