use share_invitations::{
    AcceptInvitation, BodyKind, Controller, CreateInvitation, CreateServiceInvitation,
    InvitationListKind, Invitations, ListInvitations, Method, Operation, Request, RequestBody,
    ResultKind, RoleInShare, ShareScope,
};

#[test]
fn create_invitation_posts_parameters_unchanged() {
    let c = Controller::new();
    let r = c.create_invitation(
        Some("2024-01-01T00:00:00Z".to_string()),
        RoleInShare::Admin,
        "bob@example.com".to_string(),
        Some(3),
        ShareScope::Project,
        "p-42".to_string(),
    );
    assert_eq!(r.service, "users");
    assert_eq!(r.request.method, Method::Post);
    assert_eq!(r.request.path, "/v0/invites");
    assert_eq!(r.expects, ResultKind::SentInvitation);
    assert_eq!(
        r.request.body,
        Some(RequestBody::CreateInvitation(CreateInvitation {
            expires_at: Some("2024-01-01T00:00:00Z".to_string()),
            grant_role: RoleInShare::Admin,
            recipient_email: "bob@example.com".to_string(),
            remaining_uses: Some(3),
            scope: ShareScope::Project,
            target_id: "p-42".to_string(),
        }))
    );
    assert_eq!(r.request.operation(), Some(Operation::CreateInvitation));
}

#[test]
fn create_invitation_keeps_absent_optionals() {
    let r = Controller::new().create_invitation(
        None,
        RoleInShare::Guest,
        String::new(),
        None,
        ShareScope::Space,
        String::new(),
    );
    match r.request.body {
        Some(RequestBody::CreateInvitation(b)) => {
            assert_eq!(b.expires_at, None);
            assert_eq!(b.remaining_uses, None);
            assert_eq!(b.grant_role, RoleInShare::Guest);
            assert_eq!(b.scope, ShareScope::Space);
        }
        other => panic!("unexpected body {:?}", other),
    }
}

#[test]
fn create_service_invitation_posts_to_service_path() {
    let r = Controller::new().create_service_invitation(
        None,
        "proj".to_string(),
        "a@b.c".to_string(),
        "P1dentity".to_string(),
        "/dnsaddr/p/tcp/4000".to_string(),
        "Auth1dentity".to_string(),
        "/dnsaddr/a/tcp/4001".to_string(),
        "Node1dentity".to_string(),
        "/dnsaddr/n/tcp/4002".to_string(),
        "ticket".to_string(),
    );
    assert_eq!(r.service, "users");
    assert_eq!(r.request.method, Method::Post);
    assert_eq!(r.request.path, "/v0/invites/service");
    assert_eq!(r.expects, ResultKind::SentInvitation);
    assert_eq!(
        r.request.body,
        Some(RequestBody::CreateServiceInvitation(CreateServiceInvitation {
            expires_at: None,
            project_id: "proj".to_string(),
            recipient_email: "a@b.c".to_string(),
            project_identity: "P1dentity".to_string(),
            project_route: "/dnsaddr/p/tcp/4000".to_string(),
            project_authority_identity: "Auth1dentity".to_string(),
            project_authority_route: "/dnsaddr/a/tcp/4001".to_string(),
            shared_node_identity: "Node1dentity".to_string(),
            shared_node_route: "/dnsaddr/n/tcp/4002".to_string(),
            enrollment_ticket: "ticket".to_string(),
        }))
    );
    assert_eq!(r.request.operation(), Some(Operation::CreateServiceInvitation));
}

#[test]
fn accept_invitation_posts_id() {
    let r = Controller::new().accept_invitation("inv-1".to_string());
    assert_eq!(r.service, "users");
    assert_eq!(r.request.method, Method::Post);
    assert_eq!(r.request.path, "/v0/redeem_invite");
    assert_eq!(r.expects, ResultKind::AcceptedInvitation);
    assert_eq!(
        r.request.body,
        Some(RequestBody::AcceptInvitation(AcceptInvitation { id: "inv-1".to_string() }))
    );
    assert_eq!(r.request.operation(), Some(Operation::AcceptInvitation));
}

#[test]
fn accept_invitation_with_empty_id() {
    let r = Controller::new().accept_invitation(String::new());
    assert_eq!(r.request.path, "/v0/redeem_invite");
    assert_eq!(
        r.request.body,
        Some(RequestBody::AcceptInvitation(AcceptInvitation { id: String::new() }))
    );
}

#[test]
fn show_invitation_gets_id_verbatim() {
    let r = Controller::new().show_invitation("a b/c?d".to_string());
    assert_eq!(r.service, "users");
    assert_eq!(r.request.method, Method::Get);
    assert_eq!(r.request.path, "/v0/invites/a b/c?d");
    assert_eq!(r.request.body, None);
    assert_eq!(r.expects, ResultKind::InvitationWithAccess);
    assert_eq!(r.request.operation(), Some(Operation::ShowInvitation));
}

#[test]
fn show_invitation_named_like_service_path() {
    let r = Controller::new().show_invitation("service".to_string());
    assert_eq!(r.request.path, "/v0/invites/service");
    assert_eq!(r.request.operation(), Some(Operation::ShowInvitation));
}

#[test]
fn list_invitations_sent_and_received() {
    let c = Controller::new();
    let sent = c.list_invitations(InvitationListKind::Sent);
    let received = c.list_invitations(InvitationListKind::Received);
    assert_eq!(sent.request.method, Method::Get);
    assert_eq!(sent.request.path, "/v0/invites");
    assert_eq!(
        sent.request.body,
        Some(RequestBody::ListInvitations(ListInvitations { kind: InvitationListKind::Sent }))
    );
    assert_eq!(
        received.request.body,
        Some(RequestBody::ListInvitations(ListInvitations { kind: InvitationListKind::Received }))
    );
    assert_eq!(sent.service, received.service);
    assert_eq!(sent.request.method, received.request.method);
    assert_eq!(sent.request.path, received.request.path);
    assert_eq!(sent.expects, ResultKind::InvitationList);
    assert_eq!(sent.expects, received.expects);
    assert_ne!(sent.request.body, received.request.body);
    assert_eq!(sent.request.operation(), Some(Operation::ListInvitations));
}

#[test]
fn operation_table_rows() {
    let ops = [
        (Operation::CreateInvitation, Method::Post, BodyKind::CreateInvitation, ResultKind::SentInvitation),
        (Operation::CreateServiceInvitation, Method::Post, BodyKind::CreateServiceInvitation, ResultKind::SentInvitation),
        (Operation::AcceptInvitation, Method::Post, BodyKind::AcceptInvitation, ResultKind::AcceptedInvitation),
        (Operation::ShowInvitation, Method::Get, BodyKind::Empty, ResultKind::InvitationWithAccess),
        (Operation::ListInvitations, Method::Get, BodyKind::ListInvitations, ResultKind::InvitationList),
    ];
    for (op, m, b, k) in ops {
        assert_eq!(op.method(), m);
        assert_eq!(op.body_kind(), b);
        assert_eq!(op.result_kind(), k);
    }
}

#[test]
fn unknown_routes_have_no_operation() {
    assert_eq!(Request::get("/v0/other".to_string()).operation(), None);
    assert_eq!(Request::post("/v0/invites/x".to_string()).operation(), None);
    assert_eq!(Request::get("/v0/invite".to_string()).operation(), None);
}

#[test]
fn wrong_body_type_has_no_operation() {
    let r = Request::post("/v0/invites".to_string()).body(RequestBody::AcceptInvitation(
        AcceptInvitation { id: "x".to_string() },
    ));
    assert_eq!(r.body_kind(), BodyKind::AcceptInvitation);
    assert_eq!(r.operation(), None);
    assert_eq!(Request::post("/v0/redeem_invite".to_string()).operation(), None);
}
