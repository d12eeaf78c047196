//! Addressed, method-tagged requests and the table of the five operations.
use vstd::prelude::*;

use crate::share::{AcceptInvitation, CreateInvitation, CreateServiceInvitation, ListInvitations};
use crate::text::{has_prefix, same_text};

verus! {

/// The method of a request.
#[derive(Clone, Copy, Debug, PartialEq, Eq, Structural)]
pub enum Method {
    Get,
    Post,
}

/// The typed body a request carries.
#[derive(Clone, Debug, PartialEq, Eq)]
pub enum RequestBody {
    CreateInvitation(CreateInvitation),
    CreateServiceInvitation(CreateServiceInvitation),
    AcceptInvitation(AcceptInvitation),
    ListInvitations(ListInvitations),
}

/// The shape of a request body, without its contents.
#[derive(Clone, Copy, Debug, PartialEq, Eq, Structural)]
pub enum BodyKind {
    Empty,
    CreateInvitation,
    CreateServiceInvitation,
    AcceptInvitation,
    ListInvitations,
}

/// The five operations of the invitation service.
#[derive(Clone, Copy, Debug, PartialEq, Eq, Structural)]
pub enum Operation {
    CreateInvitation,
    CreateServiceInvitation,
    AcceptInvitation,
    ShowInvitation,
    ListInvitations,
}

/// The payload type an operation's successful reply carries.
#[derive(Clone, Copy, Debug, PartialEq, Eq, Structural)]
pub enum ResultKind {
    SentInvitation,
    AcceptedInvitation,
    InvitationWithAccess,
    InvitationList,
}

/// One request: exactly one method, one path, and at most one body.
#[derive(Clone, Debug, PartialEq, Eq)]
pub struct Request {
    pub method: Method,
    pub path: String,
    pub body: Option<RequestBody>,
}

pub open spec fn invites_path() -> Seq<char> {
    seq!['/', 'v', '0', '/', 'i', 'n', 'v', 'i', 't', 'e', 's']
}

pub open spec fn service_invites_path() -> Seq<char> {
    invites_path() + seq!['/', 's', 'e', 'r', 'v', 'i', 'c', 'e']
}

pub open spec fn redeem_path() -> Seq<char> {
    seq!['/', 'v', '0', '/', 'r', 'e', 'd', 'e', 'e', 'm', '_', 'i', 'n', 'v', 'i', 't', 'e']
}

/// The path under which one invitation is shown, without its identifier.
pub open spec fn invitation_path_prefix() -> Seq<char> {
    invites_path() + seq!['/']
}

/// The method each operation uses.
pub open spec fn method_of(op: Operation) -> Method {
    match op {
        Operation::ShowInvitation | Operation::ListInvitations => Method::Get,
        _ => Method::Post,
    }
}

/// The path each operation addresses; `id` is the invitation shown.
pub open spec fn path_of(op: Operation, id: Seq<char>) -> Seq<char> {
    match op {
        Operation::CreateInvitation => invites_path(),
        Operation::CreateServiceInvitation => service_invites_path(),
        Operation::AcceptInvitation => redeem_path(),
        Operation::ShowInvitation => invitation_path_prefix() + id,
        Operation::ListInvitations => invites_path(),
    }
}

/// The body type each operation sends.
pub open spec fn body_kind_of(op: Operation) -> BodyKind {
    match op {
        Operation::CreateInvitation => BodyKind::CreateInvitation,
        Operation::CreateServiceInvitation => BodyKind::CreateServiceInvitation,
        Operation::AcceptInvitation => BodyKind::AcceptInvitation,
        Operation::ShowInvitation => BodyKind::Empty,
        Operation::ListInvitations => BodyKind::ListInvitations,
    }
}

/// The payload type each operation expects back.
pub open spec fn result_kind_of(op: Operation) -> ResultKind {
    match op {
        Operation::CreateInvitation | Operation::CreateServiceInvitation => ResultKind::SentInvitation,
        Operation::AcceptInvitation => ResultKind::AcceptedInvitation,
        Operation::ShowInvitation => ResultKind::InvitationWithAccess,
        Operation::ListInvitations => ResultKind::InvitationList,
    }
}

/// The shape of an optional body.
pub open spec fn kind_of_body(body: Option<RequestBody>) -> BodyKind {
    match body {
        None => BodyKind::Empty,
        Some(RequestBody::CreateInvitation(_)) => BodyKind::CreateInvitation,
        Some(RequestBody::CreateServiceInvitation(_)) => BodyKind::CreateServiceInvitation,
        Some(RequestBody::AcceptInvitation(_)) => BodyKind::AcceptInvitation,
        Some(RequestBody::ListInvitations(_)) => BodyKind::ListInvitations,
    }
}

/// The operation a request's method and path belong to, if any.
pub open spec fn operation_of_route(method: Method, path: Seq<char>) -> Option<Operation> {
    match method {
        Method::Get => if path == invites_path() {
            Some(Operation::ListInvitations)
        } else if invitation_path_prefix().is_prefix_of(path) {
            Some(Operation::ShowInvitation)
        } else {
            None
        },
        Method::Post => if path == invites_path() {
            Some(Operation::CreateInvitation)
        } else if path == service_invites_path() {
            Some(Operation::CreateServiceInvitation)
        } else if path == redeem_path() {
            Some(Operation::AcceptInvitation)
        } else {
            None
        },
    }
}

/// The operation a request belongs to: its route names one, and its body has
/// the type that operation sends.
pub open spec fn operation_of(method: Method, path: Seq<char>, body: Option<RequestBody>) -> Option<Operation> {
    match operation_of_route(method, path) {
        Some(op) => if body_kind_of(op) == kind_of_body(body) {
            Some(op)
        } else {
            None
        },
        None => None,
    }
}

impl Request {
    /// A GET request to `path`, without a body.
    pub fn get(path: String) -> (r: Request)
        ensures
            r.method == Method::Get,
            r.path == path,
            r.body.is_none(),
    {
        Request { method: Method::Get, path, body: None }
    }

    /// A POST request to `path`, without a body yet.
    pub fn post(path: String) -> (r: Request)
        ensures
            r.method == Method::Post,
            r.path == path,
            r.body.is_none(),
    {
        Request { method: Method::Post, path, body: None }
    }

    /// The same request carrying `body`.
    pub fn body(self, body: RequestBody) -> (r: Request)
        ensures
            r.method == self.method,
            r.path == self.path,
            r.body == Some(body),
    {
        Request { method: self.method, path: self.path, body: Some(body) }
    }

    /// The shape of this request's body.
    pub fn body_kind(&self) -> (r: BodyKind)
        ensures
            r == kind_of_body(self.body),
    {
        match &self.body {
            None => BodyKind::Empty,
            Some(RequestBody::CreateInvitation(_)) => BodyKind::CreateInvitation,
            Some(RequestBody::CreateServiceInvitation(_)) => BodyKind::CreateServiceInvitation,
            Some(RequestBody::AcceptInvitation(_)) => BodyKind::AcceptInvitation,
            Some(RequestBody::ListInvitations(_)) => BodyKind::ListInvitations,
        }
    }

    /// Recovers the operation this request was built for, from its method, its
    /// path and the type of its body.
    pub fn operation(&self) -> (r: Option<Operation>)
        ensures
            r == operation_of(self.method, self.path@, self.body),
    {
        let path = self.path.as_str();
        proof {
            reveal_strlit("/v0/invites");
            reveal_strlit("/v0/invites/");
            reveal_strlit("/v0/invites/service");
            reveal_strlit("/v0/redeem_invite");
        }
        assert("/v0/invites"@ =~= invites_path());
        assert("/v0/invites/"@ =~= invitation_path_prefix());
        assert("/v0/invites/service"@ =~= service_invites_path());
        assert("/v0/redeem_invite"@ =~= redeem_path());
        let route = match self.method {
            Method::Get => if same_text(path, "/v0/invites") {
                Some(Operation::ListInvitations)
            } else if has_prefix(path, "/v0/invites/") {
                Some(Operation::ShowInvitation)
            } else {
                None
            },
            Method::Post => if same_text(path, "/v0/invites") {
                Some(Operation::CreateInvitation)
            } else if same_text(path, "/v0/invites/service") {
                Some(Operation::CreateServiceInvitation)
            } else if same_text(path, "/v0/redeem_invite") {
                Some(Operation::AcceptInvitation)
            } else {
                None
            },
        };
        match route {
            Some(op) => if op.body_kind() == self.body_kind() {
                Some(op)
            } else {
                None
            },
            None => None,
        }
    }
}

impl Operation {
    /// The method this operation uses.
    pub fn method(self) -> (r: Method)
        ensures
            r == method_of(self),
    {
        match self {
            Operation::ShowInvitation | Operation::ListInvitations => Method::Get,
            _ => Method::Post,
        }
    }

    /// The body type this operation sends.
    pub fn body_kind(self) -> (r: BodyKind)
        ensures
            r == body_kind_of(self),
    {
        match self {
            Operation::CreateInvitation => BodyKind::CreateInvitation,
            Operation::CreateServiceInvitation => BodyKind::CreateServiceInvitation,
            Operation::AcceptInvitation => BodyKind::AcceptInvitation,
            Operation::ShowInvitation => BodyKind::Empty,
            Operation::ListInvitations => BodyKind::ListInvitations,
        }
    }

    /// The payload type this operation expects back.
    pub fn result_kind(self) -> (r: ResultKind)
        ensures
            r == result_kind_of(self),
    {
        match self {
            Operation::CreateInvitation | Operation::CreateServiceInvitation => ResultKind::SentInvitation,
            Operation::AcceptInvitation => ResultKind::AcceptedInvitation,
            Operation::ShowInvitation => ResultKind::InvitationWithAccess,
            Operation::ListInvitations => ResultKind::InvitationList,
        }
    }
}

} // verus!
