use vstd::prelude::*;

pub use crate::migration::m20220702_125358_response_type::ResponseType;

verus! {

/// A registered client application.
#[derive(Debug, Clone)]
pub struct Client {
    pub id: i32,
    pub uuid: String,
    pub name: String,
    pub secret: String,
    pub redirect_uri: String,
    pub scope: String,
}

pub struct ClientView {
    pub id: i32,
    pub uuid: Seq<char>,
    pub name: Seq<char>,
    pub secret: Seq<char>,
    pub redirect_uri: Seq<char>,
    pub scope: Seq<char>,
}

impl View for Client {
    type V = ClientView;

    open spec fn view(&self) -> ClientView {
        ClientView {
            id: self.id,
            uuid: self.uuid@,
            name: self.name@,
            secret: self.secret@,
            redirect_uri: self.redirect_uri@,
            scope: self.scope@,
        }
    }
}

/// The parameters of a request to authorize a client.
#[derive(Debug, Clone)]
pub struct AuthRequest {
    pub client_id: String,
    pub redirect_uri: String,
    pub response_type: ResponseType,
    pub state: String,
    pub scope: Option<String>,
}

pub struct AuthRequestView {
    pub client_id: Seq<char>,
    pub redirect_uri: Seq<char>,
    pub response_type: ResponseType,
    pub state: Seq<char>,
    pub scope: Option<Seq<char>>,
}

impl View for AuthRequest {
    type V = AuthRequestView;

    open spec fn view(&self) -> AuthRequestView {
        AuthRequestView {
            client_id: self.client_id@,
            redirect_uri: self.redirect_uri@,
            response_type: self.response_type,
            state: self.state@,
            scope: match self.scope {
                Some(s) => Some(s@),
                None => None,
            },
        }
    }
}

/// An authorization request as it is recorded, before the database gives it
/// an id.
#[derive(Debug, Clone)]
pub struct NewRequest {
    pub uuid: String,
    pub client_id: i32,
    pub scope: String,
    pub redirect_uri: String,
    pub request_type: ResponseType,
    pub csrf_token: String,
}

pub struct NewRequestView {
    pub uuid: Seq<char>,
    pub client_id: i32,
    pub scope: Seq<char>,
    pub redirect_uri: Seq<char>,
    pub request_type: ResponseType,
    pub csrf_token: Seq<char>,
}

impl View for NewRequest {
    type V = NewRequestView;

    open spec fn view(&self) -> NewRequestView {
        NewRequestView {
            uuid: self.uuid@,
            client_id: self.client_id,
            scope: self.scope@,
            redirect_uri: self.redirect_uri@,
            request_type: self.request_type,
            csrf_token: self.csrf_token@,
        }
    }
}

/// A recorded authorization request, with its database id.
#[derive(Debug, Clone)]
pub struct StoredRequest {
    pub id: i32,
    pub uuid: String,
    pub client_id: i32,
    pub scope: String,
    pub redirect_uri: String,
    pub request_type: ResponseType,
    pub csrf_token: String,
}

pub struct StoredRequestView {
    pub id: i32,
    pub uuid: Seq<char>,
    pub client_id: i32,
    pub scope: Seq<char>,
    pub redirect_uri: Seq<char>,
    pub request_type: ResponseType,
    pub csrf_token: Seq<char>,
}

impl View for StoredRequest {
    type V = StoredRequestView;

    open spec fn view(&self) -> StoredRequestView {
        StoredRequestView {
            id: self.id,
            uuid: self.uuid@,
            client_id: self.client_id,
            scope: self.scope@,
            redirect_uri: self.redirect_uri@,
            request_type: self.request_type,
            csrf_token: self.csrf_token@,
        }
    }
}

/// An authorization code as it is recorded, before the database gives it an
/// id.
#[derive(Debug, Clone)]
pub struct NewCode {
    pub uuid: String,
    pub request_id: i32,
}

pub struct NewCodeView {
    pub uuid: Seq<char>,
    pub request_id: i32,
}

impl View for NewCode {
    type V = NewCodeView;

    open spec fn view(&self) -> NewCodeView {
        NewCodeView { uuid: self.uuid@, request_id: self.request_id }
    }
}

/// The form a user submits to approve or deny an authorization request.
#[derive(Debug, Clone)]
pub struct ApproveForm {
    pub approve: String,
    pub scope: Option<Vec<String>>,
    pub reqid: String,
}

pub struct ApproveFormView {
    pub approve: Seq<char>,
    pub scope: Option<Seq<Seq<char>>>,
    pub reqid: Seq<char>,
}

impl View for ApproveForm {
    type V = ApproveFormView;

    open spec fn view(&self) -> ApproveFormView {
        ApproveFormView {
            approve: self.approve@,
            scope: match self.scope {
                Some(v) => Some(v@.map_values(|s: String| s@)),
                None => None,
            },
            reqid: self.reqid@,
        }
    }
}

} // verus!
