use vstd::prelude::*;
use vstd::string::*;

use crate::ids::{is_v4_uuid_text, new_v4_uuid_text};
use crate::model::{AuthRequest, AuthRequestView, Client, ClientView, NewRequest, NewRequestView};
use crate::scope::{compare_scope_strings, scopes_allowed};
use crate::text::{chars_of, split_whitespace, strings_from_words, words};

verus! {

/// Why a request to authorize a client is refused.
#[derive(Debug, Clone)]
pub enum AuthorizeRejection {
    /// No client is registered under the id the request names.
    UnknownClient { client_id: String },
    /// The redirect URI differs from the one the client registered.
    RedirectMismatch { expected: String, got: String },
    /// A requested scope is not among the client's scopes.
    InvalidScope,
}

pub enum AuthorizeRejectionView {
    UnknownClient { client_id: Seq<char> },
    RedirectMismatch { expected: Seq<char>, got: Seq<char> },
    InvalidScope,
}

impl View for AuthorizeRejection {
    type V = AuthorizeRejectionView;

    open spec fn view(&self) -> AuthorizeRejectionView {
        match self {
            AuthorizeRejection::UnknownClient { client_id } => AuthorizeRejectionView::UnknownClient {
                client_id: client_id@,
            },
            AuthorizeRejection::RedirectMismatch { expected, got } =>
                AuthorizeRejectionView::RedirectMismatch { expected: expected@, got: got@ },
            AuthorizeRejection::InvalidScope => AuthorizeRejectionView::InvalidScope,
        }
    }
}

/// The text with which a refusal is answered.
pub open spec fn rejection_text(r: AuthorizeRejectionView) -> Seq<char> {
    match r {
        AuthorizeRejectionView::UnknownClient { client_id } => "Unknown client "@ + client_id,
        AuthorizeRejectionView::RedirectMismatch { expected, got } =>
            "Mismatched redirect URI, expected "@ + expected + " got "@ + got,
        AuthorizeRejectionView::InvalidScope => "invalid scope"@,
    }
}

impl AuthorizeRejection {
    /// The text with which the refusal is answered.
    pub fn message(&self) -> (m: String)
        ensures
            m@ == rejection_text(self@),
    {
        match self {
            AuthorizeRejection::UnknownClient { client_id } => {
                let mut m = String::from_str("Unknown client ");
                m.append(client_id.as_str());
                m
            },
            AuthorizeRejection::RedirectMismatch { expected, got } => {
                let mut m = String::from_str("Mismatched redirect URI, expected ");
                m.append(expected.as_str());
                m.append(" got ");
                m.append(got.as_str());
                m
            },
            AuthorizeRejection::InvalidScope => String::from_str("invalid scope"),
        }
    }
}

/// An authorization request that was granted: the record to store, and the
/// scopes to show the user for approval.
#[derive(Debug, Clone)]
pub struct Approval {
    pub request: NewRequest,
    pub scopes: Vec<String>,
}

pub struct ApprovalView {
    pub request: NewRequestView,
    pub scopes: Seq<Seq<char>>,
}

impl View for Approval {
    type V = ApprovalView;

    open spec fn view(&self) -> ApprovalView {
        ApprovalView { request: self.request@, scopes: self.scopes@.map_values(|s: String| s@) }
    }
}

pub open spec fn client_view(client: Option<&Client>) -> Option<ClientView> {
    match client {
        Some(c) => Some(c@),
        None => None,
    }
}

pub open spec fn authorize_view(r: Result<Approval, AuthorizeRejection>) -> Result<
    ApprovalView,
    AuthorizeRejectionView,
> {
    match r {
        Ok(a) => Ok(a@),
        Err(e) => Err(e@),
    }
}

/// The scope a request asks for: empty where it names none.
pub open spec fn requested_scope(req: AuthRequestView) -> Seq<char> {
    match req.scope {
        Some(s) => s,
        None => Seq::empty(),
    }
}

/// The answer to the request `req` when `client` is what is registered under
/// the id it names, and `request_id` is the id given to a granted request.
pub open spec fn authorize_spec(
    req: AuthRequestView,
    client: Option<ClientView>,
    request_id: Seq<char>,
) -> Result<ApprovalView, AuthorizeRejectionView> {
    match client {
        None => Err(AuthorizeRejectionView::UnknownClient { client_id: req.client_id }),
        Some(c) => if c.redirect_uri != req.redirect_uri {
            Err(
                AuthorizeRejectionView::RedirectMismatch {
                    expected: c.redirect_uri,
                    got: req.redirect_uri,
                },
            )
        } else if !scopes_allowed(requested_scope(req), c.scope) {
            Err(AuthorizeRejectionView::InvalidScope)
        } else {
            Ok(
                ApprovalView {
                    request: NewRequestView {
                        uuid: request_id,
                        client_id: c.id,
                        scope: requested_scope(req),
                        redirect_uri: req.redirect_uri,
                        request_type: req.response_type,
                        csrf_token: req.state,
                    },
                    scopes: words(requested_scope(req)),
                },
            )
        },
    }
}

/// The refusal of `request`, if it is refused.
fn authorize_refusal(request: &AuthRequest, client: Option<&Client>) -> (r: Option<
    AuthorizeRejection,
>)
    ensures
        match r {
            Some(e) => authorize_spec(request@, client_view(client), Seq::empty()) == Err::<
                ApprovalView,
                AuthorizeRejectionView,
            >(e@),
            None => authorize_spec(request@, client_view(client), Seq::empty()) is Ok,
        },
{
    match client {
        None => Some(AuthorizeRejection::UnknownClient { client_id: request.client_id.clone() }),
        Some(c) => {
            if c.redirect_uri != request.redirect_uri {
                Some(
                    AuthorizeRejection::RedirectMismatch {
                        expected: c.redirect_uri.clone(),
                        got: request.redirect_uri.clone(),
                    },
                )
            } else {
                let requested = match &request.scope {
                    Some(s) => s.clone(),
                    None => String::new(),
                };
                if !compare_scope_strings(requested.as_str(), c.scope.as_str()) {
                    Some(AuthorizeRejection::InvalidScope)
                } else {
                    None
                }
            }
        },
    }
}

/// The approval of `request`, which `client` does not refuse.
fn approval(request: &AuthRequest, client: &Client, request_id: String) -> (a: Approval)
    requires
        authorize_spec(request@, Some(client@), request_id@) is Ok,
    ensures
        authorize_spec(request@, Some(client@), request_id@) == Ok::<
            ApprovalView,
            AuthorizeRejectionView,
        >(a@),
{
    let requested = match &request.scope {
        Some(s) => s.clone(),
        None => String::new(),
    };
    let scopes = strings_from_words(&split_whitespace(&chars_of(requested.as_str())));
    Approval {
        request: NewRequest {
            uuid: request_id,
            client_id: client.id,
            scope: requested,
            redirect_uri: request.redirect_uri.clone(),
            request_type: request.response_type,
            csrf_token: request.state.clone(),
        },
        scopes,
    }
}

/// Decides a request to authorize a client, with `request_id` as the id of
/// the request where it is granted.
pub fn authorize_with_id(request: &AuthRequest, client: Option<&Client>, request_id: String) -> (r:
    Result<Approval, AuthorizeRejection>)
    ensures
        authorize_view(r) == authorize_spec(request@, client_view(client), request_id@),
        r matches Ok(a) ==> {
            &&& client matches Some(c)
            &&& a.request.client_id == c.id
            &&& forall|i: int|
                0 <= i < words(a.request.scope@).len() ==> #[trigger] words(c.scope@).contains(
                    words(a.request.scope@)[i],
                )
        },
{
    proof {
        lemma_granted_scope_within_client_scope(request@, client_view(client), request_id@);
    }
    match authorize_refusal(request, client) {
        Some(e) => Err(e),
        None => {
            let c = client.unwrap();
            Ok(approval(request, c, request_id))
        },
    }
}

/// Decides a request to authorize a client; a granted request gets a fresh
/// random UUID as its id.
pub fn authorize(request: &AuthRequest, client: Option<&Client>) -> (r: Result<
    Approval,
    AuthorizeRejection,
>)
    ensures
        match r {
            Ok(a) => {
                &&& is_v4_uuid_text(a.request.uuid@)
                &&& authorize_view(r) == authorize_spec(
                    request@,
                    client_view(client),
                    a.request.uuid@,
                )
            },
            Err(e) => authorize_view(r) == authorize_spec(
                request@,
                client_view(client),
                Seq::empty(),
            ),
        },
        r matches Ok(a) ==> {
            &&& client matches Some(c)
            &&& a.request.client_id == c.id
            &&& forall|i: int|
                0 <= i < words(a.request.scope@).len() ==> #[trigger] words(c.scope@).contains(
                    words(a.request.scope@)[i],
                )
        },
{
    match authorize_refusal(request, client) {
        Some(e) => Err(e),
        None => {
            let c = client.unwrap();
            let request_id = new_v4_uuid_text();
            proof {
                lemma_granted_scope_within_client_scope(request@, client_view(client), request_id@);
            }
            Ok(approval(request, c, request_id))
        },
    }
}

/// A granted request is recorded for the client that was found, with the
/// scope it asked for (empty where it named none); every white-space
/// separated word of that scope is one of the client's scope words, and the
/// scopes listed for approval are exactly those words, in order.
pub proof fn lemma_granted_scope_within_client_scope(
    req: AuthRequestView,
    client: Option<ClientView>,
    request_id: Seq<char>,
)
    ensures
        authorize_spec(req, client, request_id) matches Ok(a) ==> {
            &&& client matches Some(c)
            &&& a.request.client_id == c.id
            &&& a.request.uuid == request_id
            &&& a.request.scope == (match req.scope {
                Some(s) => s,
                None => Seq::empty(),
            })
            &&& forall|i: int|
                0 <= i < words(a.request.scope).len() ==> #[trigger] words(c.scope).contains(
                    words(a.request.scope)[i],
                )
            &&& a.scopes == words(a.request.scope)
        },
{
}

/// For a registered client and its registered redirect URI, a request is
/// granted exactly when every word of its requested scope is one of the
/// client's scope words; otherwise it is refused as an invalid scope.
pub proof fn lemma_scope_decides_registered_request(
    req: AuthRequestView,
    client: ClientView,
    request_id: Seq<char>,
)
    requires
        client.redirect_uri == req.redirect_uri,
    ensures
        (authorize_spec(req, Some(client), request_id) is Ok) <==> (forall|i: int|
            0 <= i < words(requested_scope(req)).len() ==> #[trigger] words(client.scope).contains(
                words(requested_scope(req))[i],
            )),
        !(authorize_spec(req, Some(client), request_id) is Ok) ==> authorize_spec(
            req,
            Some(client),
            request_id,
        ) == Err::<ApprovalView, AuthorizeRejectionView>(AuthorizeRejectionView::InvalidScope),
{
}

/// An unregistered client is refused as unknown, naming the client id it
/// gave; a registered client with another redirect URI is refused as a
/// mismatch, naming both URIs; both whatever the requested scope.
pub proof fn lemma_unknown_client_and_mismatch_refused(
    req: AuthRequestView,
    client: Option<ClientView>,
    request_id: Seq<char>,
)
    ensures
        client is None ==> authorize_spec(req, client, request_id) == Err::<
            ApprovalView,
            AuthorizeRejectionView,
        >(AuthorizeRejectionView::UnknownClient { client_id: req.client_id }),
        client is Some && client.unwrap().redirect_uri != req.redirect_uri ==> authorize_spec(
            req,
            client,
            request_id,
        ) == Err::<ApprovalView, AuthorizeRejectionView>(
            AuthorizeRejectionView::RedirectMismatch {
                expected: client.unwrap().redirect_uri,
                got: req.redirect_uri,
            },
        ),
{
}

} // verus!
