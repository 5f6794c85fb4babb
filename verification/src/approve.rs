use vstd::prelude::*;
use vstd::string::*;

use crate::authorize::{authorize_spec, client_view, ApprovalView, AuthorizeRejectionView};
use crate::ids::{is_v4_uuid_text, new_v4_uuid_text};
use crate::model::{
    ApproveForm, ApproveFormView, AuthRequestView, Client, ClientView, NewCode, NewCodeView,
    NewRequestView, ResponseType, StoredRequest, StoredRequestView,
};
use crate::scope::{compare_scope_strings, lemma_no_scope_is_allowed, scopes_allowed};
use crate::text::{
    chars_equal, chars_of, lemma_replace_all_absent, lemma_replace_all_prefix,
    lemma_single_word, lemma_words_well_formed, occurs_at_spec, replace_all, replace_chars,
    string_from_chars, words,
};

verus! {

/// Why an approval is refused.
#[derive(Debug, Clone, Copy, PartialEq, Eq, Structural)]
pub enum ApproveRejection {
    /// No authorization request is recorded under the id the form names.
    NoMatchingRequest,
    /// The user did not approve.
    AccessDenied,
    /// The request asked for a response other than a code.
    UnsupportedResponseType,
    /// No client is registered under the client id the request holds.
    RequestHasNoClient,
    /// An approved scope is not among the client's scopes.
    InvalidScope,
}

/// The text with which a refusal is answered.
pub open spec fn approve_rejection_text(r: ApproveRejection) -> Seq<char> {
    match r {
        ApproveRejection::NoMatchingRequest => "No matching authorization request"@,
        ApproveRejection::AccessDenied => "Access denied"@,
        ApproveRejection::UnsupportedResponseType => "Unsupported Response Type"@,
        ApproveRejection::RequestHasNoClient => "Request has no client"@,
        ApproveRejection::InvalidScope => "invalid scope"@,
    }
}

impl ApproveRejection {
    /// The text with which the refusal is answered.
    pub fn message(&self) -> (m: &'static str)
        ensures
            m@ == approve_rejection_text(*self),
    {
        match self {
            ApproveRejection::NoMatchingRequest => "No matching authorization request",
            ApproveRejection::AccessDenied => "Access denied",
            ApproveRejection::UnsupportedResponseType => "Unsupported Response Type",
            ApproveRejection::RequestHasNoClient => "Request has no client",
            ApproveRejection::InvalidScope => "invalid scope",
        }
    }
}

/// The scopes the form approves, each with its `scope_` prefixes taken out,
/// written one after the other.
pub open spec fn joined_scope(list: Seq<Seq<char>>) -> Seq<char>
    decreases list.len(),
{
    if list.len() == 0 {
        Seq::empty()
    } else {
        joined_scope(list.drop_last()) + replace_all(list.last(), "scope_"@, Seq::empty())
    }
}

/// The scope that a form approves: empty where it names none.
pub open spec fn approved_scope(scope: Option<Seq<Seq<char>>>) -> Seq<char> {
    match scope {
        Some(list) => joined_scope(list),
        None => Seq::empty(),
    }
}

pub open spec fn stored_request_view(request: Option<StoredRequest>) -> Option<StoredRequestView> {
    match request {
        Some(r) => Some(r@),
        None => None,
    }
}

/// The first decision on a form: `request` is what is recorded under the
/// request id the form names.
pub open spec fn check_request_spec(
    form: ApproveFormView,
    request: Option<StoredRequestView>,
) -> Result<StoredRequestView, ApproveRejection> {
    match request {
        None => Err(ApproveRejection::NoMatchingRequest),
        Some(r) => if form.approve != "Approve"@ {
            Err(ApproveRejection::AccessDenied)
        } else if r.request_type != ResponseType::Code {
            Err(ApproveRejection::UnsupportedResponseType)
        } else {
            Ok(r)
        },
    }
}

pub open spec fn check_request_view(r: Result<StoredRequest, ApproveRejection>) -> Result<
    StoredRequestView,
    ApproveRejection,
> {
    match r {
        Ok(s) => Ok(s@),
        Err(e) => Err(e),
    }
}

/// Checks a submitted form against the request it answers; on success the
/// request is handed back, for its client to be looked up.
pub fn approve_check_request(form: &ApproveForm, request: Option<StoredRequest>) -> (r: Result<
    StoredRequest,
    ApproveRejection,
>)
    ensures
        check_request_view(r) == check_request_spec(form@, stored_request_view(request)),
        request is None ==> r == Err::<StoredRequest, ApproveRejection>(
            ApproveRejection::NoMatchingRequest,
        ),
        request is Some && form.approve@ != "Approve"@ ==> r == Err::<
            StoredRequest,
            ApproveRejection,
        >(ApproveRejection::AccessDenied),
        r matches Ok(q) ==> request == Some(q) && form.approve@ == "Approve"@ && q.request_type
            == ResponseType::Code,
{
    proof {
        lemma_check_request_decisions(form@, stored_request_view(request));
    }
    match request {
        None => Err(ApproveRejection::NoMatchingRequest),
        Some(req) => {
            let approved = chars_equal(&chars_of(form.approve.as_str()), &chars_of("Approve"));
            if !approved {
                Err(ApproveRejection::AccessDenied)
            } else {
                match req.request_type {
                    ResponseType::Code => Ok(req),
                    ResponseType::Other => Err(ApproveRejection::UnsupportedResponseType),
                }
            }
        },
    }
}

/// The code granted, and where the user is sent with it.
#[derive(Debug, Clone)]
pub struct Grant {
    pub code: NewCode,
    pub redirect_uri: String,
}

pub struct GrantView {
    pub code: NewCodeView,
    pub redirect_uri: Seq<char>,
}

impl View for Grant {
    type V = GrantView;

    open spec fn view(&self) -> GrantView {
        GrantView { code: self.code@, redirect_uri: self.redirect_uri@ }
    }
}

pub open spec fn grant_view(r: Result<Grant, ApproveRejection>) -> Result<
    GrantView,
    ApproveRejection,
> {
    match r {
        Ok(g) => Ok(g@),
        Err(e) => Err(e),
    }
}

/// The address the user is sent to: the request's redirect URI with the code
/// and the request's state as query parameters.
pub open spec fn redirect_with_code(
    redirect_uri: Seq<char>,
    code: Seq<char>,
    state: Seq<char>,
) -> Seq<char> {
    redirect_uri + "?code="@ + code + "&state="@ + state
}

/// The second decision on a form: `client` is what is registered under the
/// client id of the checked `request`, and `code` is the code to grant.
pub open spec fn grant_spec(
    form: ApproveFormView,
    request: StoredRequestView,
    client: Option<ClientView>,
    code: Seq<char>,
) -> Result<GrantView, ApproveRejection> {
    match client {
        None => Err(ApproveRejection::RequestHasNoClient),
        Some(c) => if !scopes_allowed(approved_scope(form.scope), c.scope) {
            Err(ApproveRejection::InvalidScope)
        } else {
            Ok(
                GrantView {
                    code: NewCodeView { uuid: code, request_id: request.id },
                    redirect_uri: redirect_with_code(request.redirect_uri, code, request.csrf_token),
                },
            )
        },
    }
}

/// The scope the form approves.
fn form_scope(form: &ApproveForm) -> (s: String)
    ensures
        s@ == approved_scope(form@.scope),
{
    match &form.scope {
        None => String::new(),
        Some(list) => {
            let pat = chars_of("scope_");
            proof {
                reveal_strlit("scope_");
            }
            let none: Vec<char> = Vec::new();
            let ghost views = list@.map_values(|s: String| s@);
            let mut out: Vec<char> = Vec::new();
            for i in 0..list.len()
                invariant
                    views == list@.map_values(|s: String| s@),
                    pat@ == "scope_"@,
                    pat@.len() > 0,
                    none@ == Seq::<char>::empty(),
                    out@ == joined_scope(views.take(i as int)),
            {
                let piece = replace_chars(&chars_of(list[i].as_str()), &pat, &none);
                assert(views.take(i + 1).drop_last() == views.take(i as int));
                assert(views.take(i + 1).last() == list@[i as int]@);
                for j in 0..piece.len()
                    invariant
                        out@ == joined_scope(views.take(i as int)) + piece@.take(j as int),
                {
                    out.push(piece[j]);
                    assert(piece@.take(j + 1) == piece@.take(j as int).push(piece@[j as int]));
                }
                assert(piece@.take(piece@.len() as int) == piece@);
            }
            assert(views.take(views.len() as int) == views);
            string_from_chars(&out)
        },
    }
}

/// The grant for a checked request, which `client` does not refuse.
fn grant(request: &StoredRequest, code: String) -> (g: Grant)
    ensures
        g@ == (GrantView {
            code: NewCodeView { uuid: code@, request_id: request.id },
            redirect_uri: redirect_with_code(request.redirect_uri@, code@, request.csrf_token@),
        }),
{
    let mut redirect_uri = request.redirect_uri.clone();
    redirect_uri.append("?code=");
    redirect_uri.append(code.as_str());
    redirect_uri.append("&state=");
    redirect_uri.append(request.csrf_token.as_str());
    Grant { code: NewCode { uuid: code, request_id: request.id }, redirect_uri }
}

/// Decides a checked request, with `code` as the code to grant.
pub fn approve_grant_with_code(
    form: &ApproveForm,
    request: &StoredRequest,
    client: Option<&Client>,
    code: String,
) -> (r: Result<Grant, ApproveRejection>)
    ensures
        grant_view(r) == grant_spec(form@, request@, client_view(client), code@),
{
    match client {
        None => Err(ApproveRejection::RequestHasNoClient),
        Some(c) => {
            let requested = form_scope(form);
            if !compare_scope_strings(requested.as_str(), c.scope.as_str()) {
                Err(ApproveRejection::InvalidScope)
            } else {
                Ok(grant(request, code))
            }
        },
    }
}

/// Decides a checked request; a granted code is a fresh random UUID.
pub fn approve_grant(form: &ApproveForm, request: &StoredRequest, client: Option<&Client>) -> (r:
    Result<Grant, ApproveRejection>)
    ensures
        match r {
            Ok(g) => {
                &&& is_v4_uuid_text(g.code.uuid@)
                &&& grant_view(r) == grant_spec(form@, request@, client_view(client), g.code.uuid@)
            },
            Err(e) => grant_view(r) == grant_spec(
                form@,
                request@,
                client_view(client),
                Seq::empty(),
            ),
        },
{
    match client {
        None => Err(ApproveRejection::RequestHasNoClient),
        Some(c) => {
            let requested = form_scope(form);
            if !compare_scope_strings(requested.as_str(), c.scope.as_str()) {
                Err(ApproveRejection::InvalidScope)
            } else {
                let code = new_v4_uuid_text();
                Ok(grant(request, code))
            }
        },
    }
}

/// `stored` is the record of `request`, under the database id `stored.id`.
pub open spec fn records(stored: StoredRequestView, request: NewRequestView) -> bool {
    &&& stored.uuid == request.uuid
    &&& stored.client_id == request.client_id
    &&& stored.scope == request.scope
    &&& stored.redirect_uri == request.redirect_uri
    &&& stored.request_type == request.request_type
    &&& stored.csrf_token == request.csrf_token
}

/// The request record of a granted authorization.
pub open spec fn granted_request(r: Result<ApprovalView, AuthorizeRejectionView>) -> NewRequestView
    recommends
        r is Ok,
{
    match r {
        Ok(a) => a.request,
        Err(_) => arbitrary(),
    }
}

/// A request for a code that was authorized and recorded, once the user
/// approves it with scopes the client allows, sends the user back to the
/// redirect URI the client registered, with the granted code and the state
/// the authorization request carried; the code refers to the recorded
/// request.
pub proof fn lemma_authorized_code_request_is_granted(
    req: AuthRequestView,
    client: ClientView,
    request_id: Seq<char>,
    stored: StoredRequestView,
    form: ApproveFormView,
    code: Seq<char>,
)
    requires
        authorize_spec(req, Some(client), request_id) is Ok,
        records(stored, granted_request(authorize_spec(req, Some(client), request_id))),
        req.response_type == ResponseType::Code,
        form.approve == "Approve"@,
        scopes_allowed(approved_scope(form.scope), client.scope),
    ensures
        check_request_spec(form, Some(stored)) == Ok::<StoredRequestView, ApproveRejection>(
            stored,
        ),
        grant_spec(form, stored, Some(client), code) == Ok::<GrantView, ApproveRejection>(
            GrantView {
                code: NewCodeView { uuid: code, request_id: stored.id },
                redirect_uri: redirect_with_code(client.redirect_uri, code, req.state),
            },
        ),
{
}

/// A request for a response other than a code may be authorized, but its
/// approval is refused as unsupported.
pub proof fn lemma_other_response_type_is_refused(
    req: AuthRequestView,
    client: ClientView,
    request_id: Seq<char>,
    stored: StoredRequestView,
    form: ApproveFormView,
)
    requires
        authorize_spec(req, Some(client), request_id) is Ok,
        records(stored, granted_request(authorize_spec(req, Some(client), request_id))),
        req.response_type == ResponseType::Other,
        form.approve == "Approve"@,
    ensures
        check_request_spec(form, Some(stored)) == Err::<StoredRequestView, ApproveRejection>(
            ApproveRejection::UnsupportedResponseType,
        ),
{
}

/// A form that approves no scope, or a single scope shown to the user as
/// `scope_` followed by one of the client's scopes (which does not itself
/// hold `scope_`), approves a scope the client allows.
pub proof fn lemma_shown_scope_is_allowed(
    scope: Option<Seq<Seq<char>>>,
    w: Seq<char>,
    client_scope: Seq<char>,
)
    requires
        scope is None || (scope == Some(seq!["scope_"@ + w]) && words(client_scope).contains(w)
            && forall|i: int| !#[trigger] occurs_at_spec(w, "scope_"@, i)),
    ensures
        scopes_allowed(approved_scope(scope), client_scope),
{
    match scope {
        None => {
            lemma_no_scope_is_allowed(Seq::empty(), client_scope);
        },
        Some(list) => {
            reveal_strlit("scope_");
            let e = Seq::<char>::empty();
            assert(list.drop_last() =~= Seq::<Seq<char>>::empty());
            assert(joined_scope(Seq::<Seq<char>>::empty()) == e);
            assert(list.last() == "scope_"@ + w);
            assert(joined_scope(list) == e + replace_all("scope_"@ + w, "scope_"@, e));
            lemma_replace_all_prefix("scope_"@, w, e);
            lemma_replace_all_absent(w, "scope_"@, e);
            assert(e + w == w);
            assert(e + (e + w) == w);
            lemma_words_well_formed(client_scope);
            let k = choose|k: int| 0 <= k < words(client_scope).len() && words(client_scope)[k] == w;
            assert(words(client_scope)[k].len() > 0);
            lemma_single_word(w);
            assert(words(w)[0] == w);
        },
    }
}

/// No recorded request means no matching request; for a recorded request,
/// a form that does not say `Approve` is refused as access denied, whatever
/// the request; a request passes only when the form says `Approve` and the
/// request asks for a code, and it is handed back unchanged.
pub proof fn lemma_check_request_decisions(
    form: ApproveFormView,
    request: Option<StoredRequestView>,
)
    ensures
        request is None ==> check_request_spec(form, request) == Err::<
            StoredRequestView,
            ApproveRejection,
        >(ApproveRejection::NoMatchingRequest),
        request is Some && form.approve != "Approve"@ ==> check_request_spec(form, request) == Err::<
            StoredRequestView,
            ApproveRejection,
        >(ApproveRejection::AccessDenied),
        check_request_spec(form, request) matches Ok(r) ==> {
            &&& request == Some(r)
            &&& form.approve == "Approve"@
            &&& r.request_type == ResponseType::Code
        },
{
}

} // verus!
