use oauth_server::approve::{
    approve_check_request, approve_grant, approve_grant_with_code, ApproveRejection,
};
use oauth_server::authorize::authorize_with_id;
use oauth_server::model::{ApproveForm, AuthRequest, Client, ResponseType, StoredRequest};

fn client() -> Client {
    Client {
        id: 7,
        uuid: "client-uuid".to_string(),
        name: "Demo".to_string(),
        secret: "s3cret".to_string(),
        redirect_uri: "https://app.example/cb".to_string(),
        scope: "read write".to_string(),
    }
}

fn stored(request_type: ResponseType) -> StoredRequest {
    StoredRequest {
        id: 42,
        uuid: "req-uuid".to_string(),
        client_id: 7,
        scope: "read".to_string(),
        redirect_uri: "https://app.example/cb".to_string(),
        request_type,
        csrf_token: "xyz".to_string(),
    }
}

fn form(approve: &str, scope: Option<Vec<&str>>) -> ApproveForm {
    ApproveForm {
        approve: approve.to_string(),
        scope: scope.map(|v| v.into_iter().map(|s| s.to_string()).collect()),
        reqid: "req-uuid".to_string(),
    }
}

#[test]
fn missing_request_is_refused() {
    let r = approve_check_request(&form("Approve", None), None);
    assert_eq!(r.unwrap_err(), ApproveRejection::NoMatchingRequest);
    assert_eq!(ApproveRejection::NoMatchingRequest.message(), "No matching authorization request");
}

#[test]
fn denial_is_refused() {
    let r = approve_check_request(&form("Deny", None), Some(stored(ResponseType::Code)));
    assert_eq!(r.unwrap_err(), ApproveRejection::AccessDenied);
    let r = approve_check_request(&form("approve", None), Some(stored(ResponseType::Code)));
    assert_eq!(r.unwrap_err(), ApproveRejection::AccessDenied);
    assert_eq!(ApproveRejection::AccessDenied.message(), "Access denied");
}

#[test]
fn other_response_type_is_refused() {
    let r = approve_check_request(&form("Approve", None), Some(stored(ResponseType::Other)));
    assert_eq!(r.unwrap_err(), ApproveRejection::UnsupportedResponseType);
    assert_eq!(ApproveRejection::UnsupportedResponseType.message(), "Unsupported Response Type");
}

#[test]
fn approved_code_request_passes_the_check() {
    let r = approve_check_request(&form("Approve", None), Some(stored(ResponseType::Code)));
    assert_eq!(r.unwrap().id, 42);
}

#[test]
fn request_without_client_is_refused() {
    let s = stored(ResponseType::Code);
    let r = approve_grant(&form("Approve", None), &s, None);
    assert_eq!(r.unwrap_err(), ApproveRejection::RequestHasNoClient);
    assert_eq!(ApproveRejection::RequestHasNoClient.message(), "Request has no client");
}

#[test]
fn grant_redirects_with_code_and_state() {
    let s = stored(ResponseType::Code);
    let c = client();
    let g = approve_grant_with_code(&form("Approve", Some(vec!["scope_read"])), &s, Some(&c), "CODE".to_string())
        .unwrap();
    assert_eq!(g.code.uuid, "CODE");
    assert_eq!(g.code.request_id, 42);
    assert_eq!(g.redirect_uri, "https://app.example/cb?code=CODE&state=xyz");
}

#[test]
fn grant_without_scopes_is_allowed() {
    let s = stored(ResponseType::Code);
    let c = client();
    let g = approve_grant_with_code(&form("Approve", None), &s, Some(&c), "C".to_string());
    assert!(g.is_ok());
    let g = approve_grant_with_code(&form("Approve", Some(vec![])), &s, Some(&c), "C".to_string());
    assert!(g.is_ok());
}

#[test]
fn several_approved_scopes_run_together() {
    // The approved scopes are written one after the other, so two of them
    // form one word that the client does not have.
    let s = stored(ResponseType::Code);
    let c = client();
    let g = approve_grant_with_code(
        &form("Approve", Some(vec!["scope_read", "scope_write"])),
        &s,
        Some(&c),
        "C".to_string(),
    );
    assert_eq!(g.unwrap_err(), ApproveRejection::InvalidScope);
    assert_eq!(ApproveRejection::InvalidScope.message(), "invalid scope");
}

#[test]
fn approved_scope_outside_the_clients_is_refused() {
    let s = stored(ResponseType::Code);
    let c = client();
    let g = approve_grant_with_code(&form("Approve", Some(vec!["scope_admin"])), &s, Some(&c), "C".to_string());
    assert_eq!(g.unwrap_err(), ApproveRejection::InvalidScope);
}

#[test]
fn granted_code_is_a_random_v4_uuid() {
    let s = stored(ResponseType::Code);
    let c = client();
    let g = approve_grant(&form("Approve", Some(vec!["scope_write"])), &s, Some(&c)).unwrap();
    assert_eq!(g.code.uuid.len(), 36);
    assert_eq!(g.code.uuid.chars().nth(14), Some('4'));
    assert_eq!(g.redirect_uri, format!("https://app.example/cb?code={}&state=xyz", g.code.uuid));
}

#[test]
fn authorized_request_is_granted_back_to_the_client() {
    let c = client();
    let req = AuthRequest {
        client_id: "client-uuid".to_string(),
        redirect_uri: "https://app.example/cb".to_string(),
        response_type: ResponseType::Code,
        state: "st4te".to_string(),
        scope: Some("read".to_string()),
    };
    let a = authorize_with_id(&req, Some(&c), "rid".to_string()).unwrap();
    let s = StoredRequest {
        id: 5,
        uuid: a.request.uuid.clone(),
        client_id: a.request.client_id,
        scope: a.request.scope.clone(),
        redirect_uri: a.request.redirect_uri.clone(),
        request_type: a.request.request_type,
        csrf_token: a.request.csrf_token.clone(),
    };
    let f = form("Approve", Some(vec!["scope_read"]));
    let checked = approve_check_request(&f, Some(s)).unwrap();
    let g = approve_grant_with_code(&f, &checked, Some(&c), "K".to_string()).unwrap();
    assert_eq!(g.redirect_uri, "https://app.example/cb?code=K&state=st4te");
    assert_eq!(g.code.request_id, 5);
}
