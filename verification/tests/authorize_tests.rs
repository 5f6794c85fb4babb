use oauth_server::authorize::{authorize, authorize_with_id, AuthorizeRejection};
use oauth_server::model::{AuthRequest, Client, ResponseType};

fn client() -> Client {
    Client {
        id: 7,
        uuid: "client-uuid".to_string(),
        name: "Demo".to_string(),
        secret: "s3cret".to_string(),
        redirect_uri: "https://app.example/cb".to_string(),
        scope: "read write".to_string(),
    }
}

fn request(redirect_uri: &str, scope: Option<&str>) -> AuthRequest {
    AuthRequest {
        client_id: "client-uuid".to_string(),
        redirect_uri: redirect_uri.to_string(),
        response_type: ResponseType::Code,
        state: "xyz".to_string(),
        scope: scope.map(|s| s.to_string()),
    }
}

fn is_v4_uuid_text(s: &str) -> bool {
    let c: Vec<char> = s.chars().collect();
    c.len() == 36
        && c.iter().enumerate().all(|(i, &ch)| {
            if [8, 13, 18, 23].contains(&i) {
                ch == '-'
            } else {
                ch.is_ascii_digit() || ('a'..='f').contains(&ch)
            }
        })
        && c[14] == '4'
        && ['8', '9', 'a', 'b'].contains(&c[19])
}

#[test]
fn unknown_client_is_refused() {
    let r = authorize(&request("https://app.example/cb", None), None);
    match r {
        Err(e @ AuthorizeRejection::UnknownClient { .. }) => {
            assert_eq!(e.message(), "Unknown client client-uuid")
        },
        _ => panic!("expected an unknown client"),
    }
}

#[test]
fn mismatched_redirect_is_refused() {
    let c = client();
    let r = authorize(&request("https://evil.example/cb", Some("read")), Some(&c));
    match r {
        Err(e @ AuthorizeRejection::RedirectMismatch { .. }) => assert_eq!(
            e.message(),
            "Mismatched redirect URI, expected https://app.example/cb got https://evil.example/cb"
        ),
        _ => panic!("expected a redirect mismatch"),
    }
}

#[test]
fn scope_outside_the_clients_is_refused() {
    let c = client();
    let r = authorize(&request("https://app.example/cb", Some("read admin")), Some(&c));
    match r {
        Err(e @ AuthorizeRejection::InvalidScope) => assert_eq!(e.message(), "invalid scope"),
        _ => panic!("expected an invalid scope"),
    }
}

#[test]
fn granted_request_is_recorded_with_its_parameters() {
    let c = client();
    let a = authorize_with_id(
        &request("https://app.example/cb", Some(" write  read ")),
        Some(&c),
        "fixed-id".to_string(),
    )
    .unwrap();
    assert_eq!(a.request.uuid, "fixed-id");
    assert_eq!(a.request.client_id, 7);
    assert_eq!(a.request.scope, " write  read ");
    assert_eq!(a.request.redirect_uri, "https://app.example/cb");
    assert_eq!(a.request.request_type, ResponseType::Code);
    assert_eq!(a.request.csrf_token, "xyz");
    assert_eq!(a.scopes, vec!["write".to_string(), "read".to_string()]);
}

#[test]
fn request_without_scope_is_granted_with_none() {
    let c = client();
    let a = authorize(&request("https://app.example/cb", None), Some(&c)).unwrap();
    assert_eq!(a.request.scope, "");
    assert!(a.scopes.is_empty());
}

#[test]
fn granted_request_gets_a_random_v4_uuid() {
    let c = client();
    let a = authorize(&request("https://app.example/cb", Some("read")), Some(&c)).unwrap();
    let b = authorize(&request("https://app.example/cb", Some("read")), Some(&c)).unwrap();
    assert!(is_v4_uuid_text(&a.request.uuid), "{}", a.request.uuid);
    assert!(is_v4_uuid_text(&b.request.uuid));
    assert_ne!(a.request.uuid, b.request.uuid);
}
