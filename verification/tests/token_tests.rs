use oauth_server::token::{token_credentials, TokenOutcome};

fn credentials(r: TokenOutcome) -> (String, String) {
    match r {
        TokenOutcome::Credentials { client_id, client_secret } => (client_id, client_secret),
        TokenOutcome::BadHeader => panic!("expected credentials"),
    }
}

#[test]
fn no_header_gives_empty_credentials() {
    let r = token_credentials(None);
    assert_eq!(r.reply_text(), "end of test");
    assert_eq!(credentials(r), (String::new(), String::new()));
}

#[test]
fn basic_header_is_read() {
    let r = token_credentials(Some("basic my-client:my-secret"));
    assert_eq!(r.reply_text(), "end of test");
    assert_eq!(credentials(r), ("my-client".to_string(), "my-secret".to_string()));
}

#[test]
fn header_without_secret_is_bad() {
    let r = token_credentials(Some("basic my-client"));
    assert!(matches!(r, TokenOutcome::BadHeader));
    assert_eq!(r.reply_text(), "Bad Header");
    assert!(matches!(token_credentials(Some("basic my-client:")), TokenOutcome::BadHeader));
    assert!(matches!(token_credentials(Some("basic :secret")), TokenOutcome::BadHeader));
    assert!(matches!(token_credentials(Some("")), TokenOutcome::BadHeader));
}

#[test]
fn only_the_first_two_pieces_count() {
    let r = token_credentials(Some("basic a:b:c"));
    assert_eq!(credentials(r), ("a".to_string(), "b".to_string()));
}

#[test]
fn prefix_is_matched_exactly_and_everywhere() {
    let r = token_credentials(Some("Basic id:secret"));
    assert_eq!(credentials(r), ("Basic id".to_string(), "secret".to_string()));
    let r = token_credentials(Some("basic id:basic secret"));
    assert_eq!(credentials(r), ("id".to_string(), "secret".to_string()));
}
