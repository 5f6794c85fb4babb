use vstd::prelude::*;

use crate::text::{
    chars_of, lemma_replace_all_absent, lemma_replace_all_prefix, lemma_split_on_nonempty,
    lemma_split_on_two, occurs_at_spec, replace_all, replace_chars, split_chars, split_on,
    string_from_chars,
};

verus! {

/// What a request for a token comes to.
#[derive(Debug)]
pub enum TokenOutcome {
    /// The authorization header names no client id or no secret.
    BadHeader,
    /// The client credentials read from the authorization header (both empty
    /// where the request has no such header).
    Credentials { client_id: String, client_secret: String },
}

pub enum TokenOutcomeView {
    BadHeader,
    Credentials { client_id: Seq<char>, client_secret: Seq<char> },
}

impl View for TokenOutcome {
    type V = TokenOutcomeView;

    open spec fn view(&self) -> TokenOutcomeView {
        match self {
            TokenOutcome::BadHeader => TokenOutcomeView::BadHeader,
            TokenOutcome::Credentials { client_id, client_secret } => TokenOutcomeView::Credentials {
                client_id: client_id@,
                client_secret: client_secret@,
            },
        }
    }
}

/// The client id and secret written in an authorization header: with each
/// `basic ` taken out, the text before the first `:` and the text between
/// the first and the second `:` (empty where there is no `:`).
pub open spec fn header_credentials(header: Seq<char>) -> (Seq<char>, Seq<char>) {
    let parts = split_on(replace_all(header, "basic "@, Seq::empty()), ':');
    (parts[0], if parts.len() > 1 {
        parts[1]
    } else {
        Seq::empty()
    })
}

/// What a request for a token comes to, given its authorization header.
pub open spec fn token_spec(authorization: Option<Seq<char>>) -> TokenOutcomeView {
    match authorization {
        None => TokenOutcomeView::Credentials {
            client_id: Seq::empty(),
            client_secret: Seq::empty(),
        },
        Some(h) => {
            let (id, secret) = header_credentials(h);
            if id.len() == 0 || secret.len() == 0 {
                TokenOutcomeView::BadHeader
            } else {
                TokenOutcomeView::Credentials { client_id: id, client_secret: secret }
            }
        },
    }
}

/// The text with which a request for a token is answered (always as a bad
/// request).
pub open spec fn token_reply_text(outcome: TokenOutcomeView) -> Seq<char> {
    match outcome {
        TokenOutcomeView::BadHeader => "Bad Header"@,
        TokenOutcomeView::Credentials { .. } => "end of test"@,
    }
}

impl TokenOutcome {
    /// The text with which the request is answered.
    pub fn reply_text(&self) -> (t: &'static str)
        ensures
            t@ == token_reply_text(self@),
    {
        match self {
            TokenOutcome::BadHeader => "Bad Header",
            TokenOutcome::Credentials { .. } => "end of test",
        }
    }
}

pub open spec fn header_view(authorization: Option<&str>) -> Option<Seq<char>> {
    match authorization {
        Some(h) => Some(h@),
        None => None,
    }
}

/// Reads the client credentials of a request for a token from its
/// authorization header, where it has one.
pub fn token_credentials(authorization: Option<&str>) -> (r: TokenOutcome)
    ensures
        r@ == token_spec(header_view(authorization)),
{
    match authorization {
        None => TokenOutcome::Credentials { client_id: String::new(), client_secret: String::new() },
        Some(h) => {
            let pat = chars_of("basic ");
            proof {
                reveal_strlit("basic ");
            }
            let none: Vec<char> = Vec::new();
            let stripped = replace_chars(&chars_of(h), &pat, &none);
            let parts = split_chars(&stripped, ':');
            proof {
                lemma_split_on_nonempty(stripped@, ':');
                assert(parts@[0]@ == split_on(stripped@, ':')[0]);
            }
            let id = &parts[0];
            let empty: Vec<char> = Vec::new();
            let secret = if parts.len() > 1 {
                assert(parts@[1]@ == split_on(stripped@, ':')[1]);
                &parts[1]
            } else {
                &empty
            };
            if id.len() == 0 || secret.len() == 0 {
                TokenOutcome::BadHeader
            } else {
                TokenOutcome::Credentials {
                    client_id: string_from_chars(id),
                    client_secret: string_from_chars(secret),
                }
            }
        },
    }
}

/// A `basic` authorization header that carries a client id and a secret
/// (neither empty, neither holding `:` or a space) is read back as those
/// credentials.
pub proof fn lemma_basic_header_round_trip(id: Seq<char>, secret: Seq<char>)
    requires
        id.len() > 0,
        secret.len() > 0,
        forall|j: int| 0 <= j < id.len() ==> #[trigger] id[j] != ':' && id[j] != ' ',
        forall|j: int| 0 <= j < secret.len() ==> #[trigger] secret[j] != ':' && secret[j] != ' ',
    ensures
        token_spec(Some("basic "@ + id + ":"@ + secret)) == (TokenOutcomeView::Credentials {
            client_id: id,
            client_secret: secret,
        }),
{
    reveal_strlit("basic ");
    reveal_strlit(":");
    let pat = "basic "@;
    let e = Seq::<char>::empty();
    let x = id + seq![':'] + secret;
    assert(":"@ == seq![':']);
    assert(pat + id + ":"@ + secret == pat + x);
    lemma_replace_all_prefix(pat, x, e);
    assert forall|i: int| !#[trigger] occurs_at_spec(x, pat, i) by {
        if occurs_at_spec(x, pat, i) {
            assert(x.subrange(i, i + 6)[5] == pat[5]);
            assert(x[i + 5] == ' ');
            if i + 5 < id.len() {
                assert(x[i + 5] == id[i + 5]);
            } else if i + 5 == id.len() {
                assert(x[i + 5] == ':');
            } else {
                assert(x[i + 5] == secret[i + 5 - id.len() - 1]);
            }
        }
    }
    lemma_replace_all_absent(x, pat, e);
    assert(e + x == x);
    lemma_split_on_two(id, ':', secret);
}

} // verus!
