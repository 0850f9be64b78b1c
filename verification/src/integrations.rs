//! The OAuth connect flow: where the provider redirects back to, and the
//! value stored with the OAuth state so that the callback recovers who
//! connected and with which redirect URI.
use vstd::prelude::*;

use crate::pkce::{generate_code_verifier, generate_state, is_hex_char, is_verifier_char};
use crate::providers::{auth_query, url_with_query, uses_oauth_spec, ProviderKind};
use crate::text::{chars_of, push_str_chars, string_from_chars};

verus! {

/// OAuth initiate result
pub struct OAuthInitiateResult {
    pub auth_url: String,
    pub state: String,
    pub code_verifier: String,
}

/// Integration service
pub struct IntegrationService;

/// The parsed value of a UUID text (`uuid::Uuid::parse_str`), as its 128-bit
/// number, or the parse error's message.
pub uninterp spec fn uuid_parse(s: Seq<char>) -> Result<u128, Seq<char>>;

/// The lowercase hexadecimal digit of a value below 16.
pub open spec fn hex_digit(n: nat) -> char {
    if n < 10 {
        (48 + n) as char
    } else {
        (87 + n) as char
    }
}

/// The `count` lowest hexadecimal digits of `v`, most significant first.
pub open spec fn hex_digits(v: nat, count: nat) -> Seq<char>
    decreases count,
{
    if count == 0 {
        seq![]
    } else {
        hex_digits(v / 16, (count - 1) as nat).push(hex_digit(v % 16))
    }
}

/// The hyphenated lowercase text of a UUID (`Uuid::to_string`): its 32
/// hexadecimal digits in groups of 8, 4, 4, 4 and 12, joined by `-`.
pub open spec fn uuid_text(id: u128) -> Seq<char> {
    let h = hex_digits(id as nat, 32);
    h.subrange(0, 8) + seq!['-'] + h.subrange(8, 12) + seq!['-'] + h.subrange(12, 16) + seq!['-']
        + h.subrange(16, 20) + seq!['-'] + h.subrange(20, 32)
}

proof fn lemma_hex_digits(v: nat, count: nat)
    ensures
        hex_digits(v, count).len() == count,
        forall|i: int| 0 <= i < count ==> (#[trigger] hex_digits(v, count)[i]) != ':',
    decreases count,
{
    if count > 0 {
        lemma_hex_digits(v / 16, (count - 1) as nat);
        let d = v % 16;
        assert(hex_digit(d) != ':') by {
            if d < 10 {
                assert((48 + d) as char as u32 == 48 + d);
            } else {
                assert((87 + d) as char as u32 == 87 + d);
            }
        }
        let h = hex_digits(v, count);
        assert forall|i: int| 0 <= i < count implies (#[trigger] hex_digits(v, count)[i]) != ':' by {
            if i < count - 1 {
                assert(h[i] == hex_digits(v / 16, (count - 1) as nat)[i]);
            }
        }
    }
}

/// The text of a UUID has 36 characters and no `:`.
pub proof fn lemma_uuid_text_shape(id: u128)
    ensures
        uuid_text(id).len() == 36,
        !uuid_text(id).contains(':'),
{
    let h = hex_digits(id as nat, 32);
    lemma_hex_digits(id as nat, 32);
    let t = uuid_text(id);
    assert forall|i: int| 0 <= i < t.len() implies t[i] != ':' by {
        if i < 8 {
            assert(t[i] == h[i]);
        } else if i == 8 || i == 13 || i == 18 || i == 23 {
        } else if i < 13 {
            assert(t[i] == h[i - 1]);
        } else if i < 18 {
            assert(t[i] == h[i - 2]);
        } else if i < 23 {
            assert(t[i] == h[i - 3]);
        } else {
            assert(t[i] == h[i - 4]);
        }
    }
}

/// A parse result with its error message as text.
pub open spec fn uuid_result_view(r: Result<u128, String>) -> Result<u128, Seq<char>> {
    match r {
        Ok(v) => Ok(v),
        Err(e) => Err(e@),
    }
}

/// Trusted: calls `uuid::Uuid::parse_str`; the result is named.
#[verifier::external_body]
pub(crate) fn parse_uuid(s: &str) -> (r: Result<u128, String>)
    ensures
        uuid_result_view(r) == uuid_parse(s@),
{
    match uuid::Uuid::parse_str(s) {
        Ok(u) => Ok(u.as_u128()),
        Err(e) => Err(e.to_string()),
    }
}

/// `s` is the text of the UUID `id`.
pub open spec fn parses_to(s: Seq<char>, id: u128) -> bool {
    uuid_parse(s) matches Ok(v) && v == id
}

/// Trusted: calls `Uuid::from_u128(id).to_string()`, which writes the
/// hyphenated form: the 32 lowercase hexadecimal digits of the number in
/// groups 8-4-4-4-12 separated by `-`; `parse_str` reads that text back as
/// the same UUID.
#[verifier::external_body]
pub(crate) fn uuid_to_string(id: u128) -> (r: String)
    ensures
        r@ == uuid_text(id),
        parses_to(r@, id),
{
    uuid::Uuid::from_u128(id).to_string()
}

/// Where the provider redirects after consent: the OAuth callback for OAuth
/// providers, the direct-connect endpoint for the others.
pub open spec fn redirect_uri_spec(app_url: Seq<char>, uses_oauth: bool) -> Seq<char> {
    if uses_oauth {
        app_url + "/api/auth/callback"@
    } else {
        app_url + "/api/auth/connect"@
    }
}

/// The value saved with the OAuth state: `user_id:redirect_uri`.
pub open spec fn stored_state_spec(user_id: Seq<char>, redirect_uri: Seq<char>) -> Seq<char> {
    user_id + ":"@ + redirect_uri
}

/// Position of the first `:` in `s`.
pub open spec fn first_colon(s: Seq<char>) -> Option<int>
    decreases s.len(),
{
    if s.len() == 0 {
        None
    } else if s[0] == ':' {
        Some(0)
    } else {
        match first_colon(s.drop_first()) {
            Some(i) => Some(i + 1),
            None => None,
        }
    }
}

/// The stored value split at the first `:`: the user id text before it and
/// the redirect URI after it (the URI may itself hold colons). Without a
/// colon, the whole value is the user id and the redirect URI is empty.
pub open spec fn split_stored_state(s: Seq<char>) -> (Seq<char>, Seq<char>) {
    match first_colon(s) {
        Some(i) => (s.take(i), s.skip(i + 1)),
        None => (s, Seq::<char>::empty()),
    }
}

/// What the callback recovers from the stored value: the user id and the
/// redirect URI, or the reason the user id is invalid.
pub open spec fn parse_stored_state_spec(s: Seq<char>) -> Result<(u128, Seq<char>), Seq<char>> {
    let (user, uri) = split_stored_state(s);
    match uuid_parse(user) {
        Ok(id) => Ok((id, uri)),
        Err(e) => Err("Invalid user ID: "@ + e),
    }
}

proof fn lemma_first_colon_bounds(s: Seq<char>)
    ensures
        first_colon(s) matches Some(i) ==> 0 <= i < s.len() && s[i] == ':' && forall|j: int| 0 <= j < i ==> s[j] != ':',
        first_colon(s) is None ==> forall|j: int| 0 <= j < s.len() ==> s[j] != ':',
    decreases s.len(),
{
    if s.len() > 0 && s[0] != ':' {
        lemma_first_colon_bounds(s.drop_first());
        assert forall|j: int| 0 < j < s.len() implies s[j] == s.drop_first()[j - 1] by {}
    }
}

proof fn lemma_first_colon_of_prefixed(u: Seq<char>, rest: Seq<char>)
    requires
        forall|j: int| 0 <= j < u.len() ==> u[j] != ':',
    ensures
        first_colon(u + ":"@ + rest) == Some(u.len() as int),
    decreases u.len(),
{
    reveal_strlit(":");
    let s = u + ":"@ + rest;
    if u.len() == 0 {
        assert(s[0] == ':');
    } else {
        assert(s.drop_first() =~= u.drop_first() + ":"@ + rest);
        lemma_first_colon_of_prefixed(u.drop_first(), rest);
    }
}

impl IntegrationService {
    /// The redirect URI for a provider: `{app_url}/api/auth/callback` for OAuth
    /// providers, `{app_url}/api/auth/connect` for the others.
    pub fn redirect_uri(app_url: &str, uses_oauth: bool) -> (r: String)
        ensures
            r@ == redirect_uri_spec(app_url@, uses_oauth),
    {
        let mut out: Vec<char> = Vec::new();
        push_str_chars(&mut out, app_url);
        if uses_oauth {
            push_str_chars(&mut out, "/api/auth/callback");
        } else {
            push_str_chars(&mut out, "/api/auth/connect");
        }
        string_from_chars(&out)
    }

    /// The value saved with the OAuth state: the user's UUID text, `:`, and
    /// the redirect URI. The callback reads back the same user and URI.
    pub fn stored_state(user_id: u128, redirect_uri: &str) -> (r: String)
        ensures
            r@ == stored_state_spec(uuid_text(user_id), redirect_uri@),
            parse_stored_state_spec(r@) matches Ok(p) && p == (user_id, redirect_uri@),
    {
        let user = uuid_to_string(user_id);
        proof {
            lemma_uuid_text_shape(user_id);
            lemma_stored_state_roundtrip(user@, redirect_uri@);
        }
        let mut out: Vec<char> = Vec::new();
        push_str_chars(&mut out, user.as_str());
        push_str_chars(&mut out, ":");
        push_str_chars(&mut out, redirect_uri);
        string_from_chars(&out)
    }

    /// Recovers the user id and redirect URI from the value saved with the
    /// OAuth state (a missing value reads as empty).
    pub fn parse_stored_state(stored: Option<&str>) -> (r: Result<(u128, String), String>)
        ensures
            ({
                let s = match stored {
                    Some(x) => x@,
                    None => Seq::<char>::empty(),
                };
                match parse_stored_state_spec(s) {
                    Ok((id, uri)) => r matches Ok(p) && p.0 == id && p.1@ == uri,
                    Err(m) => r matches Err(e) && e@ == m,
                }
            }),
    {
        let v = match stored {
            Some(x) => chars_of(x),
            None => Vec::new(),
        };
        proof {
            lemma_first_colon_bounds(v@);
        }
        let mut i: usize = 0;
        while i < v.len() && v[i] != ':'
            invariant
                i <= v@.len(),
                forall|j: int| 0 <= j < i ==> v@[j] != ':',
            decreases v@.len() - i,
        {
            i = i + 1;
        }
        let mut user: Vec<char> = Vec::new();
        let mut k: usize = 0;
        while k < i
            invariant
                k <= i <= v@.len(),
                user@ == v@.take(k as int),
            decreases i - k,
        {
            user.push(v[k]);
            k = k + 1;
            assert(user@ =~= v@.take(k as int));
        }
        let mut uri: Vec<char> = Vec::new();
        if i < v.len() {
            let mut k2 = i + 1;
            while k2 < v.len()
                invariant
                    i + 1 <= k2 <= v@.len(),
                    uri@ == v@.subrange(i + 1, k2 as int),
                decreases v@.len() - k2,
            {
                uri.push(v[k2]);
                k2 = k2 + 1;
                assert(uri@ =~= v@.subrange(i + 1, k2 as int));
            }
        }
        proof {
            match first_colon(v@) {
                Some(c) => {
                    assert(c == i);
                    assert(v@.skip(i + 1) =~= uri@);
                },
                None => {
                    assert(i == v@.len());
                    assert(user@ =~= v@);
                    assert(uri@ =~= Seq::<char>::empty());
                },
            }
        }
        let user_text = string_from_chars(&user);
        match parse_uuid(user_text.as_str()) {
            Ok(id) => Ok((id, string_from_chars(&uri))),
            Err(e) => {
                let mut out: Vec<char> = Vec::new();
                push_str_chars(&mut out, "Invalid user ID: ");
                push_str_chars(&mut out, e.as_str());
                Err(string_from_chars(&out))
            },
        }
    }
}

/// Law: the callback recovers exactly the user id text and redirect URI
/// that the connect request stored, whatever colons the URI holds, as long
/// as the user id text has none (a UUID's text never has). A UUID's own text
/// then parses back to the same UUID (see `uuid_to_string`).
pub proof fn lemma_stored_state_roundtrip(user_text: Seq<char>, redirect_uri: Seq<char>)
    requires
        !user_text.contains(':'),
    ensures
        split_stored_state(stored_state_spec(user_text, redirect_uri)) == (user_text, redirect_uri),
        match uuid_parse(user_text) {
            Ok(id) => parse_stored_state_spec(stored_state_spec(user_text, redirect_uri)) matches Ok(p)
                && p == (id, redirect_uri),
            Err(e) => parse_stored_state_spec(stored_state_spec(user_text, redirect_uri)) matches Err(m)
                && m == "Invalid user ID: "@ + e,
        },
{
    let u = user_text;
    let s = stored_state_spec(u, redirect_uri);
    assert forall|j: int| 0 <= j < u.len() implies u[j] != ':' by {
        if u[j] == ':' {
            assert(u.contains(':'));
        }
    }
    lemma_first_colon_of_prefixed(u, redirect_uri);
    reveal_strlit(":");
    assert(s.take(u.len() as int) =~= u);
    assert(s.skip(u.len() as int + 1) =~= redirect_uri);
}

/// The authorization URL a provider gives for these values, if any.
pub open spec fn auth_url_for(
    kind: ProviderKind,
    client_id: Seq<char>,
    state: Seq<char>,
    redirect: Seq<char>,
    instance: Seq<char>,
) -> Option<Seq<char>> {
    match auth_query(kind, client_id, state, redirect, instance) {
        Ok((base, params)) => match url_with_query(base, params) {
            Ok(u) => Some(u),
            Err(_) => None,
        },
        Err(_) => None,
    }
}

impl IntegrationService {
    /// Starts connecting an account: a fresh OAuth state and PKCE verifier,
    /// the provider's authorization URL for them, and the value to save
    /// with the state (`user_id:redirect_uri`). A provider without OAuth
    /// refuses, and so does an authorization URL that does not parse.
    pub fn initiate_connect(
        kind: ProviderKind,
        user_id: u128,
        client_id: &str,
        app_url: &str,
        instance_url: &str,
    ) -> (r: Result<(OAuthInitiateResult, String), String>)
        ensures
            ({
                let redirect = redirect_uri_spec(app_url@, uses_oauth_spec(kind));
                match r {
                    Ok((res, stored)) => {
                        &&& res.state@.len() == 64
                        &&& forall|i: int| 0 <= i < res.state@.len() ==> is_hex_char(#[trigger] res.state@[i])
                        &&& res.code_verifier@.len() == 128
                        &&& forall|i: int|
                            0 <= i < res.code_verifier@.len() ==> is_verifier_char(
                                #[trigger] res.code_verifier@[i],
                            )
                        &&& auth_url_for(kind, client_id@, res.state@, redirect, instance_url@) == Some(
                            res.auth_url@,
                        )
                        &&& stored@ == stored_state_spec(uuid_text(user_id), redirect)
                    },
                    Err(e) => exists|state: Seq<char>|
                        #![trigger auth_query(kind, client_id@, state, redirect, instance_url@)]
                        match auth_query(kind, client_id@, state, redirect, instance_url@) {
                            Err(m) => e@ == "Failed to generate auth URL: "@ + ("Auth error: "@ + m),
                            Ok((base, params)) => url_with_query(base, params) matches Err(m) && e@
                                == "Failed to generate auth URL: "@ + ("Auth error: "@ + ("URL parse: "@ + m)),
                        },
                }
            }),
            auth_query(kind, client_id@, ""@, redirect_uri_spec(app_url@, uses_oauth_spec(kind)), instance_url@) matches Err(m)
                ==> (r matches Err(e) && e@ == "Failed to generate auth URL: "@ + ("Auth error: "@ + m)),
    {
        let state = generate_state();
        let code_verifier = generate_code_verifier();
        let redirect = Self::redirect_uri(app_url, kind.uses_oauth());
        match kind.generate_auth_url(client_id, state.as_str(), code_verifier.as_str(), redirect.as_str(), instance_url) {
            Ok(resp) => {
                let stored = Self::stored_state(user_id, redirect.as_str());
                Ok((OAuthInitiateResult { auth_url: resp.url, state, code_verifier }, stored))
            },
            Err(e) => {
                let msg = e.message();
                let mut out: Vec<char> = Vec::new();
                push_str_chars(&mut out, "Failed to generate auth URL: ");
                push_str_chars(&mut out, msg.as_str());
                let r = string_from_chars(&out);
                proof {
                    let red = redirect_uri_spec(app_url@, uses_oauth_spec(kind));
                    crate::providers::lemma_auth_query_refusal(kind, client_id@, state@, ""@, red, instance_url@);
                    assert(redirect@ == red);
                    match auth_query(kind, client_id@, state@, red, instance_url@) {
                        Err(m) => {
                            assert(e matches crate::social::ProviderError::Auth(x) && x@ == m);
                            assert(r@ =~= "Failed to generate auth URL: "@ + ("Auth error: "@ + m));
                        },
                        Ok((base, params)) => {
                            match url_with_query(base, params) {
                                Err(m) => {
                                    assert(e matches crate::social::ProviderError::Auth(x) && x@ == "URL parse: "@ + m);
                                    assert(r@ =~= "Failed to generate auth URL: "@ + ("Auth error: "@ + ("URL parse: "@ + m)));
                                },
                                Ok(_) => {},
                            }
                        },
                    }
                    assert(match auth_query(kind, client_id@, state@, red, instance_url@) {
                        Err(m) => r@ == "Failed to generate auth URL: "@ + ("Auth error: "@ + m),
                        Ok((base, params)) => url_with_query(base, params) matches Err(m) && r@
                            == "Failed to generate auth URL: "@ + ("Auth error: "@ + ("URL parse: "@ + m)),
                    });
                }
                Err(r)
            },
        }
    }
}

} // verus!
