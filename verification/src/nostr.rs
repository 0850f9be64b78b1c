//! Nostr: connecting by public key (`npub1...`), the account page, and the
//! placeholder answer to publishing.
use vstd::prelude::*;

use crate::farcaster::{abbreviate, abbreviated, can_abbreviate};
use crate::json::{str_at, Json};
use crate::social::{AuthToken, PageInfo, ProviderError, PublishResult};
use crate::text::{byte_len, opt_str_view, push_str_chars, starts_with, str_starts_with, string_from_chars};
use crate::tokens::auth_view;

verus! {

/// How a public key is shown: longer than twelve bytes, its first eight
/// and last four bytes around `...`.
pub open spec fn key_display(s: Seq<char>) -> Seq<char> {
    abbreviated(s, 12, 8, 4)
}

/// The key can be shown: the cuts fall on character boundaries.
pub open spec fn displayable(s: Seq<char>) -> bool {
    byte_len(s) <= usize::MAX && can_abbreviate(s, 12, 8, 4)
}

fn display_name(key: &str) -> (r: String)
    requires
        displayable(key@),
    ensures
        r@ == "Nostr ("@ + key_display(key@) + ")"@,
{
    let shown = abbreviate(key, 12, 8, 4);
    let mut out: Vec<char> = Vec::new();
    push_str_chars(&mut out, "Nostr (");
    push_str_chars(&mut out, shown.as_str());
    push_str_chars(&mut out, ")");
    string_from_chars(&out)
}

/// The connection for credentials given as `code` (parsed as `creds`, or
/// `None` when they are not JSON): the `address` must be a non-empty
/// `npub1...` key, which is then token, id and username.
pub fn nostr_auth_token(code: &str, creds: Option<&Json>) -> (r: Result<AuthToken, ProviderError>)
    requires
        match creds {
            Some(c) => match str_at(*c, "address"@) {
                Some(a) => displayable(a),
                None => true,
            },
            None => true,
        },
    ensures
        code@.len() == 0 ==> (r matches Err(ProviderError::Auth(m)) && m@
            == "Nostr: provide your npub via the Web3 connect API. Use POST /api/integrations/connect/web3 with {\"provider\":\"nostr\",\"address\":\"<npub>\"}."@),
        code@.len() > 0 ==> match creds {
            None => r matches Err(ProviderError::Auth(m)) && m@
                == "Invalid credentials format. Expected JSON with \"address\" field."@,
            Some(c) => match str_at(*c, "address"@) {
                None => r matches Err(ProviderError::Auth(m)) && m@ == "Missing 'address' in credentials"@,
                Some(a) => if a.len() == 0 {
                    r matches Err(ProviderError::Auth(m)) && m@ == "address must not be empty"@
                } else if !starts_with(a, "npub1"@) {
                    r matches Err(ProviderError::Auth(m)) && m@
                        == "Invalid Nostr public key format. Expected npub1..."@
                } else {
                    r matches Ok(t) && auth_view(t) == (
                        a,
                        None::<Seq<char>>,
                        None::<u32>,
                        a,
                        "Nostr ("@ + key_display(a) + ")"@,
                        a,
                        None::<Seq<char>>,
                    )
                },
            },
        },
{
    if code.unicode_len() == 0 {
        return Err(
            ProviderError::Auth(
                "Nostr: provide your npub via the Web3 connect API. Use POST /api/integrations/connect/web3 with {\"provider\":\"nostr\",\"address\":\"<npub>\"}.".to_owned(),
            ),
        );
    }
    let c = match creds {
        Some(c) => c,
        None => {
            return Err(
                ProviderError::Auth(
                    "Invalid credentials format. Expected JSON with \"address\" field.".to_owned(),
                ),
            );
        },
    };
    let address = match c.str_at("address") {
        Some(a) => a,
        None => {
            return Err(ProviderError::Auth("Missing 'address' in credentials".to_owned()));
        },
    };
    if address.unicode_len() == 0 {
        return Err(ProviderError::Auth("address must not be empty".to_owned()));
    }
    if !str_starts_with(address, "npub1") {
        return Err(
            ProviderError::Auth("Invalid Nostr public key format. Expected npub1...".to_owned()),
        );
    }
    Ok(
        AuthToken {
            access_token: address.to_owned(),
            refresh_token: None,
            expires_in: None,
            provider_user_id: address.to_owned(),
            name: display_name(address),
            username: address.to_owned(),
            picture: None,
        },
    )
}

/// The one account of a Nostr connection: the key as id, token and
/// username, shown as `Nostr ({key})`.
pub fn nostr_page(access_token: &str) -> (r: PageInfo)
    requires
        displayable(access_token@),
    ensures
        r.id@ == access_token@,
        r.name@ == "Nostr ("@ + key_display(access_token@) + ")"@,
        opt_str_view(r.access_token) == Some(access_token@),
        r.picture is None,
        opt_str_view(r.username) == Some(access_token@),
{
    PageInfo {
        id: access_token.to_owned(),
        name: display_name(access_token),
        access_token: Some(access_token.to_owned()),
        picture: None,
        username: Some(access_token.to_owned()),
    }
}

/// The answer to publishing: events are not signed or sent to relays yet,
/// so the post is `pending_implementation` under the id `nostr_{event}`.
pub fn nostr_placeholder(event_id: u128) -> (r: PublishResult)
    ensures
        r.platform_post_id@ == "nostr_"@ + crate::integrations::uuid_text(event_id),
        r.platform_post_url is None,
        r.status@ == "pending_implementation"@,
{
    let id = crate::integrations::uuid_to_string(event_id);
    let mut out: Vec<char> = Vec::new();
    push_str_chars(&mut out, "nostr_");
    push_str_chars(&mut out, id.as_str());
    PublishResult {
        platform_post_id: string_from_chars(&out),
        platform_post_url: None,
        status: "pending_implementation".to_owned(),
    }
}

/// Trusted: calls `uuid::Uuid::new_v4()`, a random UUID; nothing is
/// promised of its value.
#[verifier::external_body]
fn random_uuid() -> (r: u128) {
    uuid::Uuid::new_v4().as_u128()
}

/// Publishing a note: a placeholder answer under a fresh random event id
/// (see `nostr_placeholder`).
pub fn nostr_publish() -> (r: PublishResult)
    ensures
        exists|id: u128| r.platform_post_id@ == "nostr_"@ + crate::integrations::uuid_text(id),
        r.platform_post_url is None,
        r.status@ == "pending_implementation"@,
{
    let id = random_uuid();
    nostr_placeholder(id)
}

} // verus!
