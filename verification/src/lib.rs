use vstd::prelude::*;

pub mod articles;
pub mod automation;
pub mod bluesky;
pub mod browser;
pub mod business_profile;
pub mod content_splitter;
pub mod daemons;
pub mod discord;
pub mod engagement;
pub mod farcaster;
pub mod fediverse;
pub mod github;
pub mod google;
pub mod instagram;
pub mod integrations;
pub mod kick;
pub mod json;
pub mod linkedin;
pub mod linkedin_page;
pub mod mastodon;
pub mod meta;
pub mod nostr;
pub mod notifications;
pub mod pinterest;
pub mod pkce;
pub mod posts;
pub mod providers;
pub mod reddit;
pub mod scheduler;
pub mod short_link;
pub mod social;
pub mod staging;
pub mod text;
pub mod tokens;
pub mod webhook;

verus! {

} // verus!
