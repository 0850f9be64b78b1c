# social_forge

The logic of a social-media scheduler, verified with Verus: content
splitting into threads, publish retries and token refresh, post plugs,
sanitising and validating posts, OAuth state and PKCE values, and, for each
platform, the requests it is sent and how its answers are read.

- `src/` is the verified library. Each platform module (`linkedin`,
  `linkedin_page`, `meta`, `instagram`, `mastodon`, `reddit`, `bluesky`, ...)
  builds request bodies and parameters and reads answers given as `Json`
  values; `content_splitter`, `scheduler`, `posts`, `staging` and
  `automation` hold the scheduling and publishing rules. Calls into outside
  crates (hashing, base64, UUIDs, regular expressions, URL building,
  lowercasing) go through small trusted wrappers whose contracts are stated
  next to them.
- `tests/` exercises the library on concrete values.
- `app/` performs the HTTP calls, runs one publish with its retries, link
  shortening, plugs, staging and token refresh as the library decides them,
  runs the messaging daemons and converts between the library's types and
  their serde forms.
