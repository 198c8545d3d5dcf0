# iono

The rules of the iono file, paste and short-link service, as a Verus library
(`src/`), with the HTTP services around it (`app/`).

`src/` holds what the services decide and compute, each with a contract
that Verus proves:

- `requests`: checks on new pastes and short-link targets.
- `publish`: expiry dates, password protection, retries for a free key,
  names and public links of new uploads.
- `settings`: upload lifetimes and settings changes.
- `account`: password changes, re-authentication, TOTP, recovery codes,
  passkeys and token versions.
- `sharex`: ShareX uploader configurations.
- `embed`: the link-preview page of a file, its colour and style sheet.
- `pages`: access to protected pages, caching, raw links, the paste page and
  raw-file responses.
- `sweep`: the janitor's sweep of expired files.
- `text`, `time`, `records`, `error`: the text, date and record values these
  work on, and the errors they answer with.

`app/` runs the ingest, viewer and janitor services (and the gateway's user
routes) with actix-web, sqlx and the service's core crate, and calls the
library for every decision.
