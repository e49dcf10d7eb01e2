# valorant_store

The verified core of a desktop client that shows a Valorant player's daily
store, match history and match details.

* `src/` is the library, checked by Verus:
  * `text` — character-level helpers (`split` pieces, decimal parsing, search);
  * `redirect` — reading the tokens out of the sign-in redirect fragment;
  * `auth` — the session, token freshness, the login-window watch and the
    silent-renewal answer;
  * `api` — request URLs and headers for the Riot player-data service, the
    client-version cache, storefront and skin answers;
  * `json` — the plain JSON model the answers are read through;
  * `store` — configuration, keychain entry names, data-file paths and the
    cookie vault (keychain text or AES-GCM file);
  * `codec`, `crypto` — the calls into `base64`, `aes-gcm`, `rand` and `std`
    that the vault relies on, with the contracts they are trusted for;
  * `error` — the failures the library decides, with their messages.
* `app/` is the Tauri application around it: commands, HTTP (`reqwest`),
  keychain (`keyring`), files, cookie jar and JSON decoding (`serde_json`).
* `tests/` exercise the library on concrete values.
