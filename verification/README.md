# xtui

A read-focused, keyboard-first X client for the terminal. Timelines come from
the browser extension (which uses the X session already signed in to Edge or
Chrome), from the official X API, or from a built-in offline demo.

## Layout

- `src/` — the library, written in Verus. Every function carries a contract
  and is proved against it:
  - `app.rs` — the reader's state machine: screens, the back stack,
    selection, search editing, paging, read-ahead, media requests, and how
    each background result is applied. Work the reader needs done (requests,
    opening a browser, media downloads) is returned as `Effect`s, and each
    outcome comes back as a `UiMsg`.
  - `ui.rs` — what a key press or a click does, the palette and its
    overrides, the card stack and every click region the reader paints,
    the words of post cards, headers and the help index, text fitting and
    relative times.
  - `landing.rs` — the landing page's layouts, menu rows and words.
  - `keys.rs` — key descriptions, default bindings and configured overrides.
  - `api.rs` — turning X API responses into posts, users and lists.
  - `extension.rs` — the native-messaging frame format, the bridge's retry
    and version rules, the relay's client slot and thread routes, and
    normalising scraped posts.
  - `auth.rs` — the PKCE challenge, the authorization address and reading
    the OAuth redirect.
  - `media.rs`, `browser.rs`, `cli.rs`, `config.rs`,
    `motion.rs`, `screenshot.rs`, `demo.rs`, `model.rs`, `text.rs`.
- `app/` — the program around the library: the terminal session and event
  loop, painting with ratatui, HTTP and the browser bridge, configuration
  files, OAuth sign-in and image decoding.
- `tests/` — tests of the library on concrete values.

Outside crates that only compute (`chrono`, `unicode-width`, `textwrap`,
`sha2`, `base64`, `url`) are called from the library through small trusted
wrappers whose contracts name or state their results.
