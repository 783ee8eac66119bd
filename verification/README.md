# peekdown

The logic of Peekdown, a Markdown viewer and editor that runs in a
frameless window around a web view, as a Rust library whose behaviour is
stated in contracts and proved with Verus.

- `src/` is the verified library:
  - `text.rs`: character-level string operations (equality, prefixes,
    replacing every occurrence of a pattern).
  - `html.rs`: escaping scripts for inlining and building the page.
  - `i18n.rs`: the interface texts and the choice of locale.
  - `state.rs`: the application state.
  - `ipc.rs`: the handling of front-end messages as a state machine from
    state and event to next state and action, and the scripts it sends back.
  - `json.rs`: JSON string literals and string-member objects as
    `serde_json` writes them, and what reading them back gives.
  - `url.rs`: percent-encoding of image paths into URLs and back.
  - `protocol.rs`: routing of the `peekdown` protocol, media types and the
    messages that dropped files become.
  - `cli.rs`: the command line.
- `app/` is the Windows program around it: the window, the web view, the
  event loop, files, dialogs and JSON decoding of messages.
- `tests/` runs the library on concrete values.
