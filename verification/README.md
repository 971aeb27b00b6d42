# codex_bar

The logic of a small Windows tray utility that shows Codex usage: the five-hour
and weekly rate-limit windows, reset credits and the account it reads them for.
The library is written in Verus; its functions carry contracts that Verus proves.

- `src/usage.rs` — usage and reset-credit responses, as decoded field values, turned
  into snapshots (percentages as binary fixed point, 2^52 to the percent).
- `src/auth.rs` — choosing the access token and account id from the login file,
  and reading a claim from a JWT.
- `src/request.rs` — request headers, the login file's location, and the messages
  for refused requests.
- `src/display.rs`, `src/popup.rs`, `src/events.rs` — the popup's texts, state, size,
  placement, throttles and window-message decisions.
- `src/menu.rs`, `src/theme.rs`, `src/tray.rs`, `src/panel.rs`, `src/instance.rs` —
  the tray menu, colours, tray commands, the panel front end and single-instance
  handling.
- `src/text.rs` — trimming, decimal and UTF-16 helpers.

`app/` holds the Win32 program around it: file, environment and network I/O, JSON
decoding, the message loop and Direct2D painting.
