# COSMIC KVM

Keyboard, mouse and clipboard sharing between machines. A server captures the input
of its devices; Scroll Lock toggles whether it stays local or goes to the clients,
which inject it through virtual devices. Both sides share their clipboards.

- `src/` is the library. It holds the decisions, as functions and small state
  machines with contracts that Verus proves. Laws that span several functions are
  public proof functions whose names begin with `law_`.
- `app/` is the daemon around it. It reads devices, sockets, the clipboard and the
  configuration, carries out the actions that the library asks for, and reports back
  what came of them. Floating-point amounts exist only there, on the wire.
- `tests/` runs the library on concrete values.

What is taken from outside crates without proof stands in `src/kernel.rs` (`evdev`),
`src/server.rs` (`uuid`), `src/discovery.rs` (`mdns-sd`) and `src/clipboard.rs` (the
lossy decoding of UTF-8 in the standard library).
