# enroll

The decision logic of a fingerprint enrollment utility for the fingerprint
daemon (`net.reactivated.Fprint`), verified with Verus.

- `src/finger.rs` — the fingers that can be enrolled, their daemon names and shown names.
- `src/i18n.rs` — the texts of the active language, by message id, with English as the fallback.
- `src/username.rs` — validation of user names before they reach the daemon.
- `src/error.rs` — D-Bus errors, the errors shown to the user, and how one maps to the other.
- `src/status.rs` — the status line and the daemon's enrollment results.
- `src/config.rs` — settings, theme choice, detection of the COSMIC desktop.
- `src/message.rs` — the messages the application reacts to and the work it asks for.
- `src/model.rs` — the application model: one handler per message, and what the interface may offer.
- `src/device.rs` — step machines for the daemon conversations (delete, clear, enroll, verify, stop).
- `src/tasks.rs` — the message that ends each piece of work.
- `src/laws.rs`, `src/device_laws.rs` — properties of the model and of the step machines.
- `app/` — a text front end that performs the D-Bus calls and runs the model.
