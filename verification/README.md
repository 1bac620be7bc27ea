# pyinputcapture

A client of the [XDG InputCapture portal](https://flatpak.github.io/xdg-desktop-portal/docs/doc-org.freedesktop.portal.InputCapture.html)
for Python: it arms pointer barriers along screen edges and reports when the pointer hits one.

The decisions are a library verified with [Verus](https://github.com/verus-lang/verus); the
bindings around it are ordinary Rust.

| Path                | What it holds                                                            |
|---------------------|--------------------------------------------------------------------------|
| `src/barriers.rs`   | barrier geometry, numbering and labels; validation of explicit segments  |
| `src/session.rs`    | zones, zone set and armed barriers of a session                          |
| `src/activation.rs` | what is shared about activations, and in which order it is written       |
| `src/task.rs`       | the portal task as a state machine, from connecting to closing           |
| `src/task_laws.rs`  | what holds of the task over any run                                      |
| `src/setup.rs`      | timeouts, waiting in slices, reporting a setup exactly once              |
| `src/portal.rs`     | the caller's handle: which calls are possible when                       |
| `src/calls.rs`      | how outcomes become results and exceptions                               |
| `src/text.rs`       | numbers and labels in messages                                           |
| `app/`              | the Python module, the tokio runtime and the D-Bus calls                 |

Floating-point timeouts enter the library as their bits, together with the text they print as,
and deadlines are whole nanoseconds.
