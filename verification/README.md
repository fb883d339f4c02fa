# Xiaomi PC Manager Lite

Battery care and performance modes of Xiaomi notebooks, through WMI or the WinRing0
driver.

- Limits the charge of the battery, and turns that off again.
- Switches between the performance modes Eco, Quiet, Smart, Fast and Extreme.
- Binds function keys, such as Fn+K to the next performance mode.
- Offers battery care and the performance modes in the tray, and tells of changes there.
- Writes the settings again when the power supply changes.

## Layout

| Path | What it holds |
|---|---|
| `src/app/` | The core: configuration, charge limit and performance policies, function key bindings, notifications, start-up. It touches no hardware; what does is reached through traits. |
| `src/ec/` | The backends, short of their input and output: the protocol of the embedded controller, the WMI interface and its worker, the watcher for key events, the driver files. |
| `src/gui.rs`, `src/fnkey.rs` | What the window shows, and what commands and clicks change. |
| `src/commands.rs`, `src/tray.rs` | The requests of a front end, the menu of the tray, and messages of the system. |
| `src/text.rs` | Texts and numbers. |
| `tests/` | Tests of the library. |
| `app/` | The program: files, ports, COM, threads and the window. |

`src/` is verified with Verus. Every function there says in its `ensures` what it returns,
and the functions whose names begin with `law_` state what holds of several of them.

Hardware may answer anything, so nothing is assumed of it. What is asked of it is recorded:
a backend, a factory and a sink are handed around inside a value that keeps them private
and notes every request (`BoxedBackend` and `Opener` in `src/app/hardware.rs`, `Connectors`,
`Outbox`, `Attempts`). A function that is handed such a value states exactly which requests
it adds to the record, in which order, and what it makes of each answer.

Where input and output and decisions alternate, the library is a machine that says what to
do next and is told what came of it: `Transfer` for the ports of the controller, `Session`
for one WMI call, `WmiCalls` for the replies of the worker, `Watcher` for key events.
