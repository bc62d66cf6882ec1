# runtime_ble

The logic of a loadable Bluetooth LE runtime, verified with Verus.

The application configures the runtime, queues requests and gets callbacks; a
session advertises, serves a GATT, scans, connects and runs a GATT client. The
library decides what is done for every request and event and what the
application is told; the Bluetooth host and the radio carry it out.

- `src/` is the library. `runtime` and `central` hold the calls of the
  application and the state that they change. `adv`, `gatt`, `scan`, `bond`,
  `l2cap` and `controller` turn a configuration into what is set up. `serve`,
  `server`, `link`, `client` and `events` are the steps of a session. `host`
  holds the calls into the Bluetooth host crates, with what is taken from them
  without proof.
- `tests/` runs the library on concrete values.
- `app/` is the static library around it: the C interface, the executor, and
  the sessions on the host. `--cfg runtime_ble_central`,
  `--cfg runtime_ble_l2cap` and `--cfg runtime_ble_lean` choose the optional
  parts, `--cfg runtime_ble_chip="nrf54l15"` and the like the chip.

Each call of the application is stated as a step of the state, `Model`. The
proof functions whose names start with `law_` state what holds across calls.
