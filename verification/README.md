# razer_control_gui

Control logic for Razer laptops and the Razer laptop cooling pad, verified
with Verus.

- `src/` — the verified library:
  - `bho.rs`: the battery health optimizer byte (flag in the top bit, threshold below);
  - `packet.rs`: controller reports;
  - `laptop.rs`: the laptop model and the reports each operation sends;
  - `config.rs`: the power, lighting and cooling pad settings;
  - `cooling_pad.rs`: cooling pad commands, their checksum, how responses are judged, and how a list of commands is run (in order, stopping at the first failure);
  - `manager.rs`: the device manager's decisions (what to store, what to send, what to answer);
  - `settings.rs`: the rules of the settings window;
  - `messages.rs`: the requests and answers between the settings window and the daemon, and how the window reads them (the power settings one request at a time, stopping at the first absent or wrong answer);
  - `hex.rs`: hexadecimal USB ids, parsed and proved against their definition;
  - `laws.rs`: properties that span several operations.
- `app/` — the daemon around it: HID and D-Bus I/O, the settings and devices files.
- `tests/` — tests of the library on concrete values.

Operations that talk to a device return what to send and how the answer
follows from the device's replies; the daemon does the sending.

What is not here:

- The settings window itself (GTK widgets and their callbacks) and the
  socket that carries requests between the window and the daemon are not
  part of this crate, and the daemon in `app/` does not serve requests, so
  it calls none of the manager's per-request setters and getters and never
  writes the settings file back (each setter's plan says when to). The
  library holds what both sides decide: the requests and how answers are
  read (`messages.rs`), the window's rules (`settings.rs`), and the
  manager's answer to each request (`manager.rs`). `app/settings_client.rs`
  shows how a transport drives the power-settings read.
- The laptop's controller protocol is written out in `packet.rs` and
  `laptop.rs` from the reports this project sends: a 90-byte report behind
  a report id, transaction id `0x1F`, 80 argument bytes, a checksum that is
  the XOR of bytes 2..88, and a reply accepted when its status byte is
  `0x02`. No driver crate for the controller is used, so this framing is
  assumed, not checked against one.
