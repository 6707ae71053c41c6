# tessera_core

The core of Tessera, certificate login for offline devices, as a library verified with Verus.

- `src/` is the library. It decides; it touches no file, process or socket. Where the outside world
  has to act, a function says what is to be done next and another takes what came of it: hooks and
  their supervision (`hooks/`), the GOST engine (`gost/`), the host identity (`host_identity/`) and
  the import of enrollment packages (`enrollment/`) are such state machines.
- `src/foreign.rs` holds the calls into other crates: digests, hexadecimal, regular expressions,
  UUIDs and libcrypto's revocation lists. What is believed of each is stated there.
- `src/enrollment/history.rs` states what holds of every import, whatever fails in the course of it.
- `tests/` runs the library.
- `app/` is ordinary Rust around it: configuration files, processes, the monitor's socket,
  libcrypto's engine interface, and the files of a device.
