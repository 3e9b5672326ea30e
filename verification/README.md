# nm_mon

A network monitor for NetworkManager: it follows the primary connection over D-Bus, and when
it is a wireless one reports upload and download speeds and the SSID and signal strength of the
access point to the clients of a local socket, as fixed 32-byte frames.

- `src/` is the library, verified with Verus: the wire format of events (`event`, `wire`,
  `text`), the decisions that pick which NetworkManager objects to follow and which events to
  report (`nm`), the outgoing D-Bus message queue (`dbus_queue`), the command line (`args`),
  the system bus address (`dbus_address`) and the state the service keeps for new clients
  (`service`).
- `app/` is the daemon around it: the D-Bus socket, the property subscriptions made through
  `mini-sansio-dbus`, and the `pollsendd` runtime.
- `tests/` runs the library on concrete values.
