# rusty_libimobiledevice

Verified clients for services of an iOS device (notification proxy, restore
service, pairing records) and the decisions of the `idevicelistapps` tool.

- `src/` is the library, checked by Verus:
  - `error.rs`: the status codes of the services and the errors they stand for;
  - `text.rs`: NUL-terminated UTF-8 strings, and lossy decoding of the text
    the device sends;
  - `services/`: the notification proxy and restore clients and the pairing
    record lookup. Each operation hands its request to a function given by the
    caller, which performs it on the device connection; the client decides
    from the reply what the operation returns;
  - `list_apps.rs`: the command line of the tool, the device it talks to, and
    which apps it lists and how.
- `app/` calls libimobiledevice through its C interface and runs the tool.
- `tests/` exercises the library.
