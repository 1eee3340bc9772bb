# bleasy

An easy-to-use BLE (Bluetooth Low Energy) library, whose decisions are specified and
proved with Verus.

- `src/` is the verified library: the scan settings (`config`), the per-event decisions of
  a running scan (`worker`, with its laws in `scan_laws`), the events clients receive
  (`event`), how a scanner starts (`scanner`), how a device's services and characteristics
  are listed (`device`), the notification filter (`characteristic`) and the standard UUIDs
  (`common`).
- `app/` does the radio work with `btleplug` and `tokio`: it runs the adapter's event
  stream, performs each action the verified state machines ask for, and hands them back
  the outcomes; it also offers the `Scanner`, `Device`, `Characteristic` and `Service`
  handles and the caller's filter closures.
- `tests/` runs the library on concrete scenarios.
