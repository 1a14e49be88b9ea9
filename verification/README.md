# aegis

A zero-trust USB guard. Every USB device that appears is held (its port's
power is cut), fingerprinted, checked against the port geo-fence and the
list of trusted devices, analysed, and left pending until an administrator
authorises or blocks it. Every decision is recorded in an HMAC-chained
audit log.

## Layout

- `src/` is the library, verified with Verus: the device and configuration
  models, role-based access control, port geo-fencing, device passports,
  the audit chain, the daemon's command handling and device admission, the
  parsing of sysfs attributes, the analysis findings (HID spoofing, byte
  statistics, keystroke timing, trust score, signature scan reports, honey
  tokens, sandbox verdicts) and the client's reading of daemon replies.
  Hashing, HMAC, UUIDs, the clock and YARA scanning are done by the `sha2`,
  `hmac`, `hex`, `uuid`, `chrono` and `yara-x` crates behind small trusted
  wrappers. Their contracts state what those crates document where a few
  lines can say it; hashes, UUID parsing, time rendering and YARA-X's
  compile and scan results are named as functions of their inputs.
- `app/` is the daemon program: configuration file, audit log file, sysfs
  reads and writes, the udev event thread, the Unix-socket server, the
  floating-point entropy and keystroke statistics, and the serialized forms
  of the library's types.
- `tests/` exercises the library.
