# slog

Structured, composable logging, verified with Verus.

- `src/` is the library: levels, keys and values, records, key-value
  context lists, drains (filters, duplicates, failover, error mapping),
  loggers, and the record formats (terminal full and compact, JSON and
  Bunyan, RFC 3164 key-value text, journald fields), logging scopes and the
  adapter from `log` records. Every function carries a contract that Verus
  proves; laws that relate several functions are public proof functions.
- `app/` holds what does input and output: writing formatted records to
  streams (also from a writer thread), sending to syslog and journald,
  thread-local scopes and the global logger, the `log` crate adapter, and
  drains that switch at run time or panic on errors.
- `tests/` runs the library on concrete records.
