# synctv_core

The rules behind the social, couple-space, gift, check-in and subscription
features of a watch-together service, written in Verus and proved against
their contracts.

- `src/` is the verified library: validation of every request, the decision
  each request makes between its storage reads and writes, the arithmetic of
  point transfers and check-in awards, the couple pet's simulation, streaks
  and anniversaries, and the reading of stored rows back into values. Laws
  that span several functions are public proof functions beside the code
  they speak of.
- `tests/` exercises the library on concrete values.
- `app/` holds the storage edge: the SQL statements, the conversions between
  database time types and the library's plain numbers, and the serde copies
  of the library's types. Every decision it makes is a call into the library.

Times are whole seconds since the Unix epoch (`UnixSeconds`), calendar days
are either a `CivilDate` or a count of days since 1970-01-01 (`EpochDay`).
