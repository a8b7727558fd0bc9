# migration_scheduler

A scheduler for company migration slots: admins create time slots, companies book free
ones, and every booked or changed slot is mirrored as a task in the YouGile tracker.

## Layout

- `src/` is the verified library (Verus). It holds the slot store and its rules, admin
  sessions and cookie parsing, error texts and HTTP statuses, the retry policy, the texts
  and requests sent to the tracker, and time and id parsing. Calls into chrono, chrono-tz,
  uuid and sha2 stand behind small trusted wrappers whose contracts name what those crates
  return.
- `app/` is the web server around it: axum routes and handlers, JSON files on disk, the
  tokio locks that share the store, the tracker client and the retry loop that sleeps.
  It converts between the library's types and serde copies of them.
- `tests/` exercises the library on concrete values.

## Collections

The slot store keeps its slots in a `Vec`, sorted by date, start time and id, with no id
twice (the type invariant of `Scheduler`). The listing by date range is a range query on an
ordered map, and vstd gives `BTreeMap` no specification of `range`; the sorted `Vec` gives
the same listing order and lookup by id, both proved.

The admin sessions are kept the same way, as a `Vec` of (token digest, expiry) with no
digest twice. vstd's `HashMap` specification needs a key model for the key type, which it
gives only for integer keys, not for the 32-byte digest arrays.

The store holds at most one slot per id. A stored file that names one id twice loads as
one slot, the later one, and a new slot whose drawn id is already taken replaces the slot
stored under it: in both cases the slot that lookups by id reach is the one kept.
