# auto_cursor

A desktop tool for Cursor accounts and machine identities: it keeps a list of saved
accounts, switches Cursor's signed-in account, resets or restores Cursor's machine
identifiers (with backups of `storage.json`), patches Cursor's `main.js` and workbench
script, and drives the bundled registration program.

## Layout

- `src/` is the library, verified with Verus. Each operation that touches files, processes
  or the network is written as a step function from a state and an event to the next state
  and an action; its contract says exactly which action comes next, what is recorded in the
  log and when the operation succeeds. Pure parts (the account list, `storage.json`
  rewrites, path rules, parsing of program output and mail, web replies) are ordinary
  functions with exact contracts. Laws that relate several operations are public proof
  functions named `law_*`.
  - `account`, `session`, `cursor_auth`, `storage`, `sqlite_fields`: saved accounts, signing
    in and out, and the members written to `storage.json` and the SQLite store.
  - `machine_id`, `reset`, `complete`, `backup`, `js_patch`: machine identifiers, their reset
    and restore, backups, and the script patches.
  - `registration`, `mail_code`, `batch`: the registration program and verification codes.
  - `paths`, `process`, `commands`, `dashboard`, `text`: platform paths, process listings,
    command replies, web replies, and string helpers.
  - `deps`: every call into another crate, each behind a contract that is trusted.
- `app/` is the unverified shell: file, process and network work, driving the step
  functions, and the JSON the front end receives.
- `tests/` runs the library on concrete values.
