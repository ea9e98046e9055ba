# pylon_shimload

Bindings for Basler Pylon cameras through a C ABI shim that is opened at run
time, split in two:

- `src/` is the verified library (Verus): the runtime's lease bookkeeping
  (`runtime`), the choice of the shim path and the validation of its API
  table (`shim`), the interpretation of what shim calls report (`report`),
  grab options and the call that starts grabbing (`options`), and the error
  types with their text (`error`, `message`).
- `app/` opens the shim with `libloading`, keeps the process-wide state and
  calls through the shim's function table, handing each result to the library.
- `tests/` exercises the library on concrete values.
