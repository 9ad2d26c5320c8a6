# git_shim

A shim that forwards `git` invocations to the `git.exe` bundled inside a
per-user GitHub Desktop installation on Windows, with its decisions verified
by Verus.

- `src/` is the verified library:
  - `resolver.rs` parses the `app-<version>` token out of GitHub Desktop's
    launcher script and builds the `git.exe` path beneath the install root;
  - `resolution.rs` is the state machine that decides, observation by
    observation, where `git.exe` is or which error ends the search;
  - `error.rs` holds the error type and its messages;
  - `lib.rs` and `os/exec.rs` decide the shim's exit code and diagnostic.
- `app/` is the binary: it reads the environment and the file system for the
  state machine, calls the Known Folders API, and runs git.
- `tests/` exercises the library on concrete values.
