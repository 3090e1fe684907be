# keentools_cloud

A command-line client for the KeenTools Cloud 3D head reconstruction API,
whose decision-making core is verified with Verus.

- `src/` is the verified library. Every function there carries a contract,
  and Verus proves the code against it:
  - `validate`: avatar IDs, URLs, photo counts and photo paths;
  - `auth`, `config`: token resolution, masking and the config file's contents;
  - `client`: endpoint paths, status codes, upload content types;
  - `request`: the bodies of `init`, `process`, `run` and `ephemeral`;
  - `upload`, `status`: positional pairing of photos and URLs, polling;
  - `download`, `archive`: the model request and its retry protocol, magic-byte
    detection, GZIP layers and ZIP extraction plans;
  - `pipeline`: the `run` command as a state machine;
  - `self_update`: release selection, version comparison, binary extraction;
  - `schema`, `json`: the introspection document;
  - `exit`: the exit status for each kind of failure;
  - `laws`: properties that span several functions.
- `app/` is the program around it: clap, reqwest, tokio, files and the terminal.
- `tests/` exercises the library on concrete values.
