# isignkit

A library for iOS app repositories: GBox repositories (plain and sealed, their
links maps and remote configuration), AltStore and SideStore sources, and the
conversions between the three formats. The library is written in Verus; each
public function states what it returns in its contract, and the laws that tie
functions together (conversions never add apps, restoring hidden links undoes
hiding them, sealed items open to what was sealed, numbers read back as
written) are proof functions.

- `src/` is the verified library. Calls into `base64`, `md5`, `hex`, `url`,
  `chrono`, `version-compare`, `openssl` and `serde_json` stand behind small
  trusted wrappers whose contracts name what the outside function returns.
- `app/` is the command line tool: argument parsing, file and network I/O,
  JSON reading and writing through serde copies of the library's types, schema
  validation, and the RNCryptor sealing of payloads.
- `tests/` exercises the library on concrete values.
