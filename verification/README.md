# trustybox

A file-hosting service: files are uploaded over HTTP, optionally encrypted with AES-256,
recorded in MongoDB under a short random path, and downloaded by that path (and, for an
encrypted file, its key in base64).

- `src/` is the library, verified with Verus: key generation and the base64 form of keys
  (`aes_key`, `base64_convert`), padding and block-wise AES-256 (`encryption`), short paths
  (`short_url`), stored file names (`uuid_name`, `file_type`), MIME types (`content_type`),
  the database records and the choice of a free short path (`store`), and the decisions of
  the upload and download handlers (`upload`, `download`). Calls into `aes`, `base64`,
  `rand` and `uuid` stand behind small trusted wrappers whose contracts are documented
  where they are declared.
- `app/` is the HTTP server (axum, tokio, MongoDB): it reads requests, files and the
  database, and hands what it read to the library.
- `tests/` exercise the library with the real outside crates.
