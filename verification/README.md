# pixiv_platform_backend

The backend of Pixiv Platform, a local-first Pixiv downloader, indexer and
gallery, with its logic verified by Verus.

- `src/` — the verified library: the domain and its SQLite repositories
  (images, tasks, settings, saved accounts), download planning and the
  download and task runs (as state machines that ask their caller for each
  file-system step), reading Pixiv's and DeepSeek's replies, the API's
  request checks and responses, the readiness report, and the desktop
  shell's rules (cookie domains, the login watch, window scripts).
- `app/` — the server around it: the axum routes, the HTTP clients for
  Pixiv and DeepSeek, the file system, and the task worker.
- `tests/` — tests of the library, run against an in-memory database and an
  in-memory stand-in for the disk.
