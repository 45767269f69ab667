# file_server

A small blog and dashboard web server. `src/` is the verified library: the
decisions the server makes (logging in with bcrypt-checked passwords, what
each route answers, which routes are mounted where), the parsing of what it
reads from the system (decimal brightness values, the interface state, the
SSID, the address listing of `ip -o address`), and the records it keeps.
`app/` is the program around it: the web framework, the Postgres database,
the commands and files it reads, and the inotify watchers; `app/main.rs seed`
fills the database with test data.

Modules of `src/`: `auth`, `blog`, `static_files`, `server`, `models`,
`http` (the shapes of answers and routes), `blocks` (`backlight`, `wifi`),
`decimal` and `text`.
