# r_shell

The decisions behind two features of a remote shell client, verified with Verus.

- **External editor** (`src/editor`). A remote file is downloaded to a temporary directory,
  opened in VS Code, polled once a second, and uploaded after every save until its session is
  closed. `identity` hashes contents and names sessions, `paths` lays out the temporary files,
  `registry` keeps the sessions, `open` takes a file from the request to the running loop,
  `sync` is that loop, `transfer` picks the client of a connection, `launch` starts the editor.
  `open_laws` and `sync_laws` state what holds over whole runs.
- **Local shell** (`src/local_pty`). `shell` picks the shell and its directory, `session` plans
  the pseudo terminal, `output`, `input` and `supervisor` run it, `cwd` reads a shell's
  working directory from what the system reports.

Network, files, processes and the front end are in `app`, which performs what the library asks
for. `app/commands.rs` needs the system libraries that Tauri builds against.
