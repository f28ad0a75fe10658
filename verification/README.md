# OctoPOS bootstrapper

The one-click installer of the OctoPOS server for Windows. It sees to WSL, runs
the silent installer of the server, waits until the server answers, installs the
OctoPOS Admin and its updater service, reports on the way, and removes itself in
the end.

`src/` is a Verus library that holds all the decisions. Every procedure is a
transition function from a stage and an event to a request or a result, and its
contract says exactly which. On top of that, the library proves what the
procedures promise together, among it:

- progress only ever grows, along one of two rows of percents, and no step leads
  back;
- Windows is told to restart, or the user asked to do so, only after the program
  was registered to go on;
- every line of a streamed command goes to the log, which is only appended to;
- the admin is installed only once the server has shown that it is up;
- an installation that is announced as complete has done all of its steps;
- a failure ends the installation with its own message;
- reports are at least thirty seconds apart, but for the last, which always goes,
  and the log that they carry can be unpacked from them;
- paths that are put into scripts are read back as they are, and the build of
  Windows, numbers and secrets are read and written without loss.

What comes from other crates and from the standard library without a
specification stands behind small functions with stated contracts: JSON
(`serde_json`), random bytes (`getrandom`), identifiers (`uuid`), compression
(`flate2`) and base64 (`base64`), the decoding of UTF-8 with replacements, and
lower case.

`app/` carries the requests out: it runs commands, touches files, reads the
clock, shows the window (`tauri`), and sends the reports (`ureq`).

`tests/` runs the library on concrete machines, releases, logs and failures.
