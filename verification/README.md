# colcon_deb

Builds Debian packages from a ROS colcon workspace inside Docker.

## Layout

- `src/` is the library, written in Verus: every function carries a
  `requires` / `ensures` contract that Verus proves. It holds the logic:
  `package.xml` parsing (`xml`, `parser`, `package_xml`), ROS-to-Debian
  names, dependencies and versions (`mapping`, `dependency`, `version`),
  debian directory checks (`validation`, `manager`), the apt repository's
  index text and checksums (`repository`), progress-line parsing and the
  progress display model (`progress`, `progress_ui`), the build state, its
  recovery and shutdown decisions (`context`, `recovery`, `shutdown`,
  `orchestrator`, `executor`), artifact organisation and the summary
  (`artifact`, `summary`), and configuration checks (`config`, `commands`).
  Laws that span several functions are public proof functions named
  `law_*`.
- `app/` is the program around it: command-line parsing, file system and
  Docker access, signal handling, the retry loop and the terminal display.
  It asks the library for every decision and performs the I/O.
- `tests/` runs the library on concrete values.

Calls into outside crates (quick-xml, regex, md5, sha1_smol, sha2, hex,
chrono, atty, tar) stand in `src/` behind small `#[verifier::external_body]`
wrappers whose contracts state what those crates document.
