# auto_installer

The logic of a Linux desktop installer for third-party application
packages (AppImage, `.tar.gz`, `.tgz`, `.tar.xz`, `.tar.bz2`, `.zip`),
written in Verus and proved against its contracts.

The installer unpacks a package into a scratch directory for preview,
installs it under a directory the user chooses, optionally writes a
`.desktop` launcher and a command-line link, lists what is installed, and
removes an installation again.

## Layout

- `src/` is the verified library.
  - `text`, `paths`, `order`, `sorting`: character-level text operations,
    a model of Unix paths (`Path::components`, `join`, `strip_prefix`,
    `starts_with`, ...), total orders on text and paths, and a stable sort.
  - `names`: application names, `~` expansion, the installation directory.
  - `desktop`: launcher values, the `Exec` command, reading and writing
    `.desktop` files.
  - `candidates`: executables and icons found in a package, and the
    launcher settings a package suggests.
  - `install`: the single decisions of installing and removing (checks,
    target paths, extraction commands, symbolic links, permissions).
  - `flow`, `copy_flow`, `install_flow`, `preview_flow`, `removal_flow`,
    `listing_flow`, `search`, `walk`: the operations as step machines; each step
    takes the reply to the last file-system request and yields the next
    request or the result.
  - `search_runs`: whole runs of the searches against an unchanged file
    system; the launcher and the link an installation made are found
    again.
  - `laws`, `flow_laws`: properties proved of the library as a whole, among
    them that every path written lies under the directory it belongs to.
    "Under" is lexical: the directory's components are a prefix of the
    path's components, with `.` and `..` unresolved. A package named
    `...zip` gets the application name `..`, so its installation root lies
    lexically under the installation directory but resolves to its parent;
    the installer does not guard against that. For any other name the
    root is a child of the installation directory.
- `tests/` runs the library on concrete values.
- `app/` is the Tauri shell: it performs the requests of the step machines
  against the file system and exchanges requests and responses with the
  window.
