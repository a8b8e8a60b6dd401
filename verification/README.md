# release_core

The decisions behind preparing a release of the packages of a cargo workspace,
verified with Verus.

- `src/` is the library. It finds the tag with the greatest version and the
  commit of the last release of each package, says in which order a package is checked out, packaged and
  hashed, collects the released packages, and tells how the failure of each
  step is reported. What has to be done outside of the library is an action;
  what came of it is an event.
- `app/` performs the actions: it works on git repositories, runs cargo and git,
  walks directories and reads manifests.
- `tests/` runs the library on concrete values.

The functions that call an outside crate are marked as such, and the doc comment
of each says what is taken for granted of that crate.
