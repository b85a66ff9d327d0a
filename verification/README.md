# repoweave

The decisions behind `rwv doctor` and `rwv fetch`: what is wrong with a
workspace that weaves several repositories together, which of it may be
repaired, in what order, and what is said about it.

- `src/` is the library. Every function states what it returns, and Verus
  proves it. The library reads no files and runs no commands: it takes what was
  observed as values (`*Reading`, `*Observation`) and hands back findings,
  plans and the next step of a protocol.
- `app/` is the ordinary Rust around it: the command line, the walk over the
  directories, the JSON forms, the threads of a fetch, and the loops that carry
  out the steps.
- `tests/` runs the library on concrete workspaces.

Findings are defined in `violation.rs`; each has a ghost view in
`violation_view.rs`, over which the contracts are written. A scan is specified
as a rule applied to each item it reads, in order. The promises that span
several functions are public proof functions next to the code they are about.

Two functions of the standard library are trusted: `String::push`, and the
`Debug` form of a string, by which confusable names are ordered.
