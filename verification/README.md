# ship

The logic of `ship`, a release tool (tests, version bump, changelog,
commit, push, pull request, health checks, learnings, vault notes), as a
library verified with Verus, and the command line around it.

- `src/` is the verified library. Each step of a release is a function from
  what was observed (command output, file contents, clock readings) to its
  result, and the runs of the release, of the commit step and of a note
  export are state machines that say which step comes next. Contracts are
  stated over `Seq<char>` views; the laws of the library (step order, dry
  runs that change nothing, changelog entries that list every commit,
  pruning that keeps one learning per message, and others) are proof
  functions next to the code they speak of.
- `app/` is the `ship` binary: argument parsing, running git and other
  programs, files, HTTP, the MCP server, and printing.
- `tests/` runs the library on concrete values.
