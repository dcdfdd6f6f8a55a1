# lorri

Execute Nix commands using a builder-pattern abstraction.

`src/` describes calls (`nix::CallOpts`), turns them into command lines, and
makes values, store paths and errors of what the commands leave behind. It is
verified with Verus:

- `nix/opts.rs`: the builder, its model `Call`, and the command lines
- `nix/argstrs.rs`, `nix/argument.rs`: named string arguments; the words of a
  command line
- `nix/outcome.rs`, `nix/lines.rs`: standard output, log and exit status, and
  what they mean
- `nix/error.rs`, `nix/status.rs`, `nix/path.rs`: errors, exit statuses, store
  paths and GC roots
- `nix/laws.rs`: what holds of all of this together

`app/` starts the processes, moves bytes between them and the library, and
decodes JSON into the caller's types.
