# brushfire

Policy enforcement for a shell, verified with Verus: firejail-style profiles
are parsed into a policy, and the policy decides which files the shell may
read, write or execute and which commands it may spawn. Policy-aware wrappers
for core utilities use the same policy to check the file arguments of a
command line before running the real utility.

## Layout

- `src/` — the verified library.
  - `rules` — policies, filesystem and command rules, and their views.
  - `parser` — profile parsing as a state machine: the parser asks its caller
    for file contents, for which include candidate exists, and for canonical
    paths, and decides everything else.
  - `engine` — file access and process spawn decisions, with the events a
    reporter receives for them.
  - `macros` — `${NAME}` expansion with the standard macros.
  - `reporter` — policy events and the reporter trait.
  - `schemas`, `arg_parser` — utility schemas and command-line classification.
  - `wrappers` — where real utilities are looked for, which command rules block
    them and allow the wrappers, and the wrapped shell's environment.
  - `policy_loader`, `error` — error types and the texts they are shown as.
  - `paths`, `text` — path and character-sequence operations with their
    specifications.
- `tests/` — tests of the library.
- `app/` — the wrapper program: filesystem, environment, clock, webhook and
  process execution around the library.

## Trust

Verus believes, without proof, the contracts of a few calls into outside
code: `glob::Pattern::new`/`matches_path`, `path_clean::clean`,
`Path::parent`, `Path::file_name`, `str::to_uppercase` and `String::push`.
Each is a small wrapper whose contract names the result of the call.
