# wt

A per-repository git worktree manager: `wt new` creates (or re-opens) a
worktree for a branch and runs the steps configured in `.wt.toml`, `wt rm`
and `wt clean` remove worktrees (the latter those whose pull requests were
merged), `wt ls`, `wt path`, `wt open` and `wt prune` inspect and maintain
them.

## Layout

- `src/` is the library, verified with Verus. It holds the configuration
  model, the parsers (git and gh output, the pull request JSON), the text and
  path operations, the error messages, and every subcommand as a sequence of
  decision functions: each takes what the last piece of outside work returned
  (a process's exit code and output, whether a path exists, the user's
  answer) and says what to print and what to do next. Contracts state the
  result of each function exactly, over `Seq<char>` views of the strings.
- `app/` is the program around it: command line parsing (clap), reading
  `.wt.toml` (serde, toml), running git, gh, the shell and the editor,
  prompts (dialoguer), and the file system. It drives the library's decision
  functions in loops.
- `tests/` runs the library on concrete values.
