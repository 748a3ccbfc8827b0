# oxide

The Oxide command line tool, with its logic verified by Verus.

- `src/` is the library: the configuration files and their hosts and aliases,
  the environment overrides, alias expansion and command dispatch, terminal
  settings and colors, the decisions of each command (login and logout steps,
  confirmations, messages, request building and pagination of `oxide api`,
  the shared rules of the create, edit, view, list and delete commands of each
  resource (`crud`),
  header tables), update checks, the documentation pages (markdown and manual
  pages) and the keys of the serial console. Each public function states its
  result in its `ensures`; the laws that relate several functions are public
  proof functions (`law_*`).
- `app/` is the program around it: argument parsing, files, the terminal,
  prompts and HTTP requests.
- `tests/` run the library on concrete values.
