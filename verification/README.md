# Tachyon

A memory-mapped, lazy-rendering explorer for JSON-lines log files, with its logic verified in Verus.

- `src/` is the library: finding and filtering lines, reading the columns of a line, the state of the
  explorer and what each key does to it, what stands on the screen, and the turns of an update run.
  Every function states its behaviour in its contract; what the library as a whole promises is
  stated in public proof functions.
- `app/` is the program around it: the command line, the terminal, files, requests and processes.
- `tests/` runs the library on concrete values.

## Controls

- `q`: Quit
- `f` or `/`: Enter filter mode
- `Enter`: Inspect selected line as pretty JSON
- `g` / `G`: Jump top/bottom
- `↑` / `↓`: Navigate rows
