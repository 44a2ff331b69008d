# tabify_explorer

A tray tool for Windows 11 that folds every newly opened Explorer window into
a tab of an Explorer window that is already open.

- `src/` is the verified library (Verus): path and URL interpretation,
  command-line parsing, the settings file, the notification filters and
  debounces, window placement and drag tracking, keyboard sequences, the tray
  menu, and the merge engine, a state machine that decides each step of
  folding a window into a tab. Every public function states its result in
  its contract; where the result depends on the file system (whether a
  directory exists), the contract states what holds for every answer, and a
  verified function beside it takes the answers as arguments and states the
  exact result. The laws of the library are public proof functions.
- `app/` is the Windows program around it: hooks, COM, UI Automation, window
  and registry calls, the log file and the message loop. It performs the
  steps that the library asks for and reports their results back.
- `tests/` runs the library on concrete values.
