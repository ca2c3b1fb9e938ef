# apifs

apifs sets reminders and writes notes from the command line; a small server
lets the reminders go off.

- `src/` is the verified library: the command-line grammar (`options`,
  `grammar`), the model of time (`time`), reminders and their text
  (`reminder`), the stored data (`apifs_object`), the commands and their edits
  of the data (`command`), the decisions of the reminder server (`server`),
  and laws that relate these (`laws`).
- `app/` is the program around it: argument handling, files, signals, the
  server loop and the reminder window.
- `tests/` runs the library on concrete values.
