# Oboete

A flashcards application, written as a verified library and a thin program
around it.

- `src/` is the library, verified with Verus. It holds the data model
  (flashcards, folders, study sets), the text import and export formats
  (custom separators and Anki text files), the study session (due cards,
  ordering, FSRS review updates), the dialogs, the screens and the
  application model as state machines from message to new state and the
  work they ask for, the grouping of backup rows, and the paths of the
  database and of saved images. Contracts state what each function returns
  over spec functions; laws such as the Anki and plain export round trips,
  the status id round trip and the preservation of every card by a backup
  are proof functions.
- `app/` is the program: it opens the SQLite database, runs the FSRS
  scheduler (which computes in floating point), reads and writes files, and
  carries out the effects that the application model returns.
- `tests/` runs the library on concrete values.
