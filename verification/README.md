# tt

A command-line translator: give it text, get the translation together with
its synonyms and their back translations.

The crate is in two parts.

- `src/` is the library, verified with Verus: language codes and aliases,
  command-line parsing, profiles, the text layouts (plain, colored, verbose,
  JSON), the help screens, request planning for each Google lane, reading
  responses, the decisions of the lane race, and the pure parts of the
  on-disk cache (key hashing, entry names, eviction order, sizes). Each public
  function states its result exactly over spec functions; the laws the
  program promises (order-free parameters, case-insensitive languages,
  plain output when piped, the default profile never lost, and others) are
  public proof functions next to the code they are about.
- `app/` is the program around it: `main`, terminal detection, reading files
  and standard input, the configuration and cache files, HTTP requests,
  the threads and timers of the lane race, and self-update.

`tests/` exercises the library on concrete inputs.
