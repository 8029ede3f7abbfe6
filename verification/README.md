# optimus

The verified core of the Optimus community bot, written with Verus.

- `src/` is the library. Each module holds one part of the bot's logic with
  its contracts and proofs: text and number handling (`text`, `decimal`),
  the random text generators (`thorne`), the file store layout (`store`),
  command arguments and replies (`parser`, `commands`, `mention`), server
  events (`guild`, `onboarding`, `closing`, `reactions`, `deleted`,
  `questions`, `threads`, `dispatch`), the FAQ flow (`faq`), the search
  server (`search`) and the configuration (`config`). Calls into outside
  crates (regular expressions, URLs, encodings, randomness) go through the
  small trusted wrappers of `pattern`, `web`, `thorne`, `onboarding` and
  `deleted`, each documented with what its contract claims.
- `tests/` runs the library on concrete values.
- `app/` is the program around it: it reads the launch line and the
  configuration file, prepares the file store and starts the search server.
