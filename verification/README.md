# KiYa

The decision logic of KiYa, a companion chatbot for older people, as a
library verified with Verus, and the program around it.

- `src/` — the verified library:
  - `conversation` — the conversation with the chat model, and how a reply
    of the model splits into what is remembered about the user and what the
    user is told;
  - `gui` — the state of the chat window and what each of its events does;
  - `settings` — voices, themes and fonts, and how they are saved and read;
  - `speech` — requests to the speech services and how their answers are read;
  - `prompt` — the system prompt and where the user data is kept;
  - `cli` — what the command line asks for;
  - `text` — UTF-8 offsets, substring search, decimal digits, joining.
- `app/` — the program: command line, terminal chat, database, audio,
  network and the window, calling the library for every decision.
- `tests/` — tests of the library.
