# edith

The core of Edith, a local French-speaking voice assistant, as a verified
library, with the program around it.

- `src/` — the library, verified with Verus:
  - `security`: permission levels and the central guard (`check`);
  - `conversation`: messages and the sliding context window;
  - `assistant`: the request loop as a state machine (model rounds, tool
    calls, permission checks, results);
  - `brain`: model replies, tool definitions, the Ollama chat format;
  - `tools`: the tool registry, the built-in tools (time, applications,
    volume, music) and the web tools (weather, search);
  - `voice`: command lines and output protocols of whisper.cpp, `say` and
    the wake-word listener;
  - `json`, `text`: JSON values as data, and string helpers.
- `app/` — the program: terminal loop, configuration file, HTTP client,
  processes, clock and channels, driving the library.
- `tests/` — behaviour tests of the library.
