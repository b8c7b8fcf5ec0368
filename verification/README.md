# sbcli

A command-line client for the ShareBrowser EVO public API. It asks for the
EVO's address and the user's credentials, logs in, shows what the EVO reports
about itself, and then reads commands at the `SBCLI:` prompt until `logout`.

- `src/` is the library, verified with Verus:
  - `command.rs`: the words typed at the prompt and what they mean;
  - `terminal.rs`: the terminal's local-mode flags (canonical mode, echo);
  - `text.rs`: trimming, decimal numerals, JSON string literals;
  - `protocol.rs`: request URLs and bodies, and the meaning of replies;
  - `client.rs`: the session as a state machine from event to action.
- `app/main.rs` is the program: it performs the actions the client asks
  for (terminal attributes, standard input and output, HTTP).
- `tests/` runs the library on concrete values.
