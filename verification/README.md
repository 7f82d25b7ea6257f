# ctbox

A command-line client for a campus network portal, with its logic written as a
Verus library.

- `src/` is the verified library:
  - `network::encrypt`: the credential cipher, with the proofs that decryption
    undoes encryption (and the reverse) on texts written in the key alphabet;
  - `network::address`: the login and query addresses, built with the `url`
    crate;
  - `network::util`: reading the payload out of callback-wrapped replies with
    the `regex` crate;
  - `network::login`, `network::query`: the rules that turn a portal reply
    into a result or an error;
  - `error`: the error type and how it is shown;
  - `cli`: the command line, the settings and their defaults, and the plan for
    carrying out a command;
  - `text`: character helpers and decimal numbers.
- `app/` is the program around it: argument parsing (`clap`), the settings
  file (`confy`), HTTP (`reqwest`), JSON decoding (`serde_json`) and printing.
  The portal's entrance address is read from the `CTBOX_ENTRANCE` environment
  variable.
- `tests/` runs the library on concrete values.
