# terse

A client for Terse servers: search posts, read them in a terminal
interface, publish posts, and manage the servers you know and the accounts
you use on them.

- `src/` is the library, written in Verus: the state of each screen and how
  keys change it, the list of servers, the texts the client prints, and the
  URLs it asks for. Every function there carries a contract that Verus proves;
  the few calls into `url`, `colored`, `bytesize`, `capitalize` and std that
  it rests on are marked `#[verifier::external_body]`, each with a doc comment
  saying what is claimed of it.
- `app/` is the `ts` program around it: command-line parsing, the
  configuration file, network requests and drawing on the terminal.
- `tests/` runs the library on concrete values.
