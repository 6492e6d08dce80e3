# ramflux-sdk

Client library for the Ramflux messaging network, verified with Verus.

- `src/` holds the library: gateway sessions, direct messages, groups, contacts, objects on a relay,
  recovery, and the history that one device hands to another. Each function states in its contract
  what it returns, and the laws of the library are public proof functions named `law_...`.
- `tests/` runs the library on concrete values.
- `app/` holds what surrounds it: sockets, files, the environment, the clock, the wire forms of the
  types, and the drivers that carry out what the library decides.

A decision that lies between two pieces of outside work is a step of a state machine: the library
says what is to be done next, a driver does it and hands back what came of it. What an account
database is asked is a value (`records::AccountDbRequest`), and what has to be signed is built
without its signature, which `signed` or `with_signature` adds. What the library relies on of the
account database and of the index of accounts is described in `store`, with the laws on reading back
what was written.

The library calls three things that it does not prove: BLAKE3, HMAC-SHA256, and the reading and
writing of JSON. They stand in `digest` and `json`, each behind a contract that says what is taken
for granted.
