# aifw_api

The REST API of the AiFw firewall. The logic is a library in `src/`, verified
with Verus: each function states in `requires` and `ensures` what it takes and
what it gives, and the laws that relate several functions are public proof
functions beside them.

- `src/auth` finds out who makes a request, keeps what it learned for a while,
  and slows down those who guess passwords.
- `src/backup` plans restores, carries them out step by step, checks and shows
  configurations.
- `src/dns_resolver` generates the resolvers' files and switches between them.
- `src/routes`, `src/ids.rs` and `src/plugins.rs` hold the rules of the
  endpoints, `src/router.rs` says what each endpoint needs.
- `src/server.rs` and `src/pf_conf.rs` hold what the server decides about itself.
- `src/text.rs`, `number.rs`, `net.rs`, `kv.rs`, `json.rs`, `identifiers.rs` and
  `status.rs` are what the rest is built from.

What depends on the world outside is asked for step by step: a function hands
out the next action, whoever runs it performs the action and hands back what
happened. Calls into other crates stand behind small wrappers whose contracts
say what is relied on.

`app/` is the server around the library: arguments, the database, programs of
the system, HTTP. The engines of the firewall are behind the trait `Engines`;
a server without engines knows nobody and changes nothing. What an engine shows
of its own records it hands over as JSON.

`tests/` holds the tests of the library.
