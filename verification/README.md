# chatroom

A small chat room: clients register, log in, list the registered accounts and
send texts to picked receivers through one server. Every message carries a
SHA-256 digest of its JSON form, checked when it is read.

- `src/` is the verified library (Verus): the wire messages and their sealing
  (`protocol`, `digest`), the server's table of accounts (`users`), the
  server's handling of each request (`server`) and the client's state and its
  reading of the server's answers (`client`).
- `app/` is the plain Rust around it: sockets, JSON (serde), the async server
  loop and the druid windows. Run `server` to start the server; without an
  argument the client's login window opens.
- `tests/` exercises the library on concrete values.
