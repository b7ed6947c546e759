# zeebe-rs

A client and job worker for the Camunda Zeebe workflow engine, whose logic is
verified with Verus.

- `src/` is the verified library. Each request builder of the gateway API moves
  through type states and hands out the message that goes on the wire
  (`into_request`); each setter states how the request changes, each message
  states what it carries. The responses are built from the gateway's fields.
  The OAuth token cache, the authorization metadata of a call, the client's
  settings, the worker's configuration, its poller (when to fetch how many jobs)
  and what it reports for a handled job are verified too, with laws over several
  calls: a granted token is what is read next, a failed refresh keeps the token,
  the poller never runs two fetches at once and never asks for more jobs than it
  has room for, a job result is the same whatever order denial and corrections of
  different fields come in, and of two corrections of one field the later wins.
- `app/` is the transport around it: the prost messages and the gRPC client of
  the gateway, connecting a client, the HTTP token requests and the background
  refresh, sending each request, and the worker's tasks, channels and timers.
  Its errors implement `std::error::Error`.
- `tests/` exercises the library on concrete values.
