# panorama_mail

An agent-facing interface to a local IMAP/SMTP bridge (such as Proton
Bridge), with a local SQLite + Tantivy cache, an HTTP interface and a
JSON-RPC tool server on standard input and output.

* `src/` is the verified library (Verus): what the program computes —
  the messages read out of RFC 822 sources, the UID sets and search criteria
  sent to the IMAP server, the sender, recipient, subject and body of the
  message handed to the SMTP transport (the lettre message built from them
  is opaque to the contracts), the
  settings read from the environment, the rows and index documents of the
  store, the JSON-RPC routing and tool catalogue, the command output and the
  log line format — each with its contract, and the laws that tie them
  together (`mcp::tools`, `store::sqlite_and_tantivy`).
* `app/` is the program around it: the network sessions, the SMTP
  transport, SQL and index execution, the HTTP server, the stdio loop,
  argument parsing and the JSON forms of the library's types.
* `tests/` exercises the library on concrete values.
