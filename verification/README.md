# ipc-rpc

Remote procedure calls between two processes: a server and the one client that it serves. Either
end sends messages to the other; a reply finds the caller who waits for it by the identifier of the
message that it answers; and both ends check when they connect that their message schemas match.

- `src/` is the verified library `ipc_rpc`. It holds what a connection decides, and performs no input or
  output: events and times go in, actions come out.
  - `message`, `pending`, `mail`: the messages, who awaits which reply, and what an end does with its
    incoming mail.
  - `schema`: comparing the schemas of the two ends.
  - `status`, `session`, `client`, `server`: what a handle reports, and the two ends.
  - `environment`: the environment of a client process that a server starts.
  - `key`, `error`, `receive`: connection keys, errors, and moving messages out of a blocking channel.
  - `laws`: what holds over any number of steps.
- `tests/` exercises the library, with both ends joined in memory.
- `app/` runs the library over `ipc-channel` and `tokio`.
