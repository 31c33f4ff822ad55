# slim_channel

Messages of the SLIM data plane, and the endpoints of a channel that exchange them: a
moderator that invites participants and tells them of the changes of their group, and
the participants.

- `src/` is the verified library.
  - `encoder`, `kinds`, `proto`, `bodies`, `message`: names, headers and messages.
  - `text`, `table`: decimal text, and a small map.
  - `payload`: the payload of a join request, in the format of the `bincode` crate.
  - `session`: what an endpoint asks of the session around it, and what it is told back.
  - `mls`, `endpoint`: what moderator and participant share.
  - `participant`, `moderator`, `channel`: the endpoints. Handling a message is a run of
    steps; a step ends with a message to send, a request to the group key engine, or the
    result. The `_model` modules say what each step is, the `_laws` modules what holds
    of whole runs.
- `app/` runs an endpoint: it sends, asks the engine, and keeps the timers.
- `tests/` runs the library on concrete messages.
