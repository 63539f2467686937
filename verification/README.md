# honeypot

A fake Minecraft server. It answers status pings with believable server
lists, turns every player away at login, counts each contact per address in
a Postgres table and reports pings and joins to a chat webhook.

- `src/` is the verified library (Verus): the conversation rules of a
  connection (`handler`), the status responses (`templates`, `response`),
  the report texts (`webhook`), the settings (`config`), the decisions of the
  statistics table (`db`, `models`) and the world layout (`server`).
- `app/` is the program around it: environment, database queries, sockets,
  packet encoding and the webhook requests.
