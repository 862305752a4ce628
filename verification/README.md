# chat_backend

A chat server's rules, verified with Verus.

- `src/` is the library:
  - `chat::service` names the room two users share (`create_room`) and
    registers connections;
  - `chat::model::chat_context` is the shared table of live connections,
    room by room;
  - `chat::model::chat_room` decides what a chat session does with a text
    frame and when its client leaves; `chat::model::chat_message` renders the
    frame a client receives;
  - `chat::controller` and `user::controller` decide the steps of the chat,
    sign-up, sign-in and token-refresh endpoints;
  - `libs::hash` derives the stored form of a password (PBKDF2-HMAC-SHA256
    over the server's secret, in hexadecimal);
  - `user::service` checks credential lengths; `user::constant` and
    `models::api` hold the reply bodies;
  - `text` and `assoc` hold the facts about UTF-8 text and association
    lists that the proofs use.
- `app/` is the actix-web server around it: HTTP handlers, websocket actors,
  the Postgres queries, session cookies, JWT, and reading the secrets from the environment.
- `tests/` runs the library on concrete values.
