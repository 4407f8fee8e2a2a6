# matrix_bot_test

A personal Matrix bot with end-to-end encryption: it logs in (or restores its
stored session), makes sure its device is cross-signed, asks its owner for
interactive emoji (SAS) verification, joins rooms the owner invites it to, and
echoes text messages back.

Layout:

- `src/` — the decisions of the bot, verified with Verus:
  - `config` — configuration values and the layout of the persistent data
    (`~/.cache/matrix-bot-test/data/{session.json,sqlite_store}`);
  - `identity` — the owner's user ID and the localpart of the bot's own ID;
  - `session` — restoring versus creating a session, what is persisted, and
    whether the owner is asked for verification;
  - `bootstrap` — the cross-signing bootstrap as a state machine;
  - `verification` — the verification request flow (initiator or responder)
    and the SAS flow as state machines;
  - `autojoin` — which invites are accepted, and the join retry backoff;
  - `rooms` — finding or creating a room with the owner, and the echo reply.
- `app/` — the program: reads the environment, talks to the homeserver through
  `matrix-sdk`, and runs the state machines of `src/`.
- `tests/` — tests of the library.
