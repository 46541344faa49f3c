# musay

The core of a Discord music bot, with its behaviour stated as contracts and
proved with Verus.

- `src/` is the verified library:
  - `audio`: tracks, the bounded queue with its play history, the player
    state machine (`player`), the resolver that turns a query or URL into a
    track (`resolver`), and properties spanning several operations (`laws`).
  - `discord`: the chat command parser, what each command does to a guild
    session (`session_ops`), and the runtime's message-level decisions
    (`runtime`).
  - `config`: fail-closed validation of the settings.
  - `permissions`: user, channel, role and track rules.
  - `persistence`: the rules of the JSON store (safe paths, size limits).
  - `guild`: the state of one guild.
  - `text`: character-level helpers (trimming, searching, number parsing).
- `app/` is the executable: environment, terminal, files, the tool check's
  probes, the session registry with its locks, and the Discord gateway
  client. It serves the chat commands on the guild sessions' state (queue,
  player, replies); it does not join voice channels or play audio, so
  pause, resume, volume and mute only answer (success while a track is
  current, else that no track is active) and change no state.
- `tests/` exercises the library on concrete values.
