# Momo

Momo is a Telegram chat companion that speaks as a tsundere cyber calico
cat. She answers when addressed, pounces on mentions of snacks, speaks up on
her own now and then, keeps moods that wear off, and talks through the Grok
chat API.

## Layout

- `src/` — the library, verified with Verus. It holds every decision the bot
  makes: when to answer (`passive`), what a message carries and how it is
  summarised and logged (`handler`), the course of handling a message as a
  machine of stages (`flow`), commands (`commands`), spontaneous
  messages (`active`), moods and schedules (`state`), the members, messages
  and bots remembered per chat (`members`, `tracking`), the conversation
  history (`history`), the requests sent to the model (`grok`, `prompts`),
  image formats and data URLs (`media`), the image server's routing
  (`server`) and the reconnection backoff (`retry`). `laws` states the
  properties that hold across operations.
- `app/` — the program around the library: the Telegram dispatcher, HTTP
  calls to the model, the SQLite store, image downloads and the local image
  server. It performs what the library decides.
- `tests/` — tests of the library on concrete values.

Chances are integers: a roll is drawn below `ROLL_SCALE` (one million) and
compared with a chance in millionths. Times are milliseconds on a monotonic
clock.
