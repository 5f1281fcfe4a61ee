# drop-typing

Voice typing: hold a key, speak, and the text waits in a staging bar until a
short press pastes it. A second key repairs the text by voice, a third runs
spoken commands, and wake words do the same without the keyboard.

- `src/` is the library. It decides everything: what a key means, what the bar
  shows, what a spoken command is, what is sent to the services and what is made
  of their answers, what the settings pages are told. Its functions carry
  contracts that Verus proves.
- `app/` performs what the library decides: windows, keys, the microphone, the
  clipboard, files and connections, and the arithmetic on sound, which is
  floating point.
- `tests/` runs the library on concrete values.

Functions that state general properties are named `law_…`. What the library
takes from `serde_json`, `base64`, `hound` and the standard library is declared
in `json`, `base64`, `audio::pcm`, `wakeword::text2token` and `text`; each
declaration says what it relies on.
