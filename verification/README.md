# rue

A terminal client for a Philips Hue bridge.

- `src/` is the verified library: tab navigation (`ui`), the application
  state and the background registration of a user (`app`), the meaning of a
  bridge's replies (`bridge`, with the text map `string_map`), errors,
  addresses, key events, and the layout of the bridge screens.
- `app/` is the program around it: the terminal, the network requests, the
  configuration file and the event loop, each handing plain values to the
  library and acting on what it returns.
- `tests/` runs the library on concrete values.
