# scribe_client

The client of a terminal multiplexer, as a verified library: what keys send, what
commands and messages become, how a connection is made, lost and restored, how the
server on this machine is started and restarted, what the images of a window may
take up, and what its dialogs, palette, menus and CI bar say.

- `src/` is the library. Every function has a contract that Verus proves. The
  laws of a module are its public proof functions.
- `tests/` runs the library on concrete values.
- `app/` is the shell around it: sockets, processes, files, clocks, and everything
  that is counted in fractions of a pixel.

A few functions are taken on trust. They call `str::to_lowercase`, the UTF-8
decoders of `core` and `alloc`, `String::push`, `image::ImageBuffer` and
`serde_json`; the doc comment of each says what it is taken to do.
